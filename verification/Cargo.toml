[package]
name = "catalyst"
version = "0.1.0"
edition = "2021"
publish = false

[dependencies]
sha2 = "0.10"
hex = "0.4"
serde = { version = "1", features = ["derive"] }
serde_json = "1"
bincode = "1"
rand = "0.8"
rand_distr = "0.4"
clap = { version = "4", features = ["derive"] }
comfy-table = "7"
csv = "1"
anyhow = "1"
thiserror = "1"
tracing-subscriber = { version = "0.3", features = ["env-filter"] }
plotters = "0.3"
