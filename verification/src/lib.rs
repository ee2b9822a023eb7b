//! Verified core of a latency-aware batching pipeline for zero-knowledge
//! proving of SVM-style transactions.

pub mod clock;
pub mod errors;
pub mod executor;
pub mod guest;
pub mod hashing;
pub mod metrics;
pub mod ingress;
pub mod onchain;
pub mod pipeline;
pub mod policy;
pub mod proving;
pub mod state;
pub mod text;
pub mod trace;
pub mod types;
pub mod workload;
