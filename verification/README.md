# catalyst

Latency-aware batching of SVM-style transactions for zero-knowledge proving,
with its core written in Verus and proved against its contracts.

## Layout

- `src/` — the verified library.
  - `policy` — batch sealing policies (fixed count, fixed time, hybrid,
    priority-aware, the adaptive policy's sealing rule, and the auto policy
    that classifies recent traffic).
  - `pipeline` — the priority lane and regular queue, and how a batch is
    formed when a policy seals.
  - `state`, `executor`, `trace` — the ordered account state (`StateMap`,
    a name-sorted list of accounts with its order as a type invariant, so
    that every state has one sorted entry list to hash; a standard map keyed
    by `String` does not give Verus enough to prove that), the
    four-opcode deterministic executor and the execution trace with its
    commitments.
  - `hashing` — SHA-256 digests (through `sha2` and `hex`), Merkle roots and
    trace-entry hashes.
  - `guest` — the re-execution a proving guest performs and its check of the
    claimed commitments.
  - `proving` — inputs handed to the prover, the proof artifact, and the
    verifier's checks of the public inputs.
  - `metrics` — totals, counts and sorted latencies of a benchmark run.
  - `workload` — seeded synthetic workloads: arrival gaps and priorities
    per scenario and the fields of each generated transaction, drawn
    through `rand`.
  - `ingress`, `onchain`, `clock`, `errors`, `types`, `text` — validation and
    workload helpers, the on-chain batch registry, time, errors, data types
    and decimal rendering.
- `tests/` — tests of the library.
- `app/` — the benchmark command line and what surrounds the library:
  the Poisson scenario's exponential gaps, wall-clock time, floating-point metrics, the SP1 prover
  and verifier, the zkVM guest entry and the Anchor program.

Run `verus` on `src/lib.rs` to check the proofs.
