//! The integer side of benchmark metrics: what one processed batch measured,
//! and the totals, counts and sorted latencies a run aggregates from them.
//! Averages, rates and percentiles are ratios of these and are left to the
//! caller.
use vstd::prelude::*;
use vstd::seq_lib::{to_multiset_build, to_multiset_insert};
use crate::types::{ExecutionTrace, Proof, VerificationResult};

verus! {

/// The integer measurements of one processed batch.
#[derive(Debug, Clone, Copy, PartialEq, Eq)]
pub struct BatchCounts {
    pub batch_size: usize,
    pub total_compute_used: u64,
    pub execution_time_ms: u64,
    pub proving_time_ms: u64,
    pub verification_time_ms: u64,
    pub end_to_end_latency_ms: u64,
    pub proof_size_bytes: u64,
    pub verification_passed: bool,
}

/// The measurements of a batch of `batch_size` transactions that started at
/// `batch_start` and finished at `batch_end`: execution time is modelled as
/// one millisecond per thousand compute units, and the end-to-end latency
/// does not go below zero.
pub fn batch_counts(
    batch_size: usize,
    trace: &ExecutionTrace,
    proof: &Proof,
    verification: &VerificationResult,
    batch_start: u64,
    batch_end: u64,
) -> (r: BatchCounts)
    ensures
        r.batch_size == batch_size,
        r.total_compute_used == trace.total_compute,
        r.execution_time_ms == trace.total_compute / 1000,
        r.proving_time_ms == proof.proving_time_ms,
        r.verification_time_ms == verification.verification_time_ms,
        r.end_to_end_latency_ms == (if batch_end >= batch_start {
            batch_end - batch_start
        } else {
            0
        }),
        r.proof_size_bytes == proof.proof_size_bytes,
        r.verification_passed == verification.is_valid,
{
    BatchCounts {
        batch_size,
        total_compute_used: trace.total_compute,
        execution_time_ms: trace.total_compute / 1000,
        proving_time_ms: proof.proving_time_ms,
        verification_time_ms: verification.verification_time_ms,
        end_to_end_latency_ms: batch_end.saturating_sub(batch_start),
        proof_size_bytes: proof.proof_size_bytes as u64,
        verification_passed: verification.is_valid,
    }
}

/// The sum of `f` over the batches.
pub open spec fn sum_by(s: Seq<BatchCounts>, f: spec_fn(BatchCounts) -> int) -> int
    decreases s.len(),
{
    if s.len() == 0 {
        0
    } else {
        sum_by(s.drop_last(), f) + f(s.last())
    }
}

/// The number of batches that satisfy `p`.
pub open spec fn count_by(s: Seq<BatchCounts>, p: spec_fn(BatchCounts) -> bool) -> int
    decreases s.len(),
{
    if s.len() == 0 {
        0
    } else {
        count_by(s.drop_last(), p) + if p(s.last()) {
            1int
        } else {
            0int
        }
    }
}

pub open spec fn transactions_of() -> spec_fn(BatchCounts) -> int {
    |m: BatchCounts| m.batch_size as int
}

pub open spec fn proof_bytes_of() -> spec_fn(BatchCounts) -> int {
    |m: BatchCounts| m.proof_size_bytes as int
}

pub open spec fn compute_of() -> spec_fn(BatchCounts) -> int {
    |m: BatchCounts| m.total_compute_used as int
}

pub open spec fn execution_of() -> spec_fn(BatchCounts) -> int {
    |m: BatchCounts| m.execution_time_ms as int
}

/// Proving and verification time: what a batch spends beyond execution.
pub open spec fn overhead_of() -> spec_fn(BatchCounts) -> int {
    |m: BatchCounts| m.proving_time_ms + m.verification_time_ms
}

pub open spec fn passed() -> spec_fn(BatchCounts) -> bool {
    |m: BatchCounts| m.verification_passed
}

/// The batch took longer than the latency target.
pub open spec fn violates(sla_latency_ms: u64) -> spec_fn(BatchCounts) -> bool {
    |m: BatchCounts| m.end_to_end_latency_ms > sla_latency_ms
}

/// The end-to-end latencies of the batches, in order.
pub open spec fn latencies(s: Seq<BatchCounts>) -> Seq<u64> {
    s.map_values(|m: BatchCounts| m.end_to_end_latency_ms)
}

pub open spec fn ascending(s: Seq<u64>) -> bool {
    forall|i: int, j: int| 0 <= i < j < s.len() ==> s[i] <= s[j]
}

/// Every total fits its type: transactions in `usize`, the others, and
/// execution plus overhead, in `u64`.
pub open spec fn totals_fit(s: Seq<BatchCounts>) -> bool {
    &&& sum_by(s, transactions_of()) <= usize::MAX
    &&& sum_by(s, proof_bytes_of()) <= u64::MAX
    &&& sum_by(s, compute_of()) <= u64::MAX
    &&& sum_by(s, execution_of()) + sum_by(s, overhead_of()) <= u64::MAX
}

/// What a run aggregates from its batches.
#[derive(Debug, Clone)]
pub struct MetricTotals {
    pub total_transactions: usize,
    pub total_batches: usize,
    pub total_proof_size_bytes: u64,
    pub total_compute_used: u64,
    pub verification_successes: usize,
    pub sla_violations: usize,
    pub total_execution_ms: u64,
    pub total_overhead_ms: u64,
    /// The end-to-end latencies, ascending.
    pub sorted_latencies_ms: Vec<u64>,
}

/// A prefix sums to no more than the whole when nothing is negative.
proof fn lemma_prefix_le(s: Seq<BatchCounts>, f: spec_fn(BatchCounts) -> int, i: int)
    requires
        0 <= i <= s.len(),
        forall|m: BatchCounts| #[trigger] f(m) >= 0,
    ensures
        sum_by(s.take(i), f) <= sum_by(s, f),
    decreases s.len(),
{
    if i < s.len() {
        lemma_prefix_le(s.drop_last(), f, i);
        assert(s.drop_last().take(i) =~= s.take(i));
    } else {
        assert(s.take(i) =~= s);
    }
}

/// The latencies in ascending order.
pub fn sort_ascending(v: &Vec<u64>) -> (r: Vec<u64>)
    ensures
        ascending(r@),
        r@.to_multiset() == v@.to_multiset(),
        r@.len() == v@.len(),
{
    let mut out: Vec<u64> = Vec::new();
    let mut i: usize = 0;
    assert(v@.take(0) =~= out@);
    while i < v.len()
        invariant
            i <= v@.len(),
            out@.len() == i,
            ascending(out@),
            out@.to_multiset() == v@.take(i as int).to_multiset(),
        decreases v@.len() - i,
    {
        let x = v[i];
        let mut j: usize = 0;
        while j < out.len() && out[j] <= x
            invariant
                j <= out@.len(),
                forall|k: int| 0 <= k < j ==> out@[k] <= x,
            decreases out@.len() - j,
        {
            j = j + 1;
        }
        proof {
            to_multiset_insert(out@, j as int, x);
            to_multiset_build(v@.take(i as int), x);
            assert(v@.take(i as int + 1) =~= v@.take(i as int).push(x));
            assert forall|k: int| j <= k < out@.len() implies x < #[trigger] out@[k] by {
                assert(out@[j as int] <= out@[k]);
            }
        }
        let ghost before = out@;
        out.insert(j, x);
        assert(out@ =~= before.insert(j as int, x));
        i = i + 1;
    }
    assert(v@.take(v@.len() as int) =~= v@);
    out
}

/// Aggregates the batches: transaction, proof-size, compute, execution and
/// overhead totals, how many passed verification and how many took longer
/// than `sla_latency_ms`, and the latencies in ascending order. Nothing is
/// returned when a total does not fit its type.
pub fn metric_totals(batches: &[BatchCounts], sla_latency_ms: u64) -> (r: Option<MetricTotals>)
    ensures
        r is Some <==> totals_fit(batches@),
        r matches Some(t) ==> {
            &&& t.total_transactions == sum_by(batches@, transactions_of())
            &&& t.total_batches == batches@.len()
            &&& t.total_proof_size_bytes == sum_by(batches@, proof_bytes_of())
            &&& t.total_compute_used == sum_by(batches@, compute_of())
            &&& t.verification_successes == count_by(batches@, passed())
            &&& t.sla_violations == count_by(batches@, violates(sla_latency_ms))
            &&& t.total_execution_ms == sum_by(batches@, execution_of())
            &&& t.total_overhead_ms == sum_by(batches@, overhead_of())
            &&& ascending(t.sorted_latencies_ms@)
            &&& t.sorted_latencies_ms@.to_multiset() == latencies(batches@).to_multiset()
        },
{
    let n = batches.len();
    let mut txs: u128 = 0;
    let mut bytes: u128 = 0;
    let mut compute: u128 = 0;
    let mut exec: u128 = 0;
    let mut overhead: u128 = 0;
    let mut ok: usize = 0;
    let mut slow: usize = 0;
    let mut lat: Vec<u64> = Vec::new();
    let mut i: usize = 0;
    while i < n
        invariant
            n == batches@.len(),
            i <= n,
            txs == sum_by(batches@.take(i as int), transactions_of()),
            bytes == sum_by(batches@.take(i as int), proof_bytes_of()),
            compute == sum_by(batches@.take(i as int), compute_of()),
            exec == sum_by(batches@.take(i as int), execution_of()),
            overhead == sum_by(batches@.take(i as int), overhead_of()),
            ok == count_by(batches@.take(i as int), passed()),
            slow == count_by(batches@.take(i as int), violates(sla_latency_ms)),
            txs <= usize::MAX,
            bytes <= u64::MAX,
            compute <= u64::MAX,
            exec + overhead <= u64::MAX,
            ok <= i,
            slow <= i,
            lat@ == latencies(batches@.take(i as int)),
        decreases n - i,
    {
        let m = batches[i];
        let ghost prefix = batches@.take(i as int);
        assert(batches@.take(i as int + 1).drop_last() =~= prefix);
        assert(batches@.take(i as int + 1).last() == m);
        let txs2 = txs + m.batch_size as u128;
        let bytes2 = bytes + m.proof_size_bytes as u128;
        let compute2 = compute + m.total_compute_used as u128;
        let exec2 = exec + m.execution_time_ms as u128;
        let overhead2 = overhead + m.proving_time_ms as u128 + m.verification_time_ms as u128;
        if txs2 > usize::MAX as u128 || bytes2 > u64::MAX as u128 || compute2 > u64::MAX as u128
            || exec2 + overhead2 > u64::MAX as u128 {
            proof {
                lemma_prefix_le(batches@, transactions_of(), i + 1);
                lemma_prefix_le(batches@, proof_bytes_of(), i + 1);
                lemma_prefix_le(batches@, compute_of(), i + 1);
                lemma_prefix_le(batches@, execution_of(), i + 1);
                lemma_prefix_le(batches@, overhead_of(), i + 1);
            }
            return None;
        }
        txs = txs2;
        bytes = bytes2;
        compute = compute2;
        exec = exec2;
        overhead = overhead2;
        if m.verification_passed {
            ok = ok + 1;
        }
        if m.end_to_end_latency_ms > sla_latency_ms {
            slow = slow + 1;
        }
        lat.push(m.end_to_end_latency_ms);
        assert(lat@ =~= latencies(batches@.take(i as int + 1)));
        i = i + 1;
    }
    assert(batches@.take(n as int) =~= batches@);
    let sorted = sort_ascending(&lat);
    Some(
        MetricTotals {
            total_transactions: txs as usize,
            total_batches: n,
            total_proof_size_bytes: bytes as u64,
            total_compute_used: compute as u64,
            verification_successes: ok,
            sla_violations: slow,
            total_execution_ms: exec as u64,
            total_overhead_ms: overhead as u64,
            sorted_latencies_ms: sorted,
        },
    )
}

} // verus!
