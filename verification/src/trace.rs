//! Building execution traces with their hash commitments.
use vstd::prelude::*;
use crate::executor::{lemma_totals_push, success_count_of, total_compute_of};
use crate::hashing::{hash_trace_entry, merkle_root, spec_hash_trace_entry, spec_merkle_root};
use crate::state::{compute_state_root, spec_state_root, StateMap};
use crate::text::views;
use crate::types::{ExecutionTrace, TraceEntry, TransactionId};

verus! {

/// The hash of one trace entry, over what the trace commits to.
pub open spec fn entry_hash(e: TraceEntry) -> Seq<char> {
    spec_hash_trace_entry(
        e.tx_id.0@,
        e.success,
        e.compute_used,
        views(e.accounts_read@),
        views(e.accounts_written@),
    )
}

/// The trace hash: the Merkle root of the entry hashes in order.
pub open spec fn spec_trace_hash(entries: Seq<TraceEntry>) -> Seq<char> {
    spec_merkle_root(entries.map_values(|e: TraceEntry| entry_hash(e)))
}

/// The totals a builder holds after starting empty and adding `entries` one
/// after another: each addition adds its compute and counts one success or
/// one failure.
pub open spec fn accumulated(entries: Seq<TraceEntry>) -> (int, int, int)
    decreases entries.len(),
{
    if entries.len() == 0 {
        (0, 0, 0)
    } else {
        let p = accumulated(entries.drop_last());
        let e = entries.last();
        (
            p.0 + e.compute_used,
            p.1 + if e.success { 1int } else { 0int },
            p.2 + if e.success { 0int } else { 1int },
        )
    }
}

/// Over any sequence of additions, the accumulated totals are the totals of
/// the entries: the sum of their compute, the number that succeeded, and the
/// number that failed, which together with the successes is every entry.
pub proof fn law_builder_totals(entries: Seq<TraceEntry>)
    ensures
        accumulated(entries) == (
            total_compute_of(entries),
            success_count_of(entries),
            entries.len() - success_count_of(entries),
        ),
    decreases entries.len(),
{
    if entries.len() > 0 {
        law_builder_totals(entries.drop_last());
    }
}

/// Accumulates trace entries and totals for one batch.
#[derive(Debug)]
pub struct TraceBuilder {
    batch_id: String,
    entries: Vec<TraceEntry>,
    pre_state_root: String,
    total_compute: u64,
    success_count: usize,
    failure_count: usize,
}

impl TraceBuilder {
    pub closed spec fn spec_batch_id(&self) -> Seq<char> {
        self.batch_id@
    }

    pub closed spec fn spec_entries(&self) -> Seq<TraceEntry> {
        self.entries@
    }

    pub closed spec fn spec_pre_state_root(&self) -> Seq<char> {
        self.pre_state_root@
    }

    pub closed spec fn spec_total_compute(&self) -> u64 {
        self.total_compute
    }

    pub closed spec fn spec_success_count(&self) -> usize {
        self.success_count
    }

    pub closed spec fn spec_failure_count(&self) -> usize {
        self.failure_count
    }

    /// The totals agree with the entries: the compute is their sum, the
    /// successes are counted, and every other entry is a failure.
    pub open spec fn totals_agree(&self) -> bool {
        &&& self.spec_total_compute() == total_compute_of(self.spec_entries())
        &&& self.spec_success_count() == success_count_of(self.spec_entries())
        &&& self.spec_failure_count() == self.spec_entries().len() - success_count_of(self.spec_entries())
    }

    #[verifier::type_invariant]
    spec fn totals_kept(&self) -> bool {
        self.totals_agree()
    }

    /// A builder for batch `batch_id` starting from `initial_state`.
    pub fn new(batch_id: String, initial_state: &StateMap) -> (r: Self)
        ensures
            r.totals_agree(),
            r.spec_batch_id() == batch_id@,
            r.spec_entries().len() == 0,
            r.spec_pre_state_root() == spec_state_root(initial_state@),
            r.spec_total_compute() == 0,
            r.spec_success_count() == 0,
            r.spec_failure_count() == 0,
    {
        TraceBuilder {
            batch_id,
            entries: Vec::new(),
            pre_state_root: compute_state_root(initial_state),
            total_compute: 0,
            success_count: 0,
            failure_count: 0,
        }
    }

    /// Appends an entry and adds it to the totals.
    pub fn add_entry(
        &mut self,
        tx_idx: usize,
        tx_id: TransactionId,
        pre_state_hash: String,
        instruction: String,
        accounts_read: Vec<String>,
        accounts_written: Vec<String>,
        post_state_hash: String,
        compute_used: u64,
        success: bool,
        error: Option<String>,
    )
        requires
            old(self).spec_total_compute() + compute_used <= u64::MAX,
            success ==> old(self).spec_success_count() < usize::MAX,
            !success ==> old(self).spec_failure_count() < usize::MAX,
        ensures
            final(self).spec_entries() == old(self).spec_entries().push(
                TraceEntry {
                    tx_idx,
                    tx_id,
                    pre_state_hash,
                    instruction,
                    accounts_read,
                    accounts_written,
                    post_state_hash,
                    compute_used,
                    success,
                    error,
                },
            ),
            final(self).spec_batch_id() == old(self).spec_batch_id(),
            final(self).spec_pre_state_root() == old(self).spec_pre_state_root(),
            final(self).spec_total_compute() == old(self).spec_total_compute() + compute_used,
            final(self).spec_success_count() == old(self).spec_success_count() + (if success {
                1int
            } else {
                0int
            }),
            final(self).spec_failure_count() == old(self).spec_failure_count() + (if success {
                0int
            } else {
                1int
            }),
            final(self).totals_agree(),
    {
        proof {
            use_type_invariant(&*self);
        }
        let mut current = TraceBuilder {
            batch_id: String::new(),
            entries: Vec::new(),
            pre_state_root: String::new(),
            total_compute: 0,
            success_count: 0,
            failure_count: 0,
        };
        std::mem::swap(self, &mut current);
        let TraceBuilder { batch_id, mut entries, pre_state_root, total_compute, success_count, failure_count } =
            current;
        let ghost before = entries@;
        let (success_count, failure_count) = if success {
            (success_count + 1, failure_count)
        } else {
            (success_count, failure_count + 1)
        };
        entries.push(
            TraceEntry {
                tx_idx,
                tx_id,
                pre_state_hash,
                instruction,
                accounts_read,
                accounts_written,
                post_state_hash,
                compute_used,
                success,
                error,
            },
        );
        proof {
            lemma_totals_push(before, entries@.last());
            assert(entries@ == before.push(entries@.last()));
        }
        *self = TraceBuilder {
            batch_id,
            entries,
            pre_state_root,
            total_compute: total_compute + compute_used,
            success_count,
            failure_count,
        };
    }

    /// Finishes the trace against the final state: the post-state root and
    /// the trace hash are computed, the rest is carried over.
    pub fn build(self, final_state: &StateMap) -> (r: ExecutionTrace)
        ensures
            r.batch_id@ == self.spec_batch_id(),
            r.entries@ == self.spec_entries(),
            r.state_root_pre@ == self.spec_pre_state_root(),
            r.state_root_post@ == spec_state_root(final_state@),
            r.trace_hash@ == spec_trace_hash(self.spec_entries()),
            r.total_compute == self.spec_total_compute(),
            r.success_count == self.spec_success_count(),
            r.failure_count == self.spec_failure_count(),
            r.total_compute == total_compute_of(r.entries@),
            r.success_count == success_count_of(r.entries@),
            r.success_count + r.failure_count == r.entries@.len(),
    {
        proof {
            use_type_invariant(&self);
        }
        let post_state_root = compute_state_root(final_state);
        let ghost hs = self.entries@.map_values(|e: TraceEntry| entry_hash(e));
        let mut entry_hashes: Vec<String> = Vec::new();
        let mut i: usize = 0;
        while i < self.entries.len()
            invariant
                i <= self.entries@.len(),
                hs == self.entries@.map_values(|e: TraceEntry| entry_hash(e)),
                entry_hashes@.len() == i,
                forall|j: int| 0 <= j < i ==> #[trigger] entry_hashes@[j]@ == hs[j],
            decreases self.entries@.len() - i,
        {
            let e = &self.entries[i];
            let h = hash_trace_entry(
                e.tx_id.as_str(),
                e.success,
                e.compute_used,
                &e.accounts_read,
                &e.accounts_written,
            );
            entry_hashes.push(h);
            i = i + 1;
        }
        assert(views(entry_hashes@) =~= hs);
        let trace_hash = merkle_root(entry_hashes.as_slice());
        ExecutionTrace {
            batch_id: self.batch_id,
            entries: self.entries,
            state_root_pre: self.pre_state_root,
            state_root_post: post_state_root,
            trace_hash,
            total_compute: self.total_compute,
            success_count: self.success_count,
            failure_count: self.failure_count,
        }
    }
}

} // verus!
