//! The pipeline's queueing decisions: routing arrivals to the regular queue
//! or the priority lane, the inputs a policy decides on, and forming a
//! batch when it seals. Running the batch (execution, proving, verification,
//! metrics) is left to the caller.
use vstd::prelude::*;
use vstd::string::*;
use crate::policy::ArrivalRate;
use crate::text::{decimal_padded, decimal_string_padded};
use crate::types::{Batch, BatchStatus, SealReason, Transaction, TransactionId, TransactionPriority};

verus! {

/// Settings of a pipeline run.
#[derive(Debug, Clone)]
pub struct PipelineConfig {
    pub batch_interval_ms: u64,
    pub sla_latency_ms: u64,
}

/// Transactions waiting to be sealed: a priority lane for high and critical
/// transactions and a regular queue for the rest, both first in first out.
#[derive(Debug)]
pub struct BatchQueue {
    queue: Vec<Transaction>,
    priority_lane: Vec<Transaction>,
    batch_counter: u64,
    oldest_arrival: u64,
    last_seal_time: u64,
}

/// Whether a transaction goes to the priority lane.
pub open spec fn is_urgent(p: TransactionPriority) -> bool {
    p.spec_rank() >= TransactionPriority::High.spec_rank()
}

/// The identifier of the `n`-th batch: `batch_` and `n` with at least six digits.
pub open spec fn batch_name(n: u64) -> Seq<char> {
    "batch_"@ + decimal_padded(n as nat, 6)
}

impl BatchQueue {
    pub closed spec fn spec_queue(&self) -> Seq<Transaction> {
        self.queue@
    }

    pub closed spec fn spec_priority_lane(&self) -> Seq<Transaction> {
        self.priority_lane@
    }

    pub closed spec fn spec_batch_counter(&self) -> u64 {
        self.batch_counter
    }

    pub closed spec fn spec_oldest_arrival(&self) -> u64 {
        self.oldest_arrival
    }

    pub closed spec fn spec_last_seal_time(&self) -> u64 {
        self.last_seal_time
    }

    /// Empty lanes, no batch sealed yet.
    pub fn new() -> (r: Self)
        ensures
            r.spec_queue().len() == 0,
            r.spec_priority_lane().len() == 0,
            r.spec_batch_counter() == 0,
            r.spec_oldest_arrival() == 0,
            r.spec_last_seal_time() == 0,
    {
        BatchQueue {
            queue: Vec::new(),
            priority_lane: Vec::new(),
            batch_counter: 0,
            oldest_arrival: 0,
            last_seal_time: 0,
        }
    }

    /// The number of waiting transactions.
    pub fn len(&self) -> (r: usize)
        requires
            self.spec_queue().len() + self.spec_priority_lane().len() <= usize::MAX,
        ensures
            r == self.spec_queue().len() + self.spec_priority_lane().len(),
    {
        self.queue.len() + self.priority_lane.len()
    }

    /// How many wait in the regular queue and in the priority lane.
    pub fn lane_lengths(&self) -> (r: (usize, usize))
        ensures
            r.0 == self.spec_queue().len(),
            r.1 == self.spec_priority_lane().len(),
    {
        (self.queue.len(), self.priority_lane.len())
    }

    /// How many batches have been sealed.
    pub fn batches_sealed(&self) -> (r: u64)
        ensures
            r == self.spec_batch_counter(),
    {
        self.batch_counter
    }

    /// Whether nothing is waiting.
    pub fn is_empty(&self) -> (r: bool)
        ensures
            r == (self.spec_queue().len() == 0 && self.spec_priority_lane().len() == 0),
    {
        self.queue.len() == 0 && self.priority_lane.len() == 0
    }

    /// Queues an arrival: high and critical transactions go to the priority
    /// lane, the rest to the regular queue; the first arrival into empty
    /// lanes becomes the oldest.
    pub fn enqueue(&mut self, tx: Transaction)
        ensures
            is_urgent(tx.priority) ==> final(self).spec_priority_lane() == old(self).spec_priority_lane().push(tx)
                && final(self).spec_queue() == old(self).spec_queue(),
            !is_urgent(tx.priority) ==> final(self).spec_queue() == old(self).spec_queue().push(tx)
                && final(self).spec_priority_lane() == old(self).spec_priority_lane(),
            final(self).spec_oldest_arrival() == (if old(self).spec_queue().len() == 0
                && old(self).spec_priority_lane().len() == 0 {
                tx.arrival_ts
            } else {
                old(self).spec_oldest_arrival()
            }),
            final(self).spec_batch_counter() == old(self).spec_batch_counter(),
            final(self).spec_last_seal_time() == old(self).spec_last_seal_time(),
    {
        if self.queue.len() == 0 && self.priority_lane.len() == 0 {
            self.oldest_arrival = tx.arrival_ts;
        }
        if tx.priority.rank() >= TransactionPriority::High.rank() {
            self.priority_lane.push(tx);
        } else {
            self.queue.push(tx);
        }
    }

    /// What the policy decides on at time `now`: the number waiting, how long
    /// the oldest has waited, and the arrival rate since the last seal (over
    /// at least one millisecond).
    pub fn seal_inputs(&self, now: u64) -> (r: (usize, u64, ArrivalRate))
        requires
            self.spec_queue().len() + self.spec_priority_lane().len() <= usize::MAX,
        ensures
            r.0 == self.spec_queue().len() + self.spec_priority_lane().len(),
            r.1 == (if now >= self.spec_oldest_arrival() {
                now - self.spec_oldest_arrival()
            } else {
                0
            }),
            r.2.arrivals == r.0,
            r.2.window_ms == (if now > self.spec_last_seal_time() {
                now - self.spec_last_seal_time()
            } else {
                1
            }),
    {
        let total = self.queue.len() + self.priority_lane.len();
        let oldest_wait = now.saturating_sub(self.oldest_arrival);
        let since = now.saturating_sub(self.last_seal_time);
        let window = if since < 1 { 1 } else { since };
        (total, oldest_wait, ArrivalRate { arrivals: total as u64, window_ms: window })
    }

    /// Seals everything waiting into the next batch at time `now`: the
    /// priority lane first, then the regular queue, each in arrival order.
    /// Nothing is sealed when nothing waits.
    pub fn take_batch(&mut self, now: u64) -> (r: Option<(Batch, Vec<Transaction>)>)
        requires
            old(self).spec_queue().len() + old(self).spec_priority_lane().len() > 0 ==> old(
                self,
            ).spec_batch_counter() < u64::MAX,
        ensures
            old(self).spec_queue().len() + old(self).spec_priority_lane().len() == 0 ==> r is None
                && final(self).spec_batch_counter() == old(self).spec_batch_counter(),
            old(self).spec_queue().len() + old(self).spec_priority_lane().len() > 0 ==> (r matches Some(
                (batch, txs),
            ) && txs@ == old(self).spec_priority_lane() + old(self).spec_queue()
                && final(self).spec_batch_counter() == old(self).spec_batch_counter() + 1
                && batch.batch_id@ == batch_name(final(self).spec_batch_counter())
                && batch.tx_ids@.len() == txs@.len() && (forall|i: int|
                0 <= i < txs@.len() ==> (#[trigger] batch.tx_ids@[i]).0@ == txs@[i].tx_id.0@)
                && batch.start_ts == now && batch.seal_ts == now && batch.reason_sealed
                == SealReason::Adaptive && batch.batch_hash@.len() == 0 && batch.trace_hash is None
                && batch.proof_hash is None && batch.status == BatchStatus::Pending && batch.total_cu == 0),
            final(self).spec_queue().len() == 0,
            final(self).spec_priority_lane().len() == 0,
            final(self).spec_oldest_arrival() == old(self).spec_oldest_arrival(),
            final(self).spec_last_seal_time() == old(self).spec_last_seal_time(),
    {
        let mut transactions: Vec<Transaction> = Vec::new();
        std::mem::swap(&mut transactions, &mut self.priority_lane);
        let mut regular: Vec<Transaction> = Vec::new();
        std::mem::swap(&mut regular, &mut self.queue);
        transactions.append(&mut regular);
        if transactions.len() == 0 {
            return None;
        }
        self.batch_counter = self.batch_counter + 1;
        let mut batch_id = String::new();
        batch_id.append("batch_");
        batch_id.append(decimal_string_padded(self.batch_counter, 6).as_str());
        let mut tx_ids: Vec<TransactionId> = Vec::new();
        let mut i: usize = 0;
        while i < transactions.len()
            invariant
                i <= transactions@.len(),
                tx_ids@.len() == i,
                forall|j: int| 0 <= j < i ==> (#[trigger] tx_ids@[j]).0@ == transactions@[j].tx_id.0@,
            decreases transactions@.len() - i,
        {
            tx_ids.push(transactions[i].tx_id.duplicate());
            i = i + 1;
        }
        let mut batch = Batch::new(batch_id.as_str(), now);
        batch.tx_ids = tx_ids;
        batch.seal_ts = now;
        batch.reason_sealed = SealReason::Adaptive;
        Some((batch, transactions))
    }

    /// Records that a batch finished at `batch_end`; if anything arrived
    /// meanwhile, the first waiting transaction (regular queue before priority
    /// lane) becomes the oldest.
    pub fn finish_batch(&mut self, batch_end: u64)
        ensures
            final(self).spec_last_seal_time() == batch_end,
            final(self).spec_oldest_arrival() == (if old(self).spec_queue().len() > 0 {
                old(self).spec_queue()[0].arrival_ts
            } else if old(self).spec_priority_lane().len() > 0 {
                old(self).spec_priority_lane()[0].arrival_ts
            } else {
                old(self).spec_oldest_arrival()
            }),
            final(self).spec_queue() == old(self).spec_queue(),
            final(self).spec_priority_lane() == old(self).spec_priority_lane(),
            final(self).spec_batch_counter() == old(self).spec_batch_counter(),
    {
        self.last_seal_time = batch_end;
        if self.queue.len() > 0 {
            self.oldest_arrival = self.queue[0].arrival_ts;
        } else if self.priority_lane.len() > 0 {
            self.oldest_arrival = self.priority_lane[0].arrival_ts;
        }
    }
}

} // verus!
