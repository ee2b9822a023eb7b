//! Seeded synthetic workloads: the gap before each arrival and its priority
//! for every scenario drawn from a gap distribution by ranges (the
//! exponential gaps of the Poisson scenario are drawn by the caller), and
//! the fields of each generated transaction. Draws come from `rand`'s
//! seeded `StdRng`, so a seed fixes the workload.
use vstd::prelude::*;
use rand::rngs::StdRng;
use rand::Rng;
use crate::ingress::{
    build_transaction, compose_instruction, compute_range, priority_for_draw, spec_compute_range,
    spec_instruction, spec_priority_for_draw, spec_spike_phase, spec_steady_delta, spike_phase,
    steady_delta, Scenario, SpikePhase,
};
use crate::text::{decimal, decimal_padded};
use crate::types::{Transaction, TransactionPriority};

verus! {

#[verifier::external_type_specification]
#[verifier::external_body]
pub struct ExStdRng(StdRng);

/// `Rng::gen_range` over `lo..hi` for `u64`: a value in the range; it
/// panics on an empty range, which `requires` leaves out.
#[verifier::external_body]
fn draw_u64(rng: &mut StdRng, lo: u64, hi: u64) -> (r: u64)
    requires
        lo < hi,
    ensures
        lo <= r < hi,
{
    rng.gen_range(lo..hi)
}

/// `Rng::gen_range` over `lo..hi` for `i32`: a value in the range; it
/// panics on an empty range, which `requires` leaves out.
#[verifier::external_body]
fn draw_i32(rng: &mut StdRng, lo: i32, hi: i32) -> (r: i32)
    requires
        lo < hi,
    ensures
        lo <= r < hi,
{
    rng.gen_range(lo..hi)
}

/// `Rng::gen_range` over `lo..hi` for `u8`: a value in the range; it
/// panics on an empty range, which `requires` leaves out.
#[verifier::external_body]
fn draw_u8(rng: &mut StdRng, lo: u8, hi: u8) -> (r: u8)
    requires
        lo < hi,
    ensures
        lo <= r < hi,
{
    rng.gen_range(lo..hi)
}

/// `Rng::gen::<u64>`: any `u64`; nothing is promised of the value.
#[verifier::external_body]
fn draw_any_u64(rng: &mut StdRng) -> (r: u64) {
    rng.gen::<u64>()
}

/// `Rng::gen_ratio`: `true` with probability `numerator / denominator`;
/// always `false` for a zero numerator and always `true` when numerator and
/// denominator are equal. It panics when the numerator exceeds the
/// denominator or the denominator is zero, which `requires` leaves out.
#[verifier::external_body]
fn draw_ratio(rng: &mut StdRng, numerator: u32, denominator: u32) -> (r: bool)
    requires
        0 < denominator,
        numerator <= denominator,
    ensures
        numerator == 0 ==> !r,
        numerator == denominator ==> r,
{
    rng.gen_ratio(numerator, denominator)
}

/// The gaps and priorities a scenario can produce for the arrival after
/// `generated` of `total` transactions: steady gaps are the base interval
/// with a jitter of -5 to +4 ms; bursty gaps are 1 to 4 ms (a burst, one
/// time in five) or 50 to 199 ms; mixed-priority gaps are 5 to 49 ms with a
/// priority drawn by weight; idle-then-spike gaps are 100 to 499 ms (low
/// priority) in the first 30%, 1 to 4 ms (high) up to 70%, then 20 to 99 ms
/// (normal). All priorities not named are normal.
pub open spec fn arrival_possible(
    scenario: Scenario,
    generated: u64,
    total: u64,
    base_interval_ms: u64,
    gap: u64,
    priority: TransactionPriority,
) -> bool {
    match scenario {
        Scenario::Steady => priority == TransactionPriority::Normal && exists|d: u64|
            d < 10 && gap == #[trigger] spec_steady_delta(base_interval_ms, d),
        Scenario::Bursty => priority == TransactionPriority::Normal && ((1 <= gap < 5) || (50 <= gap
            < 200)),
        Scenario::MixedPriority => 5 <= gap < 50 && exists|d: u64|
            d < 100 && priority == #[trigger] spec_priority_for_draw(d),
        Scenario::IdleThenSpike => match spec_spike_phase(generated, total) {
            SpikePhase::Idle => 100 <= gap < 500 && priority == TransactionPriority::Low,
            SpikePhase::Spike => 1 <= gap < 5 && priority == TransactionPriority::High,
            SpikePhase::CoolDown => 20 <= gap < 100 && priority == TransactionPriority::Normal,
        },
        Scenario::Poisson => false,
    }
}

/// The bursty scenario's gap once it is known whether this arrival is part
/// of a burst (one time in five): 1 to 4 ms in a burst, 50 to 199 ms
/// otherwise.
pub fn bursty_gap(rng: &mut StdRng, is_burst: bool) -> (r: u64)
    ensures
        is_burst ==> 1 <= r < 5,
        !is_burst ==> 50 <= r < 200,
{
    if is_burst {
        draw_u64(rng, 1, 5)
    } else {
        draw_u64(rng, 50, 200)
    }
}

/// Draws the gap before the next arrival and its priority, for every
/// scenario but Poisson (whose exponential gaps are drawn by the caller).
pub fn compute_arrival(
    rng: &mut StdRng,
    scenario: Scenario,
    generated: u64,
    total: u64,
    base_interval_ms: u64,
) -> (r: (u64, TransactionPriority))
    requires
        scenario != Scenario::Poisson,
    ensures
        arrival_possible(scenario, generated, total, base_interval_ms, r.0, r.1),
{
    match scenario {
        Scenario::Steady => {
            let draw = draw_i32(rng, 0, 10);
            let gap = steady_delta(base_interval_ms, draw as u64);
            assert(gap == spec_steady_delta(base_interval_ms, draw as u64));
            (gap, TransactionPriority::Normal)
        },
        Scenario::Bursty => {
            let is_burst = draw_ratio(rng, 1, 5);
            (bursty_gap(rng, is_burst), TransactionPriority::Normal)
        },
        Scenario::MixedPriority => {
            let gap = draw_u64(rng, 5, 50);
            let draw = draw_i32(rng, 0, 100);
            let priority = priority_for_draw(draw as u64);
            assert(priority == spec_priority_for_draw(draw as u64));
            (gap, priority)
        },
        Scenario::IdleThenSpike => {
            match spike_phase(generated, total) {
                SpikePhase::Idle => (draw_u64(rng, 100, 500), TransactionPriority::Low),
                SpikePhase::Spike => (draw_u64(rng, 1, 5), TransactionPriority::High),
                SpikePhase::CoolDown => (draw_u64(rng, 20, 100), TransactionPriority::Normal),
            }
        },
        Scenario::Poisson => {
            assert(false);
            (1, TransactionPriority::Normal)
        },
    }
}

/// Operands a generated instruction can carry: a transfer moves 1 to 999
/// to one of accounts 0 to 99; set-data writes any value to one of slots 0
/// to 49; increment adds 1 to 99 to one of slots 0 to 49; no-ops and
/// invalid opcodes (4) carry nothing.
pub open spec fn operands_possible(opcode: u8, first: u64, second: u64) -> bool {
    if opcode == 0 {
        1 <= first < 1000 && second < 100
    } else if opcode == 1 {
        first < 50
    } else if opcode == 2 {
        first < 50 && 1 <= second < 100
    } else {
        first == 0 && second == 0
    }
}

/// The instruction bytes a generated transaction can carry: an opcode from
/// 0 to 4 with operands it can carry.
pub open spec fn instruction_possible(data: Seq<u8>) -> bool {
    exists|opcode: u8, first: u64, second: u64|
        opcode < 5 && operands_possible(opcode, first, second) && data == #[trigger] spec_instruction(
            opcode,
            first,
            second,
        )
}

/// Draws the instruction of a generated transaction.
pub fn generate_instruction(rng: &mut StdRng) -> (r: Vec<u8>)
    ensures
        instruction_possible(r@),
{
    let opcode = draw_u8(rng, 0, 5);
    let (first, second): (u64, u64) = if opcode == 0 {
        let amount = draw_u64(rng, 1, 1000);
        let target = draw_u64(rng, 0, 100);
        (amount, target)
    } else if opcode == 1 {
        let key = draw_u64(rng, 0, 50);
        let value = draw_any_u64(rng);
        (key, value)
    } else if opcode == 2 {
        let key = draw_u64(rng, 0, 50);
        let delta = draw_u64(rng, 1, 100);
        (key, delta)
    } else {
        (0, 0)
    };
    let data = compose_instruction(opcode, first, second);
    assert(operands_possible(opcode, first, second));
    assert(data@ == spec_instruction(opcode, first, second));
    data
}

/// A transaction the workload can generate as its `index`-th, arriving at
/// `arrival_ts` with `priority`: identifier `tx_<index>`, a sender among
/// `sender_0` to `sender_99`, a program among `program_0` to `program_4`, a
/// compute estimate in the priority's range, and a generated instruction.
pub open spec fn transaction_possible(
    tx: Transaction,
    index: u64,
    arrival_ts: u64,
    priority: TransactionPriority,
) -> bool {
    &&& tx.tx_id.0@ == "tx_"@ + decimal_padded(index as nat, 6)
    &&& tx.arrival_ts == arrival_ts
    &&& exists|k: u64| k < 100 && tx.sender@ == "sender_"@ + #[trigger] decimal(k as nat)
    &&& exists|k: u64| k < 5 && tx.program_id@ == "program_"@ + #[trigger] decimal(k as nat)
    &&& spec_compute_range(priority).0 <= tx.estimated_cu < spec_compute_range(priority).1
    &&& instruction_possible(tx.instruction_data@)
    &&& tx.priority == priority
    &&& tx.accounts@.len() == 0
    &&& tx.deadline_ms is None
}

/// Draws the `index`-th transaction of a workload, arriving at `arrival_ts`
/// with `priority`.
pub fn draw_transaction(
    rng: &mut StdRng,
    index: u64,
    arrival_ts: u64,
    priority: TransactionPriority,
) -> (r: Transaction)
    ensures
        transaction_possible(r, index, arrival_ts, priority),
{
    let sender_idx = draw_i32(rng, 0, 100);
    let program_idx = draw_i32(rng, 0, 5);
    let (low, high) = compute_range(priority);
    let estimated_cu = draw_u64(rng, low, high);
    let instruction_data = generate_instruction(rng);
    let s = sender_idx as u64;
    let p = program_idx as u64;
    let tx = build_transaction(index, arrival_ts, s, p, instruction_data, estimated_cu, priority);
    assert(tx.sender@ == "sender_"@ + decimal(s as nat));
    assert(tx.program_id@ == "program_"@ + decimal(p as nat));
    tx
}

/// `a + b` modulo 2^64.
pub open spec fn wrapping_sum(a: u64, b: u64) -> u64 {
    ((a + b) % 0x1_0000_0000_0000_0000int) as u64
}

fn add_wrapping(a: u64, b: u64) -> (r: u64)
    ensures
        r == wrapping_sum(a, b),
{
    if b <= u64::MAX - a {
        a + b
    } else {
        b - (u64::MAX - a) - 1
    }
}

/// Where a workload stands: its scenario, how many transactions it makes in
/// all, the base arrival interval, the time of the latest arrival, and how
/// many have been made.
#[derive(Debug, Clone, Copy)]
pub struct WorkloadCursor {
    pub scenario: Scenario,
    pub tx_count: usize,
    pub base_interval_ms: u64,
    pub current_time_ms: u64,
    pub generated: usize,
}

impl WorkloadCursor {
    /// A workload of `tx_count` transactions that has made none, at time 0.
    pub fn new(scenario: Scenario, tx_count: usize, base_interval_ms: u64) -> (r: Self)
        ensures
            r.scenario == scenario,
            r.tx_count == tx_count,
            r.base_interval_ms == base_interval_ms,
            r.current_time_ms == 0,
            r.generated == 0,
    {
        WorkloadCursor { scenario, tx_count, base_interval_ms, current_time_ms: 0, generated: 0 }
    }

    /// How many transactions are still to come.
    pub fn remaining(&self) -> (r: usize)
        ensures
            r == (if self.generated <= self.tx_count { self.tx_count - self.generated } else { 0 }),
    {
        self.tx_count.saturating_sub(self.generated)
    }

    /// The next transaction, arriving `gap_ms` after the latest (time wraps
    /// modulo 2^64) with `priority`; nothing once all have been made.
    pub fn next_after_gap(&mut self, rng: &mut StdRng, gap_ms: u64, priority: TransactionPriority) -> (r:
        Option<Transaction>)
        ensures
            old(self).generated >= old(self).tx_count ==> r is None && *final(self) == *old(self),
            old(self).generated < old(self).tx_count ==> (r matches Some(tx) && final(self).generated
                == old(self).generated + 1 && final(self).current_time_ms == wrapping_sum(
                old(self).current_time_ms,
                gap_ms,
            ) && transaction_possible(tx, old(self).generated as u64, final(self).current_time_ms, priority)
                && final(self).scenario == old(self).scenario && final(self).tx_count == old(self).tx_count
                && final(self).base_interval_ms == old(self).base_interval_ms),
    {
        if self.generated >= self.tx_count {
            return None;
        }
        self.current_time_ms = add_wrapping(self.current_time_ms, gap_ms);
        let index = self.generated as u64;
        self.generated = self.generated + 1;
        Some(draw_transaction(rng, index, self.current_time_ms, priority))
    }

    /// The next transaction of a scenario whose gaps are drawn by ranges
    /// (every scenario but Poisson): its gap and priority are drawn, then
    /// the transaction; nothing, and no draw, once all have been made.
    pub fn next(&mut self, rng: &mut StdRng) -> (r: Option<Transaction>)
        requires
            old(self).scenario != Scenario::Poisson,
        ensures
            old(self).generated >= old(self).tx_count ==> r is None && *final(self) == *old(self),
            old(self).generated < old(self).tx_count ==> (r matches Some(tx) && final(self).generated
                == old(self).generated + 1 && (exists|gap: u64, priority: TransactionPriority|
                #[trigger] arrival_possible(
                    old(self).scenario,
                    old(self).generated as u64,
                    old(self).tx_count as u64,
                    old(self).base_interval_ms,
                    gap,
                    priority,
                ) && final(self).current_time_ms == wrapping_sum(old(self).current_time_ms, gap)
                    && transaction_possible(tx, old(self).generated as u64, final(self).current_time_ms, priority))
                && final(self).scenario == old(self).scenario && final(self).tx_count == old(self).tx_count
                && final(self).base_interval_ms == old(self).base_interval_ms),
    {
        if self.generated >= self.tx_count {
            return None;
        }
        let (gap, priority) = compute_arrival(
            rng,
            self.scenario,
            self.generated as u64,
            self.tx_count as u64,
            self.base_interval_ms,
        );
        self.next_after_gap(rng, gap, priority)
    }
}

} // verus!
