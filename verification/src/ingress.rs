//! Ingress: validation of incoming transactions, workload scenarios, and the
//! deterministic parts of synthetic workload generation.
use vstd::prelude::*;
use vstd::string::*;
use vstd::bytes::{spec_u64_to_le_bytes, u64_to_le_bytes};
use crate::errors::IngressError;
use crate::policy::{is_text, lowercase, to_lowercase};
use crate::text::{decimal, decimal_padded, decimal_string, decimal_string_padded};
use crate::types::{Transaction, TransactionId, TransactionPriority};

verus! {

/// The largest compute budget a transaction may request.
pub const MAX_COMPUTE_BUDGET: u64 = 1_400_000;

/// Rejects a transaction with an empty sender, an empty program id, no
/// instruction data, or a compute estimate above the budget (checked in
/// that order).
pub fn validate(tx: &Transaction) -> (r: Result<(), IngressError>)
    ensures
        tx.sender@.len() == 0 ==> (r matches Err(IngressError::InvalidSender(m)) && m@ == "empty sender"@),
        tx.sender@.len() != 0 && tx.program_id@.len() == 0 ==> (r matches Err(
            IngressError::InvalidProgram(m),
        ) && m@ == "empty program_id"@),
        tx.sender@.len() != 0 && tx.program_id@.len() != 0 && tx.instruction_data@.len() == 0 ==> r
            matches Err(IngressError::EmptyInstruction),
        tx.sender@.len() != 0 && tx.program_id@.len() != 0 && tx.instruction_data@.len() != 0
            && tx.estimated_cu > MAX_COMPUTE_BUDGET ==> (r matches Err(
            IngressError::ComputeBudgetExceeded { requested, max },
        ) && requested == tx.estimated_cu && max == MAX_COMPUTE_BUDGET),
        r is Ok <==> (tx.sender@.len() != 0 && tx.program_id@.len() != 0
            && tx.instruction_data@.len() != 0 && tx.estimated_cu <= MAX_COMPUTE_BUDGET),
{
    if tx.sender.as_str().is_empty() {
        return Err(IngressError::InvalidSender("empty sender".to_string()));
    }
    if tx.program_id.as_str().is_empty() {
        return Err(IngressError::InvalidProgram("empty program_id".to_string()));
    }
    if tx.instruction_data.len() == 0 {
        return Err(IngressError::EmptyInstruction);
    }
    if tx.estimated_cu > MAX_COMPUTE_BUDGET {
        return Err(
            IngressError::ComputeBudgetExceeded { requested: tx.estimated_cu, max: MAX_COMPUTE_BUDGET },
        );
    }
    Ok(())
}

/// Workload scenarios for benchmarking.
#[derive(Debug, Clone, Copy, PartialEq, Eq, Hash)]
pub enum Scenario {
    Steady,
    Bursty,
    Poisson,
    MixedPriority,
    IdleThenSpike,
}

impl Scenario {
    pub open spec fn spec_name(self) -> Seq<char> {
        match self {
            Scenario::Steady => "steady"@,
            Scenario::Bursty => "bursty"@,
            Scenario::Poisson => "poisson"@,
            Scenario::MixedPriority => "mixed_priority"@,
            Scenario::IdleThenSpike => "idle_then_spike"@,
        }
    }

    /// The scenario's name in snake case.
    pub fn name(&self) -> (r: &'static str)
        ensures
            r@ == self.spec_name(),
    {
        match self {
            Scenario::Steady => "steady",
            Scenario::Bursty => "bursty",
            Scenario::Poisson => "poisson",
            Scenario::MixedPriority => "mixed_priority",
            Scenario::IdleThenSpike => "idle_then_spike",
        }
    }

    /// Every scenario, in declaration order.
    pub fn all() -> (r: Vec<Scenario>)
        ensures
            r@ == seq![
                Scenario::Steady,
                Scenario::Bursty,
                Scenario::Poisson,
                Scenario::MixedPriority,
                Scenario::IdleThenSpike,
            ],
    {
        let mut v: Vec<Scenario> = Vec::new();
        v.push(Scenario::Steady);
        v.push(Scenario::Bursty);
        v.push(Scenario::Poisson);
        v.push(Scenario::MixedPriority);
        v.push(Scenario::IdleThenSpike);
        assert(v@ =~= seq![
            Scenario::Steady,
            Scenario::Bursty,
            Scenario::Poisson,
            Scenario::MixedPriority,
            Scenario::IdleThenSpike,
        ]);
        v
    }

    /// The scenario a name selects, ignoring case; an unknown name is an
    /// error quoting the name as given.
    pub fn from_name(s: &str) -> (r: Result<Scenario, String>)
        ensures
            match spec_scenario_for(lowercase(s@)) {
                Some(sc) => r == Ok::<Scenario, String>(sc),
                None => r matches Err(m) && m@ == "unknown scenario: "@ + s@,
            },
    {
        let lower = to_lowercase(s);
        match scenario_for_lowercase(lower.as_str()) {
            Some(sc) => Ok(sc),
            None => {
                let mut m = String::new();
                m.append("unknown scenario: ");
                m.append(s);
                Err(m)
            },
        }
    }
}

/// The scenario an already lowercased name selects.
pub open spec fn spec_scenario_for(lower: Seq<char>) -> Option<Scenario> {
    if lower == "steady"@ {
        Some(Scenario::Steady)
    } else if lower == "bursty"@ {
        Some(Scenario::Bursty)
    } else if lower == "poisson"@ {
        Some(Scenario::Poisson)
    } else if lower == "mixed_priority"@ || lower == "mixedpriority"@ {
        Some(Scenario::MixedPriority)
    } else if lower == "idle_then_spike"@ || lower == "idlethenspike"@ {
        Some(Scenario::IdleThenSpike)
    } else {
        None
    }
}

/// The scenario an already lowercased name selects.
pub fn scenario_for_lowercase(lower: &str) -> (r: Option<Scenario>)
    ensures
        r == spec_scenario_for(lower@),
{
    if is_text(lower, "steady") {
        Some(Scenario::Steady)
    } else if is_text(lower, "bursty") {
        Some(Scenario::Bursty)
    } else if is_text(lower, "poisson") {
        Some(Scenario::Poisson)
    } else if is_text(lower, "mixed_priority") || is_text(lower, "mixedpriority") {
        Some(Scenario::MixedPriority)
    } else if is_text(lower, "idle_then_spike") || is_text(lower, "idlethenspike") {
        Some(Scenario::IdleThenSpike)
    } else {
        None
    }
}

impl std::str::FromStr for Scenario {
    type Err = String;

    /// The scenario a name selects, ignoring case, as [`Scenario::from_name`].
    fn from_str(s: &str) -> (r: Result<Scenario, String>)
        ensures
            match spec_scenario_for(lowercase(s@)) {
                Some(sc) => r == Ok::<Scenario, String>(sc),
                None => r matches Err(m) && m@ == "unknown scenario: "@ + s@,
            },
    {
        Scenario::from_name(s)
    }
}

/// The identifier of the `index`-th generated transaction: `tx_` and the
/// index with at least six digits.
pub fn generated_tx_id(index: u64) -> (r: TransactionId)
    ensures
        r.0@ == "tx_"@ + decimal_padded(index as nat, 6),
{
    let mut s = String::new();
    s.append("tx_");
    s.append(decimal_string_padded(index, 6).as_str());
    TransactionId(s)
}

/// `prefix` followed by `n` in decimal.
pub fn numbered(prefix: &str, n: u64) -> (r: String)
    ensures
        r@ == prefix@ + decimal(n as nat),
{
    let mut s = String::new();
    s.append(prefix);
    s.append(decimal_string(n).as_str());
    s
}

/// The instruction bytes of a generated transaction: opcodes 0 to 2 carry
/// two little-endian operands, 3 (no-op) carries none, and any other opcode
/// carries eight `0xFF` bytes.
pub open spec fn spec_instruction(opcode: u8, first: u64, second: u64) -> Seq<u8> {
    if opcode <= 2 {
        seq![opcode] + spec_u64_to_le_bytes(first) + spec_u64_to_le_bytes(second)
    } else if opcode == 3 {
        seq![opcode]
    } else {
        seq![opcode] + Seq::new(8, |i: int| 0xFFu8)
    }
}

/// Encodes an instruction from its opcode and operands.
pub fn compose_instruction(opcode: u8, first: u64, second: u64) -> (r: Vec<u8>)
    ensures
        r@ == spec_instruction(opcode, first, second),
{
    let mut data: Vec<u8> = Vec::new();
    data.push(opcode);
    if opcode <= 2 {
        let a = u64_to_le_bytes(first);
        let b = u64_to_le_bytes(second);
        let mut i: usize = 0;
        while i < 8
            invariant
                i <= 8,
                a@.len() == 8,
                data@ == seq![opcode] + a@.take(i as int),
            decreases 8 - i,
        {
            data.push(a[i]);
            assert(data@ =~= seq![opcode] + a@.take(i + 1));
            i = i + 1;
        }
        assert(a@.take(8) =~= a@);
        let mut j: usize = 0;
        while j < 8
            invariant
                j <= 8,
                a@.len() == 8,
                b@.len() == 8,
                data@ == seq![opcode] + a@ + b@.take(j as int),
            decreases 8 - j,
        {
            data.push(b[j]);
            assert(data@ =~= seq![opcode] + a@ + b@.take(j + 1));
            j = j + 1;
        }
        assert(b@.take(8) =~= b@);
    } else if opcode != 3 {
        let mut k: usize = 0;
        while k < 8
            invariant
                k <= 8,
                data@ == seq![opcode] + Seq::new(k as nat, |i: int| 0xFFu8),
            decreases 8 - k,
        {
            data.push(0xFFu8);
            assert(data@ =~= seq![opcode] + Seq::new((k + 1) as nat, |i: int| 0xFFu8));
            k = k + 1;
        }
    } else {
        assert(data@ =~= seq![opcode]);
    }
    data
}

/// The priority a draw in `0..100` selects in the mixed-priority scenario:
/// 0 to 5 critical, 6 to 20 high, 21 to 70 normal, the rest low.
pub open spec fn spec_priority_for_draw(d: u64) -> TransactionPriority {
    if d <= 5 {
        TransactionPriority::Critical
    } else if d <= 20 {
        TransactionPriority::High
    } else if d <= 70 {
        TransactionPriority::Normal
    } else {
        TransactionPriority::Low
    }
}

pub fn priority_for_draw(d: u64) -> (r: TransactionPriority)
    ensures
        r == spec_priority_for_draw(d),
{
    if d <= 5 {
        TransactionPriority::Critical
    } else if d <= 20 {
        TransactionPriority::High
    } else if d <= 70 {
        TransactionPriority::Normal
    } else {
        TransactionPriority::Low
    }
}

/// The half-open range a priority's compute estimate is drawn from.
pub open spec fn spec_compute_range(p: TransactionPriority) -> (u64, u64) {
    match p {
        TransactionPriority::Critical => (100_000, 200_000),
        TransactionPriority::High => (50_000, 150_000),
        TransactionPriority::Normal => (10_000, 100_000),
        TransactionPriority::Low => (5_000, 50_000),
    }
}

pub fn compute_range(p: TransactionPriority) -> (r: (u64, u64))
    ensures
        r == spec_compute_range(p),
{
    match p {
        TransactionPriority::Critical => (100_000, 200_000),
        TransactionPriority::High => (50_000, 150_000),
        TransactionPriority::Normal => (10_000, 100_000),
        TransactionPriority::Low => (5_000, 50_000),
    }
}

/// The phase of the idle-then-spike scenario after `generated` of `total`
/// transactions: idle below 30%, spike below 70%, then cool-down.
#[derive(Debug, Clone, Copy, PartialEq, Eq)]
pub enum SpikePhase {
    Idle,
    Spike,
    CoolDown,
}

pub open spec fn spec_spike_phase(generated: u64, total: u64) -> SpikePhase {
    if 10 * generated < 3 * total {
        SpikePhase::Idle
    } else if 10 * generated < 7 * total {
        SpikePhase::Spike
    } else {
        SpikePhase::CoolDown
    }
}

pub fn spike_phase(generated: u64, total: u64) -> (r: SpikePhase)
    ensures
        r == spec_spike_phase(generated, total),
{
    let g = generated as u128;
    let t = total as u128;
    if 10 * g < 3 * t {
        SpikePhase::Idle
    } else if 10 * g < 7 * t {
        SpikePhase::Spike
    } else {
        SpikePhase::CoolDown
    }
}

/// The signed 64-bit value of the bits of `x`.
pub open spec fn as_signed(x: u64) -> int {
    if x <= i64::MAX { x as int } else { x - 0x1_0000_0000_0000_0000int }
}

/// `v` wrapped into the signed 64-bit range.
pub open spec fn wrap_signed(v: int) -> int {
    if v > i64::MAX {
        v - 0x1_0000_0000_0000_0000int
    } else if v < i64::MIN {
        v + 0x1_0000_0000_0000_0000int
    } else {
        v
    }
}

/// The steady scenario's gap: the base interval, read as a signed 64-bit
/// value, moved by a jitter of `draw - 5` (for a draw in `0..10`) in
/// wrapping 64-bit arithmetic, and at least 1 ms.
pub open spec fn spec_steady_delta(base_interval_ms: u64, draw: u64) -> u64 {
    let d = wrap_signed(as_signed(base_interval_ms) + draw - 5);
    if d < 1 { 1 } else { d as u64 }
}

pub fn steady_delta(base_interval_ms: u64, draw: u64) -> (r: u64)
    requires
        draw < 10,
    ensures
        r == spec_steady_delta(base_interval_ms, draw),
{
    let b: i128 = if base_interval_ms <= 0x7fff_ffff_ffff_ffffu64 {
        base_interval_ms as i128
    } else {
        base_interval_ms as i128 - 0x1_0000_0000_0000_0000i128
    };
    let raw: i128 = b + (draw as i128 - 5);
    let d: i128 = if raw > 0x7fff_ffff_ffff_ffffi128 {
        raw - 0x1_0000_0000_0000_0000i128
    } else if raw < -0x8000_0000_0000_0000i128 {
        raw + 0x1_0000_0000_0000_0000i128
    } else {
        raw
    };
    if d < 1 { 1 } else { d as u64 }
}

/// A generated transaction: identifier `tx_<index>`, sender `sender_<n>`,
/// program `program_<n>`, with the given arrival time, instruction,
/// compute estimate and priority.
pub fn build_transaction(
    index: u64,
    arrival_ts: u64,
    sender_idx: u64,
    program_idx: u64,
    instruction_data: Vec<u8>,
    estimated_cu: u64,
    priority: TransactionPriority,
) -> (r: Transaction)
    ensures
        r.tx_id.0@ == "tx_"@ + decimal_padded(index as nat, 6),
        r.arrival_ts == arrival_ts,
        r.sender@ == "sender_"@ + decimal(sender_idx as nat),
        r.program_id@ == "program_"@ + decimal(program_idx as nat),
        r.accounts@.len() == 0,
        r.instruction_data@ == instruction_data@,
        r.estimated_cu == estimated_cu,
        r.priority == priority,
        r.deadline_ms is None,
{
    let sender = numbered("sender_", sender_idx);
    let program = numbered("program_", program_idx);
    let mut tx = Transaction::new(generated_tx_id(index), sender.as_str(), program.as_str());
    tx.arrival_ts = arrival_ts;
    tx.instruction_data = instruction_data;
    tx.estimated_cu = estimated_cu;
    tx.priority = priority;
    tx
}

} // verus!
