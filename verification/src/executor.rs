//! Deterministic execution of the four-opcode instruction set over the
//! account state, producing execution traces.
use vstd::prelude::*;
use vstd::string::*;
use vstd::bytes::{spec_u64_from_le_bytes, u64_from_le_bytes};
use vstd::slice::slice_subrange;
use crate::clock::Clock;
use crate::errors::ExecError;
use crate::policy::is_text;
use crate::state::{balance, compute_state_root, spec_state_root, StateMap};
use crate::text::{decimal, decimal_string, views};
use crate::trace::{entry_hash, spec_trace_hash, TraceBuilder};
use crate::types::{Batch, ExecutionTrace, TraceEntry, Transaction, TransactionId};

verus! {

/// Instruction opcodes of the restricted instruction set.
#[derive(Debug, Clone, Copy, PartialEq, Eq)]
pub enum Opcode {
    Transfer,
    SetData,
    Increment,
    Noop,
    Invalid,
}

/// The opcode a leading instruction byte selects.
pub open spec fn spec_opcode(v: u8) -> Opcode {
    if v == 0 {
        Opcode::Transfer
    } else if v == 1 {
        Opcode::SetData
    } else if v == 2 {
        Opcode::Increment
    } else if v == 3 {
        Opcode::Noop
    } else {
        Opcode::Invalid
    }
}

impl Opcode {
    /// The opcode's number: 0 to 3 for the valid opcodes, 255 for Invalid.
    pub open spec fn spec_code(self) -> u8 {
        match self {
            Opcode::Transfer => 0,
            Opcode::SetData => 1,
            Opcode::Increment => 2,
            Opcode::Noop => 3,
            Opcode::Invalid => 255,
        }
    }

    /// The opcode's number: 0 to 3 for the valid opcodes, 255 for Invalid.
    pub fn code(&self) -> (r: u8)
        ensures
            r == self.spec_code(),
    {
        match self {
            Opcode::Transfer => 0,
            Opcode::SetData => 1,
            Opcode::Increment => 2,
            Opcode::Noop => 3,
            Opcode::Invalid => 255,
        }
    }

    /// The opcode a leading instruction byte selects: 0 Transfer, 1 SetData,
    /// 2 Increment, 3 Noop, anything else Invalid.
    pub fn from_byte(v: u8) -> (r: Opcode)
        ensures
            r == spec_opcode(v),
    {
        if v == 0 {
            Opcode::Transfer
        } else if v == 1 {
            Opcode::SetData
        } else if v == 2 {
            Opcode::Increment
        } else if v == 3 {
            Opcode::Noop
        } else {
            Opcode::Invalid
        }
    }
}

impl From<u8> for Opcode {
    fn from(v: u8) -> (r: Self) {
        Opcode::from_byte(v)
    }
}

impl vstd::std_specs::convert::FromSpecImpl<u8> for Opcode {
    open spec fn obeys_from_spec() -> bool {
        true
    }

    open spec fn from_spec(v: u8) -> Self {
        spec_opcode(v)
    }
}

/// The little-endian `u64` stored at `start` in `data`.
pub open spec fn le_u64_at(data: Seq<u8>, start: int) -> u64 {
    spec_u64_from_le_bytes(data.subrange(start, start + 8))
}

/// The account credited by a transfer to index `idx`.
pub open spec fn account_key(idx: u64) -> Seq<char> {
    "account_"@ + decimal(idx as nat)
}

/// The data slot with index `idx`.
pub open spec fn data_key(idx: u64) -> Seq<char> {
    "data_"@ + decimal(idx as nat)
}

/// The state after moving `amount` from `from` to `to`: `from` is debited
/// first (and created with balance 0 if absent), then `to` is credited.
pub open spec fn debit_credit(m: Map<Seq<char>, u64>, from: Seq<char>, to: Seq<char>, amount: u64) -> Map<
    Seq<char>,
    u64,
> {
    let m1 = m.insert(from, (balance(m, from) - amount) as u64);
    m1.insert(to, (balance(m1, to) + amount) as u64)
}

/// Whether the credit of a transfer stays within `u64`.
pub open spec fn credit_fits(m: Map<Seq<char>, u64>, from: Seq<char>, to: Seq<char>, amount: u64) -> bool {
    let m1 = m.insert(from, (balance(m, from) - amount) as u64);
    balance(m1, to) + amount <= u64::MAX
}

/// `a + b`, capped at `u64::MAX`.
pub open spec fn saturating(a: u64, b: u64) -> u64 {
    if a + b > u64::MAX { u64::MAX } else { (a + b) as u64 }
}

/// The outcome of one instruction: the new state with the accounts read, the
/// accounts written and the compute used, or the error.
pub type StepOutcome = Result<(Map<Seq<char>, u64>, Seq<Seq<char>>, Seq<Seq<char>>, u64), ExecError>;

/// What one instruction does to a state. Instruction data is an opcode byte
/// followed by two little-endian `u64` operands.
pub open spec fn spec_execute_instruction(
    m: Map<Seq<char>, u64>,
    sender: Seq<char>,
    instr: Seq<u8>,
    fail_on_invalid: bool,
) -> StepOutcome {
    if instr.len() == 0 {
        Err(ExecError::InvalidOpcode(255))
    } else {
        match spec_opcode(instr[0]) {
            Opcode::Transfer => {
                if instr.len() < 17 {
                    Err(ExecError::InvalidOpcode(0))
                } else {
                    let amount = le_u64_at(instr, 1);
                    let target = account_key(le_u64_at(instr, 9));
                    if balance(m, sender) < amount {
                        Err(
                            ExecError::InsufficientBalance {
                                needed: amount,
                                available: balance(m, sender),
                            },
                        )
                    } else {
                        Ok(
                            (
                                debit_credit(m, sender, target, amount),
                                seq![sender, target],
                                seq![sender, target],
                                5000u64,
                            ),
                        )
                    }
                }
            },
            Opcode::SetData => {
                if instr.len() < 17 {
                    Err(ExecError::InvalidOpcode(1))
                } else {
                    let key = data_key(le_u64_at(instr, 1));
                    Ok((m.insert(key, le_u64_at(instr, 9)), Seq::empty(), seq![key], 3000u64))
                }
            },
            Opcode::Increment => {
                if instr.len() < 17 {
                    Err(ExecError::InvalidOpcode(2))
                } else {
                    let key = data_key(le_u64_at(instr, 1));
                    let v = saturating(balance(m, key), le_u64_at(instr, 9));
                    Ok((m.insert(key, v), seq![key], seq![key], 2000u64))
                }
            },
            Opcode::Noop => Ok((m, Seq::empty(), Seq::empty(), 1000u64)),
            Opcode::Invalid => {
                if fail_on_invalid {
                    Err(ExecError::InvalidOpcode(instr[0]))
                } else {
                    Ok((m, Seq::empty(), Seq::empty(), 500u64))
                }
            },
        }
    }
}

/// A transfer moves `amount` from the sender to `account_<idx>` when the
/// sender holds at least that much: the sender loses it, the target gains it
/// (a transfer to oneself changes nothing), every other account is unchanged,
/// both are read and written, and it costs 5000 compute. With less in the
/// sender's account it fails, naming what was needed and what was there.
pub proof fn law_transfer_moves(m: Map<Seq<char>, u64>, sender: Seq<char>, instr: Seq<u8>, fail_on_invalid: bool)
    requires
        instr.len() >= 17,
        instr[0] == 0,
        instruction_fits(m, sender, instr),
    ensures
        ({
            let amount = le_u64_at(instr, 1);
            let target = account_key(le_u64_at(instr, 9));
            let r = spec_execute_instruction(m, sender, instr, fail_on_invalid);
            &&& balance(m, sender) < amount ==> r == Err::<(Map<Seq<char>, u64>, Seq<Seq<char>>, Seq<Seq<char>>, u64), ExecError>(
                ExecError::InsufficientBalance { needed: amount, available: balance(m, sender) },
            )
            &&& balance(m, sender) >= amount ==> (r matches Ok((m2, reads, writes, cu)) && reads == seq![sender, target]
                && writes == seq![sender, target] && cu == 5000 && (target != sender ==> balance(m2, sender)
                == balance(m, sender) - amount && balance(m2, target) == balance(m, target) + amount)
                && (target == sender ==> balance(m2, sender) == balance(m, sender)) && m2.contains_key(sender)
                && m2.contains_key(target) && (forall|a: Seq<char>| a != sender && a != target ==> (#[trigger] m2.contains_key(a)
                == m.contains_key(a) && m2[a] == m[a])))
        }),
{
}

/// Setting data slot `k` to `v` stores `v` there and changes no other
/// account; it writes the slot and costs 3000 compute.
pub proof fn law_set_data_stores(m: Map<Seq<char>, u64>, sender: Seq<char>, instr: Seq<u8>, fail_on_invalid: bool)
    requires
        instr.len() >= 17,
        instr[0] == 1,
    ensures
        ({
            let k = data_key(le_u64_at(instr, 1));
            spec_execute_instruction(m, sender, instr, fail_on_invalid) matches Ok((m2, reads, writes, cu))
                && m2.contains_key(k) && m2[k] == le_u64_at(instr, 9) && (forall|a: Seq<char>| a != k
                ==> (#[trigger] m2.contains_key(a) == m.contains_key(a) && m2[a] == m[a])) && reads.len() == 0
                && writes == seq![k] && cu == 3000
        }),
{
}

/// An increment of data slot `k` by `d` leaves the slot's previous balance
/// plus `d`, capped at `u64::MAX`, and changes no other account; it reads
/// and writes the slot and costs 2000 compute.
pub proof fn law_increment_adds(m: Map<Seq<char>, u64>, sender: Seq<char>, instr: Seq<u8>, fail_on_invalid: bool)
    requires
        instr.len() >= 17,
        instr[0] == 2,
    ensures
        ({
            let k = data_key(le_u64_at(instr, 1));
            let d = le_u64_at(instr, 9);
            spec_execute_instruction(m, sender, instr, fail_on_invalid) matches Ok((m2, reads, writes, cu))
                && m2.contains_key(k) && (m2[k] == balance(m, k) + d || (m2[k] == u64::MAX && balance(m, k) + d
                > u64::MAX)) && m2[k] >= balance(m, k) && (forall|a: Seq<char>| a != k ==> (#[trigger] m2.contains_key(a)
                == m.contains_key(a) && m2[a] == m[a])) && reads == seq![k] && writes == seq![k] && cu == 2000
        }),
{
}

/// Whether an instruction's credit stays within `u64` (the one arithmetic
/// step that can overflow).
pub open spec fn instruction_fits(m: Map<Seq<char>, u64>, sender: Seq<char>, instr: Seq<u8>) -> bool {
    instr.len() >= 17 && instr[0] == 0 && balance(m, sender) >= le_u64_at(instr, 1) ==> credit_fits(
        m,
        sender,
        account_key(le_u64_at(instr, 9)),
        le_u64_at(instr, 1),
    )
}

/// Reads the little-endian `u64` at `start`.
fn read_u64_le(data: &[u8], start: usize) -> (r: u64)
    requires
        start + 8 <= data@.len(),
    ensures
        r == le_u64_at(data@, start as int),
{
    let n = data.len();
    assert(start + 8 <= n);
    u64_from_le_bytes(slice_subrange(data, start, start + 8))
}

/// `prefix` followed by the decimal rendering of `n`.
fn prefixed_decimal(prefix: &str, n: u64) -> (r: String)
    ensures
        r@ == prefix@ + decimal(n as nat),
{
    let mut s = String::new();
    s.append(prefix);
    s.append(decimal_string(n).as_str());
    s
}

/// Executes instructions deterministically over an ordered state.
#[derive(Debug)]
pub struct DeterministicExecutor {
    max_cu_per_tx: u64,
    fail_on_invalid: bool,
}

impl DeterministicExecutor {
    /// The most compute recorded for one transaction.
    pub closed spec fn max_cu(&self) -> u64 {
        self.max_cu_per_tx
    }

    /// Whether an unknown opcode is an error (otherwise it costs 500 and succeeds).
    pub closed spec fn fails_on_invalid(&self) -> bool {
        self.fail_on_invalid
    }

    /// An executor that records at most `max_cu_per_tx` compute per
    /// transaction and rejects unknown opcodes.
    pub fn new(max_cu_per_tx: u64) -> (r: Self)
        ensures
            r.max_cu() == max_cu_per_tx,
            r.fails_on_invalid(),
    {
        DeterministicExecutor { max_cu_per_tx, fail_on_invalid: true }
    }

    /// The same executor, with unknown opcodes rejected or not.
    pub fn with_fail_on_invalid(self, fail: bool) -> (r: Self)
        ensures
            r.max_cu() == self.max_cu(),
            r.fails_on_invalid() == fail,
    {
        DeterministicExecutor { max_cu_per_tx: self.max_cu_per_tx, fail_on_invalid: fail }
    }

    /// Executes one instruction against `state` on behalf of `sender`.
    /// On error the state is left unchanged.
    pub fn execute_instruction(
        &self,
        state: &mut StateMap,
        sender: &str,
        instruction_data: &[u8],
    ) -> (r: Result<(Vec<String>, Vec<String>, u64), ExecError>)
        requires
            instruction_fits(old(state)@, sender@, instruction_data@),
        ensures
            match spec_execute_instruction(
                old(state)@,
                sender@,
                instruction_data@,
                self.fails_on_invalid(),
            ) {
                Ok((m, reads, writes, cu)) => {
                    &&& r matches Ok((rd, wr, c)) && views(rd@) == reads && views(wr@) == writes
                        && c == cu
                    &&& final(state)@ == m
                },
                Err(e) => r == Err::<(Vec<String>, Vec<String>, u64), ExecError>(e) && final(state)@ == old(state)@,
            },
            instruction_data@.len() >= 17 && instruction_data@[0] == 2 ==> r is Ok && final(state)@ == old(state)@.insert(
                data_key(le_u64_at(instruction_data@, 1)),
                if balance(old(state)@, data_key(le_u64_at(instruction_data@, 1))) + le_u64_at(instruction_data@, 9) > u64::MAX {
                    u64::MAX
                } else {
                    (balance(old(state)@, data_key(le_u64_at(instruction_data@, 1))) + le_u64_at(instruction_data@, 9)) as u64
                },
            ),
    {
        if instruction_data.len() == 0 {
            return Err(ExecError::InvalidOpcode(255));
        }
        let opcode = Opcode::from_byte(instruction_data[0]);
        match opcode {
            Opcode::Transfer => self.execute_transfer(state, sender, instruction_data),
            Opcode::SetData => self.execute_set_data(state, instruction_data),
            Opcode::Increment => self.execute_increment(state, instruction_data),
            Opcode::Noop => {
                let r: (Vec<String>, Vec<String>, u64) = (Vec::new(), Vec::new(), 1000);
                assert(views(r.0@) =~= Seq::empty());
                Ok(r)
            },
            Opcode::Invalid => {
                if self.fail_on_invalid {
                    Err(ExecError::InvalidOpcode(instruction_data[0]))
                } else {
                    let r: (Vec<String>, Vec<String>, u64) = (Vec::new(), Vec::new(), 500);
                    assert(views(r.0@) =~= Seq::empty());
                    Ok(r)
                }
            },
        }
    }

    fn execute_transfer(&self, state: &mut StateMap, sender: &str, instr: &[u8]) -> (r: Result<
        (Vec<String>, Vec<String>, u64),
        ExecError,
    >)
        requires
            instr@.len() > 0,
            instr@[0] == 0,
            instruction_fits(old(state)@, sender@, instr@),
        ensures
            match spec_execute_instruction(old(state)@, sender@, instr@, self.fails_on_invalid()) {
                Ok((m, reads, writes, cu)) => {
                    &&& r matches Ok((rd, wr, c)) && views(rd@) == reads && views(wr@) == writes
                        && c == cu
                    &&& final(state)@ == m
                },
                Err(e) => r == Err::<(Vec<String>, Vec<String>, u64), ExecError>(e) && final(state)@ == old(state)@,
            },
    {
        if instr.len() - 1 < 16 {
            return Err(ExecError::InvalidOpcode(0));
        }
        let amount = read_u64_le(instr, 1);
        let target_idx = read_u64_le(instr, 9);
        proof {
            reveal_strlit("account_");
        }
        let target = prefixed_decimal("account_", target_idx);
        let sender_balance = state.get_or_zero(sender);
        if sender_balance < amount {
            return Err(ExecError::InsufficientBalance { needed: amount, available: sender_balance });
        }
        let ghost m0 = state@;
        state.insert(sender.to_string(), sender_balance - amount);
        let target_balance = state.get_or_zero(target.as_str());
        state.insert(target.clone(), target_balance + amount);
        let mut reads: Vec<String> = Vec::new();
        reads.push(sender.to_string());
        reads.push(target.clone());
        let mut writes: Vec<String> = Vec::new();
        writes.push(sender.to_string());
        writes.push(target);
        assert(views(reads@) =~= seq![sender@, account_key(target_idx)]);
        assert(views(writes@) =~= seq![sender@, account_key(target_idx)]);
        Ok((reads, writes, 5000))
    }

    fn execute_set_data(&self, state: &mut StateMap, instr: &[u8]) -> (r: Result<
        (Vec<String>, Vec<String>, u64),
        ExecError,
    >)
        requires
            instr@.len() > 0,
            instr@[0] == 1,
        ensures
            match spec_execute_instruction(old(state)@, Seq::empty(), instr@, self.fails_on_invalid()) {
                Ok((m, reads, writes, cu)) => {
                    &&& r matches Ok((rd, wr, c)) && views(rd@) == reads && views(wr@) == writes
                        && c == cu
                    &&& final(state)@ == m
                },
                Err(e) => r == Err::<(Vec<String>, Vec<String>, u64), ExecError>(e) && final(state)@ == old(state)@,
            },
    {
        if instr.len() - 1 < 16 {
            return Err(ExecError::InvalidOpcode(1));
        }
        let key_idx = read_u64_le(instr, 1);
        let value = read_u64_le(instr, 9);
        proof {
            reveal_strlit("data_");
        }
        let key = prefixed_decimal("data_", key_idx);
        state.insert(key.clone(), value);
        let reads: Vec<String> = Vec::new();
        let mut writes: Vec<String> = Vec::new();
        writes.push(key);
        assert(views(reads@) =~= Seq::empty());
        assert(views(writes@) =~= seq![data_key(key_idx)]);
        Ok((reads, writes, 3000))
    }

    fn execute_increment(&self, state: &mut StateMap, instr: &[u8]) -> (r: Result<
        (Vec<String>, Vec<String>, u64),
        ExecError,
    >)
        requires
            instr@.len() > 0,
            instr@[0] == 2,
        ensures
            match spec_execute_instruction(old(state)@, Seq::empty(), instr@, self.fails_on_invalid()) {
                Ok((m, reads, writes, cu)) => {
                    &&& r matches Ok((rd, wr, c)) && views(rd@) == reads && views(wr@) == writes
                        && c == cu
                    &&& final(state)@ == m
                },
                Err(e) => r == Err::<(Vec<String>, Vec<String>, u64), ExecError>(e) && final(state)@ == old(state)@,
            },
            instr@.len() >= 17 ==> r is Ok && final(state)@ == old(state)@.insert(
                data_key(le_u64_at(instr@, 1)),
                if balance(old(state)@, data_key(le_u64_at(instr@, 1))) + le_u64_at(instr@, 9) > u64::MAX {
                    u64::MAX
                } else {
                    (balance(old(state)@, data_key(le_u64_at(instr@, 1))) + le_u64_at(instr@, 9)) as u64
                },
            ),
    {
        if instr.len() - 1 < 16 {
            return Err(ExecError::InvalidOpcode(2));
        }
        let key_idx = read_u64_le(instr, 1);
        let delta = read_u64_le(instr, 9);
        proof {
            reveal_strlit("data_");
        }
        let key = prefixed_decimal("data_", key_idx);
        let new_value = state.get_or_zero(key.as_str()).saturating_add(delta);
        state.insert(key.clone(), new_value);
        let mut reads: Vec<String> = Vec::new();
        reads.push(key.clone());
        let mut writes: Vec<String> = Vec::new();
        writes.push(key);
        assert(views(reads@) =~= seq![data_key(key_idx)]);
        assert(views(writes@) =~= seq![data_key(key_idx)]);
        Ok((reads, writes, 2000))
    }
}

/// The balance every sender starts a batch with.
pub const INITIAL_SENDER_BALANCE: u64 = 1_000_000;

/// The state a batch starts from: every sender holds the initial balance.
pub open spec fn initial_balances(txs: Seq<Transaction>) -> Map<Seq<char>, u64>
    decreases txs.len(),
{
    if txs.len() == 0 {
        Map::empty()
    } else {
        let m = initial_balances(txs.drop_last());
        let s = txs.last().sender@;
        if m.contains_key(s) {
            m
        } else {
            m.insert(s, INITIAL_SENDER_BALANCE)
        }
    }
}

/// The state after the first `n` transactions of a batch (a failed
/// instruction leaves the state unchanged).
pub open spec fn state_after(init: Map<Seq<char>, u64>, txs: Seq<Transaction>, n: nat) -> Map<
    Seq<char>,
    u64,
>
    decreases n,
{
    if n == 0 {
        init
    } else {
        let pre = state_after(init, txs, (n - 1) as nat);
        match spec_execute_instruction(
            pre,
            txs[n - 1].sender@,
            txs[n - 1].instruction_data@,
            true,
        ) {
            Ok(out) => out.0,
            Err(_) => pre,
        }
    }
}

/// Every transfer of the batch credits within `u64`.
pub open spec fn run_fits(init: Map<Seq<char>, u64>, txs: Seq<Transaction>) -> bool {
    forall|i: int|
        0 <= i < txs.len() ==> instruction_fits(
            #[trigger] state_after(init, txs, i as nat),
            txs[i].sender@,
            txs[i].instruction_data@,
        )
}

/// The leading byte of an instruction, 255 when there is none.
pub open spec fn first_byte_or_255(data: Seq<u8>) -> u8 {
    if data.len() == 0 { 255 } else { data[0] }
}

/// The smaller of two compute amounts.
pub open spec fn min_u64(a: u64, b: u64) -> u64 {
    if a <= b { a } else { b }
}

/// The trace entry recorded for transaction `i` of a batch executed from `pre`.
pub open spec fn full_entry_ok(e: TraceEntry, i: int, tx: Transaction, pre: Map<Seq<char>, u64>, max_cu: u64) -> bool {
    &&& e.tx_idx == i
    &&& e.tx_id.0@ == tx.tx_id.0@
    &&& e.pre_state_hash@ == spec_state_root(pre)
    &&& match spec_execute_instruction(pre, tx.sender@, tx.instruction_data@, true) {
        Ok((m, reads, writes, cu)) => {
            &&& e.post_state_hash@ == spec_state_root(m)
            &&& e.instruction@ == "opcode_"@ + decimal(first_byte_or_255(tx.instruction_data@) as nat)
            &&& views(e.accounts_read@) == reads
            &&& views(e.accounts_written@) == writes
            &&& e.compute_used == min_u64(cu, max_cu)
            &&& e.success
            &&& e.error is None
        },
        Err(err) => {
            &&& e.post_state_hash@ == spec_state_root(pre)
            &&& e.instruction@ == "failed"@
            &&& e.accounts_read@.len() == 0
            &&& e.accounts_written@.len() == 0
            &&& e.compute_used == 0
            &&& !e.success
            &&& e.error matches Some(msg) && msg@ == err.spec_message()
        },
    }
}

/// The sum of the compute recorded in `entries`.
pub open spec fn total_compute_of(entries: Seq<TraceEntry>) -> int
    decreases entries.len(),
{
    if entries.len() == 0 {
        0
    } else {
        total_compute_of(entries.drop_last()) + entries.last().compute_used
    }
}

/// The number of successful entries.
pub open spec fn success_count_of(entries: Seq<TraceEntry>) -> int
    decreases entries.len(),
{
    if entries.len() == 0 {
        0
    } else {
        success_count_of(entries.drop_last()) + if entries.last().success { 1int } else { 0int }
    }
}

/// The totals and commitments of a trace agree with its entries, and its
/// roots are those of `pre` and `post`.
pub open spec fn trace_commits(
    t: ExecutionTrace,
    batch_id: Seq<char>,
    pre: Map<Seq<char>, u64>,
    post: Map<Seq<char>, u64>,
) -> bool {
    &&& t.batch_id@ == batch_id
    &&& t.state_root_pre@ == spec_state_root(pre)
    &&& t.state_root_post@ == spec_state_root(post)
    &&& t.trace_hash@ == spec_trace_hash(t.entries@)
    &&& t.total_compute == total_compute_of(t.entries@)
    &&& t.success_count == success_count_of(t.entries@)
    &&& t.failure_count == t.entries@.len() - success_count_of(t.entries@)
}

/// The trace of executing `txs` in order from their initial balances.
pub open spec fn full_trace_ok(t: ExecutionTrace, batch_id: Seq<char>, txs: Seq<Transaction>, max_cu: u64) -> bool {
    let init = initial_balances(txs);
    &&& trace_commits(t, batch_id, init, state_after(init, txs, txs.len()))
    &&& t.entries@.len() == txs.len()
    &&& forall|i: int|
        0 <= i < txs.len() ==> full_entry_ok(
            #[trigger] t.entries@[i],
            i,
            txs[i],
            state_after(init, txs, i as nat),
            max_cu,
        )
}

pub proof fn lemma_totals_push(entries: Seq<TraceEntry>, e: TraceEntry)
    ensures
        total_compute_of(entries.push(e)) == total_compute_of(entries) + e.compute_used,
        success_count_of(entries.push(e)) == success_count_of(entries) + if e.success { 1int } else { 0int },
{
    assert(entries.push(e).drop_last() =~= entries);
}

proof fn lemma_totals_bounds(entries: Seq<TraceEntry>, cap: u64)
    requires
        forall|i: int| 0 <= i < entries.len() ==> (#[trigger] entries[i]).compute_used <= cap,
    ensures
        0 <= total_compute_of(entries) <= entries.len() * cap,
        0 <= success_count_of(entries) <= entries.len(),
    decreases entries.len(),
{
    if entries.len() > 0 {
        let t = entries.drop_last();
        assert forall|i: int| 0 <= i < t.len() implies (#[trigger] t[i]).compute_used <= cap by {
            assert(t[i] == entries[i]);
        }
        lemma_totals_bounds(t, cap);
        assert(entries.last().compute_used <= cap);
        assert((entries.len() - 1) * cap + cap == entries.len() * cap) by (nonlinear_arith);
    }
}

/// Entries that agree pointwise on compute and success have the same totals.
proof fn lemma_same_totals(a: Seq<TraceEntry>, b: Seq<TraceEntry>)
    requires
        a.len() == b.len(),
        forall|i: int| 0 <= i < a.len() ==> (#[trigger] a[i]).compute_used == b[i].compute_used && a[i].success
            == b[i].success,
    ensures
        total_compute_of(a) == total_compute_of(b),
        success_count_of(a) == success_count_of(b),
    decreases a.len(),
{
    if a.len() > 0 {
        let (a0, b0) = (a.drop_last(), b.drop_last());
        assert forall|i: int| 0 <= i < a0.len() implies (#[trigger] a0[i]).compute_used == b0[i].compute_used
            && a0[i].success == b0[i].success by {
            assert(a0[i] == a[i] && b0[i] == b[i]);
        }
        lemma_same_totals(a0, b0);
        assert(a.last() == a[a.len() - 1] && b.last() == b[b.len() - 1]);
    }
}

/// Executing the same transactions twice commits to the same thing: both
/// traces have the same state roots, trace hash, total compute and success
/// and failure counts.
pub proof fn law_full_execution_deterministic(
    t1: ExecutionTrace,
    t2: ExecutionTrace,
    batch_id: Seq<char>,
    txs: Seq<Transaction>,
    max_cu: u64,
)
    requires
        full_trace_ok(t1, batch_id, txs, max_cu),
        full_trace_ok(t2, batch_id, txs, max_cu),
    ensures
        t1.state_root_pre@ == t2.state_root_pre@,
        t1.state_root_post@ == t2.state_root_post@,
        t1.trace_hash@ == t2.trace_hash@,
        t1.total_compute == t2.total_compute,
        t1.success_count == t2.success_count,
        t1.failure_count == t2.failure_count,
{
    let (e1, e2) = (t1.entries@, t2.entries@);
    let init = initial_balances(txs);
    assert forall|i: int| 0 <= i < e1.len() implies (#[trigger] e1[i]).compute_used == e2[i].compute_used
        && e1[i].success == e2[i].success && entry_hash(e1[i]) == entry_hash(e2[i]) by {
        assert(full_entry_ok(e1[i], i, txs[i], state_after(init, txs, i as nat), max_cu));
        assert(full_entry_ok(e2[i], i, txs[i], state_after(init, txs, i as nat), max_cu));
        if !e1[i].success {
            assert(views(e1[i].accounts_read@) =~= views(e2[i].accounts_read@));
            assert(views(e1[i].accounts_written@) =~= views(e2[i].accounts_written@));
        }
    }
    lemma_same_totals(e1, e2);
    assert(e1.map_values(|e: TraceEntry| entry_hash(e)) =~= e2.map_values(|e: TraceEntry| entry_hash(e)));
}

/// Every sender of the batch with the initial balance.
fn initial_state(transactions: &[Transaction]) -> (r: StateMap)
    ensures
        r@ == initial_balances(transactions@),
{
    let ghost txs = transactions@;
    let mut state = StateMap::new();
    let mut k: usize = 0;
    while k < transactions.len()
        invariant
            k <= txs.len(),
            txs == transactions@,
            state@ == initial_balances(txs.take(k as int)),
        decreases txs.len() - k,
    {
        proof {
            assert(txs.take(k + 1).drop_last() =~= txs.take(k as int));
        }
        state.insert_if_absent(transactions[k].sender.clone(), INITIAL_SENDER_BALANCE);
        k = k + 1;
    }
    assert(txs.take(txs.len() as int) =~= txs);
    state
}

/// Whether the credit of an instruction stays within `u64` in `state`.
pub fn instruction_fits_in(state: &StateMap, sender: &str, instr: &[u8]) -> (r: bool)
    ensures
        r == instruction_fits(state@, sender@, instr@),
{
    if instr.len() < 17 || instr[0] != 0 {
        return true;
    }
    let amount = read_u64_le(instr, 1);
    let sender_balance = state.get_or_zero(sender);
    if sender_balance < amount {
        return true;
    }
    let target_idx = read_u64_le(instr, 9);
    proof {
        reveal_strlit("account_");
    }
    let target = prefixed_decimal("account_", target_idx);
    let target_balance = if is_text(target.as_str(), sender) {
        sender_balance - amount
    } else {
        state.get_or_zero(target.as_str())
    };
    target_balance <= u64::MAX - amount
}

/// Whether every transfer of a batch, run in order from the initial
/// balances, credits within `u64`: the condition under which
/// [`FullExecutor::execute_with_transactions`] runs it.
pub fn batch_fits(transactions: &[Transaction]) -> (r: bool)
    ensures
        r == run_fits(initial_balances(transactions@), transactions@),
{
    let ghost txs = transactions@;
    let mut state = initial_state(transactions);
    let ghost init = initial_balances(txs);
    let stepper = DeterministicExecutor::new(0);
    let mut i: usize = 0;
    while i < transactions.len()
        invariant
            i <= txs.len(),
            txs == transactions@,
            init == initial_balances(txs),
            stepper.fails_on_invalid(),
            state@ == state_after(init, txs, i as nat),
            forall|j: int|
                0 <= j < i ==> instruction_fits(
                    #[trigger] state_after(init, txs, j as nat),
                    txs[j].sender@,
                    txs[j].instruction_data@,
                ),
        decreases txs.len() - i,
    {
        let tx = &transactions[i];
        if !instruction_fits_in(&state, tx.sender.as_str(), tx.instruction_data.as_slice()) {
            proof {
                let ii: int = i as int;
                assert(!instruction_fits(
                    state_after(init, txs, ii as nat),
                    txs[ii].sender@,
                    txs[ii].instruction_data@,
                ));
            }
            return false;
        }
        let _ = stepper.execute_instruction(&mut state, tx.sender.as_str(), tx.instruction_data.as_slice());
        i = i + 1;
    }
    true
}

/// Executes batches from their full transaction data.
#[derive(Debug)]
pub struct FullExecutor {
    inner: DeterministicExecutor,
}

impl FullExecutor {
    #[verifier::type_invariant]
    spec fn rejects_invalid(&self) -> bool {
        self.inner.fails_on_invalid()
    }

    /// The most compute recorded for one transaction.
    pub closed spec fn max_cu(&self) -> u64 {
        self.inner.max_cu()
    }

    /// An executor that records at most `max_cu_per_tx` compute per transaction
    /// and rejects unknown opcodes.
    pub fn new(max_cu_per_tx: u64) -> (r: Self)
        ensures
            r.max_cu() == max_cu_per_tx,
    {
        FullExecutor { inner: DeterministicExecutor::new(max_cu_per_tx) }
    }

    /// Executes `transactions` in order, each sender starting with the initial
    /// balance. Every transaction gets an entry; a failed instruction records
    /// its error, no compute, and leaves the state unchanged.
    pub fn execute_with_transactions<C: Clock>(
        &self,
        batch: &Batch,
        transactions: &[Transaction],
        clock: &C,
    ) -> (r: Result<ExecutionTrace, ExecError>)
        requires
            run_fits(initial_balances(transactions@), transactions@),
            transactions@.len() * 5000 <= u64::MAX,
        ensures
            r matches Ok(t) && full_trace_ok(t, batch.batch_id@, transactions@, self.max_cu()),
    {
        proof {
            use_type_invariant(self);
        }
        let _start_time = clock.now_ms();
        let ghost txs = transactions@;
        let mut state = initial_state(transactions);
        let ghost init = initial_balances(txs);
        let max_cu = self.inner.max_cu_per_tx;
        let mut builder = TraceBuilder::new(batch.batch_id.clone(), &state);
        let mut idx: usize = 0;
        while idx < transactions.len()
            invariant
                idx <= txs.len(),
                txs == transactions@,
                init == initial_balances(txs),
                run_fits(init, txs),
                txs.len() * 5000 <= u64::MAX,
                max_cu == self.max_cu(),
                self.inner.fails_on_invalid(),
                state@ == state_after(init, txs, idx as nat),
                builder.spec_batch_id() == batch.batch_id@,
                builder.spec_pre_state_root() == spec_state_root(init),
                builder.spec_entries().len() == idx,
                builder.spec_total_compute() == total_compute_of(builder.spec_entries()),
                builder.spec_success_count() == success_count_of(builder.spec_entries()),
                builder.spec_failure_count() == idx - success_count_of(builder.spec_entries()),
                forall|i: int| 0 <= i < idx ==> (#[trigger] builder.spec_entries()[i]).compute_used <= 5000,
                forall|i: int|
                    0 <= i < idx ==> full_entry_ok(
                        #[trigger] builder.spec_entries()[i],
                        i,
                        txs[i],
                        state_after(init, txs, i as nat),
                        max_cu,
                    ),
            decreases txs.len() - idx,
        {
            let tx = &transactions[idx];
            let ghost pre = state@;
            let ghost entries_before = builder.spec_entries();
            proof {
                let ii: int = idx as int;
                assert(instruction_fits(state_after(init, txs, ii as nat), txs[ii].sender@, txs[ii].instruction_data@));
                lemma_totals_bounds(entries_before, 5000);
                assert(idx * 5000 + 5000 <= txs.len() * 5000) by (nonlinear_arith)
                    requires idx < txs.len();
            }
            let pre_state_hash = compute_state_root(&state);
            let result = self.inner.execute_instruction(&mut state, tx.sender.as_str(), tx.instruction_data.as_slice());
            let post_state_hash = compute_state_root(&state);
            match result {
                Ok((reads, writes, compute_used)) => {
                    let compute_used = if compute_used <= max_cu { compute_used } else { max_cu };
                    let label = instruction_label(tx.instruction_data.as_slice());
                    builder.add_entry(
                        idx,
                        tx.tx_id.duplicate(),
                        pre_state_hash,
                        label,
                        reads,
                        writes,
                        post_state_hash,
                        compute_used,
                        true,
                        None,
                    );
                },
                Err(e) => {
                    proof {
                        reveal_strlit("failed");
                    }
                    builder.add_entry(
                        idx,
                        tx.tx_id.duplicate(),
                        pre_state_hash,
                        "failed".to_string(),
                        Vec::new(),
                        Vec::new(),
                        post_state_hash,
                        0,
                        false,
                        Some(e.message()),
                    );
                },
            }
            proof {
                lemma_totals_push(entries_before, builder.spec_entries().last());
                assert(builder.spec_entries() == entries_before.push(builder.spec_entries().last()));
                assert forall|i: int| 0 <= i < idx + 1 implies full_entry_ok(
                    #[trigger] builder.spec_entries()[i],
                    i,
                    txs[i],
                    state_after(init, txs, i as nat),
                    max_cu,
                ) by {
                    if i < idx {
                        assert(builder.spec_entries()[i] == entries_before[i]);
                    }
                }
                assert forall|i: int| 0 <= i < idx + 1 implies (#[trigger] builder.spec_entries()[i]).compute_used <= 5000 by {
                    if i < idx {
                        assert(builder.spec_entries()[i] == entries_before[i]);
                    }
                }
            }
            idx = idx + 1;
        }
        let trace = builder.build(&state);
        Ok(trace)
    }
}

/// `opcode_` followed by the leading instruction byte (255 when empty).
fn instruction_label(data: &[u8]) -> (r: String)
    ensures
        r@ == "opcode_"@ + decimal(first_byte_or_255(data@) as nat),
{
    let first: u8 = if data.len() == 0 { 255 } else { data[0] };
    prefixed_decimal("opcode_", first as u64)
}

/// Executes a batch and produces its trace.
pub trait Executor {
    /// The batches this executor can take.
    spec fn accepts(&self, batch: &Batch) -> bool;

    fn execute<C: Clock>(&self, batch: &Batch, clock: &C) -> (r: Result<ExecutionTrace, ExecError>)
        requires
            self.accepts(batch),
    ;
}

/// The account of the sender of transaction `id` in an identifier-only batch.
pub open spec fn sender_key(id: Seq<char>) -> Seq<char> {
    "sender_"@ + id
}

/// The identifier strings of a list of transaction identifiers.
pub open spec fn id_views(ids: Seq<TransactionId>) -> Seq<Seq<char>> {
    ids.map_values(|t: TransactionId| t.0@)
}

/// The state an identifier-only batch starts from: `sender_<id>` holds the
/// initial balance for every identifier.
pub open spec fn id_balances(ids: Seq<Seq<char>>) -> Map<Seq<char>, u64>
    decreases ids.len(),
{
    if ids.len() == 0 {
        Map::empty()
    } else {
        let m = id_balances(ids.drop_last());
        let s = sender_key(ids.last());
        if m.contains_key(s) {
            m
        } else {
            m.insert(s, INITIAL_SENDER_BALANCE)
        }
    }
}

/// The trace of an identifier-only batch: each transaction runs a no-op,
/// so the state never changes and every entry succeeds.
pub open spec fn id_trace_ok(t: ExecutionTrace, batch: Batch, max_cu: u64) -> bool {
    let ids = batch.tx_ids@;
    let init = id_balances(id_views(ids));
    &&& trace_commits(t, batch.batch_id@, init, init)
    &&& t.entries@.len() == ids.len()
    &&& forall|i: int|
        0 <= i < ids.len() ==> {
            let e = #[trigger] t.entries@[i];
            &&& e.tx_idx == i
            &&& e.tx_id.0@ == ids[i].0@
            &&& e.pre_state_hash@ == spec_state_root(init)
            &&& e.post_state_hash@ == spec_state_root(init)
            &&& e.instruction@ == "execute"@
            &&& e.accounts_read@.len() == 0
            &&& e.accounts_written@.len() == 0
            &&& e.compute_used == min_u64(1000, max_cu)
            &&& e.success
            &&& e.error is None
        }
}

impl Executor for DeterministicExecutor {
    open spec fn accepts(&self, batch: &Batch) -> bool {
        batch.tx_ids@.len() * min_u64(1000, self.max_cu()) <= u64::MAX
    }

    /// Executes an identifier-only batch: every sender `sender_<id>` starts
    /// with the initial balance and each transaction runs a no-op.
    fn execute<C: Clock>(&self, batch: &Batch, clock: &C) -> (r: Result<ExecutionTrace, ExecError>)
        ensures
            r matches Ok(t) && id_trace_ok(t, *batch, self.max_cu()),
    {
        let _start_time = clock.now_ms();
        let ghost ids = batch.tx_ids@;
        let mut state = StateMap::new();
        proof {
            reveal_strlit("sender_");
        }
        let mut k: usize = 0;
        while k < batch.tx_ids.len()
            invariant
                k <= ids.len(),
                ids == batch.tx_ids@,
                state@ == id_balances(id_views(ids.take(k as int))),
            decreases ids.len() - k,
        {
            proof {
                assert(id_views(ids.take(k + 1)).drop_last() =~= id_views(ids.take(k as int)));
            }
            state.insert_if_absent(prefixed_decimal_id("sender_", batch.tx_ids[k].as_str()), INITIAL_SENDER_BALANCE);
            k = k + 1;
        }
        assert(ids.take(ids.len() as int) =~= ids);
        let ghost init = id_balances(id_views(ids));
        let cap: u64 = if 1000 <= self.max_cu_per_tx { 1000 } else { self.max_cu_per_tx };
        let mut builder = TraceBuilder::new(batch.batch_id.clone(), &state);
        proof {
            reveal_strlit("execute");
        }
        let mut idx: usize = 0;
        while idx < batch.tx_ids.len()
            invariant
                idx <= ids.len(),
                ids == batch.tx_ids@,
                init == id_balances(id_views(ids)),
                cap == min_u64(1000, self.max_cu()),
                ids.len() * cap <= u64::MAX,
                state@ == init,
                builder.spec_batch_id() == batch.batch_id@,
                builder.spec_pre_state_root() == spec_state_root(init),
                builder.spec_entries().len() == idx,
                builder.spec_total_compute() == total_compute_of(builder.spec_entries()),
                builder.spec_success_count() == success_count_of(builder.spec_entries()),
                builder.spec_failure_count() == idx - success_count_of(builder.spec_entries()),
                forall|i: int| 0 <= i < idx ==> {
                    let e = #[trigger] builder.spec_entries()[i];
                    &&& e.tx_idx == i
                    &&& e.tx_id.0@ == ids[i].0@
                    &&& e.pre_state_hash@ == spec_state_root(init)
                    &&& e.post_state_hash@ == spec_state_root(init)
                    &&& e.instruction@ == "execute"@
                    &&& e.accounts_read@.len() == 0
                    &&& e.accounts_written@.len() == 0
                    &&& e.compute_used == cap
                    &&& e.success
                    &&& e.error is None
                },
            decreases ids.len() - idx,
        {
            let ghost entries_before = builder.spec_entries();
            proof {
                lemma_totals_bounds(entries_before, cap);
                assert(idx * cap + cap <= ids.len() * cap) by (nonlinear_arith)
                    requires idx < ids.len();
            }
            let pre_state_hash = compute_state_root(&state);
            let mut instruction_data: Vec<u8> = Vec::new();
            instruction_data.push(3u8);
            let sender = prefixed_decimal_id("sender_", batch.tx_ids[idx].as_str());
            assert(instruction_data@ =~= seq![3u8]);
            assert(spec_execute_instruction(state@, sender@, instruction_data@, self.fails_on_invalid())
                == Ok::<(Map<Seq<char>, u64>, Seq<Seq<char>>, Seq<Seq<char>>, u64), ExecError>((state@, Seq::empty(), Seq::empty(), 1000u64)));
            let result = self.execute_instruction(&mut state, sender.as_str(), instruction_data.as_slice());
            let post_state_hash = compute_state_root(&state);
            match result {
                Ok((reads, writes, compute_used)) => {
                    assert(reads@.len() == views(reads@).len());
                    assert(writes@.len() == views(writes@).len());
                    let compute_used = if compute_used <= self.max_cu_per_tx { compute_used } else { self.max_cu_per_tx };
                    builder.add_entry(
                        idx,
                        batch.tx_ids[idx].duplicate(),
                        pre_state_hash,
                        "execute".to_string(),
                        reads,
                        writes,
                        post_state_hash,
                        compute_used,
                        true,
                        None,
                    );
                },
                Err(e) => {
                    builder.add_entry(
                        idx,
                        batch.tx_ids[idx].duplicate(),
                        pre_state_hash,
                        "execute".to_string(),
                        Vec::new(),
                        Vec::new(),
                        post_state_hash,
                        0,
                        false,
                        Some(e.message()),
                    );
                },
            }
            proof {
                lemma_totals_push(entries_before, builder.spec_entries().last());
                assert(builder.spec_entries() == entries_before.push(builder.spec_entries().last()));
                assert forall|i: int| 0 <= i < idx + 1 implies {
                    let e = #[trigger] builder.spec_entries()[i];
                    &&& e.tx_idx == i
                    &&& e.tx_id.0@ == ids[i].0@
                    &&& e.pre_state_hash@ == spec_state_root(init)
                    &&& e.post_state_hash@ == spec_state_root(init)
                    &&& e.instruction@ == "execute"@
                    &&& e.accounts_read@.len() == 0
                    &&& e.accounts_written@.len() == 0
                    &&& e.compute_used == cap
                    &&& e.success
                    &&& e.error is None
                } by {
                    if i < idx {
                        assert(builder.spec_entries()[i] == entries_before[i]);
                    }
                }
            }
            idx = idx + 1;
        }
        let trace = builder.build(&state);
        Ok(trace)
    }
}

/// `prefix` followed by `id`.
fn prefixed_decimal_id(prefix: &str, id: &str) -> (r: String)
    ensures
        r@ == prefix@ + id@,
{
    let mut s = String::new();
    s.append(prefix);
    s.append(id);
    s
}

} // verus!
