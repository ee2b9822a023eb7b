//! The proving guest's side: re-executing a batch from its inputs and
//! checking the claimed commitments before they are made public.
use vstd::prelude::*;
use vstd::string::*;
use crate::executor::{
    account_key, data_key, debit_credit, full_entry_ok, full_trace_ok, initial_balances,
    instruction_fits, instruction_fits_in, le_u64_at, saturating, spec_execute_instruction, state_after,
    total_compute_of,
};
use crate::trace::entry_hash;
use crate::hashing::{hash_trace_entry, merkle_root, spec_hash_trace_entry, spec_merkle_root};
use crate::state::{balance, compute_state_root, spec_state_root, StateMap};
use crate::text::{decimal_string, views};
use crate::types::{ExecutionTrace, TraceEntry, Transaction};

verus! {

/// The part of a transaction the guest re-executes.
#[derive(Debug, Clone)]
pub struct SerializableTransaction {
    pub tx_id: String,
    pub sender: String,
    pub instruction_data: Vec<u8>,
}

impl SerializableTransaction {
    /// The identifier, sender and instruction data of `tx`.
    pub fn from(tx: &Transaction) -> (r: Self)
        ensures
            r.tx_id@ == tx.tx_id.0@,
            r.sender@ == tx.sender@,
            r.instruction_data@ == tx.instruction_data@,
    {
        let mut data: Vec<u8> = Vec::new();
        let mut i: usize = 0;
        while i < tx.instruction_data.len()
            invariant
                i <= tx.instruction_data@.len(),
                data@ == tx.instruction_data@.take(i as int),
            decreases tx.instruction_data@.len() - i,
        {
            data.push(tx.instruction_data[i]);
            assert(data@ =~= tx.instruction_data@.take(i + 1));
            i = i + 1;
        }
        assert(tx.instruction_data@.take(tx.instruction_data@.len() as int) =~= tx.instruction_data@);
        SerializableTransaction {
            tx_id: tx.tx_id.0.clone(),
            sender: tx.sender.clone(),
            instruction_data: data,
        }
    }
}

/// The commitments a trace claims, as handed to the guest.
#[derive(Debug, Clone)]
pub struct ExecutionTraceInput {
    pub batch_id: String,
    pub state_root_pre: String,
    pub state_root_post: String,
    pub trace_hash: String,
    pub total_compute: u64,
    pub tx_count: usize,
}

impl ExecutionTraceInput {
    /// The commitments of `trace`; the transaction count is its entry count.
    pub fn from(trace: &ExecutionTrace) -> (r: Self)
        ensures
            r.batch_id@ == trace.batch_id@,
            r.state_root_pre@ == trace.state_root_pre@,
            r.state_root_post@ == trace.state_root_post@,
            r.trace_hash@ == trace.trace_hash@,
            r.total_compute == trace.total_compute,
            r.tx_count == trace.entries@.len(),
    {
        ExecutionTraceInput {
            batch_id: trace.batch_id.clone(),
            state_root_pre: trace.state_root_pre.clone(),
            state_root_post: trace.state_root_post.clone(),
            trace_hash: trace.trace_hash.clone(),
            total_compute: trace.total_compute,
            tx_count: trace.entries.len(),
        }
    }
}

/// The commitments of a claim, as character sequences.
pub struct ClaimView {
    pub state_root_pre: Seq<char>,
    pub state_root_post: Seq<char>,
    pub trace_hash: Seq<char>,
    pub total_compute: u64,
    pub tx_count: usize,
}

impl ExecutionTraceInput {
    pub open spec fn claim_view(&self) -> ClaimView {
        ClaimView {
            state_root_pre: self.state_root_pre@,
            state_root_post: self.state_root_post@,
            trace_hash: self.trace_hash@,
            total_compute: self.total_compute,
            tx_count: self.tx_count,
        }
    }
}

/// The commitments a trace claims.
pub open spec fn trace_claim(t: ExecutionTrace) -> ClaimView {
    ClaimView {
        state_root_pre: t.state_root_pre@,
        state_root_post: t.state_root_post@,
        trace_hash: t.trace_hash@,
        total_compute: t.total_compute,
        tx_count: t.entries.len(),
    }
}

/// What the guest makes public once every claim has been checked.
#[derive(Debug, Clone)]
pub struct PublicInputs {
    pub batch_id: String,
    pub state_root_pre: String,
    pub state_root_post: String,
    pub trace_hash: String,
    pub total_compute: u64,
    pub tx_count: usize,
}

/// The outcome of one guest instruction: state, reads, writes, compute,
/// success and error text.
pub type GuestStep = (Map<Seq<char>, u64>, Seq<Seq<char>>, Seq<Seq<char>>, u64, bool, Option<Seq<char>>);

/// What one instruction does inside the guest. Unlike the host executor the
/// guest never raises: a failure is recorded with its message, and, as on
/// the host, it leaves the state alone, reads and writes nothing and
/// charges no compute.
pub open spec fn spec_guest_step(m: Map<Seq<char>, u64>, sender: Seq<char>, instr: Seq<u8>) -> GuestStep {
    if instr.len() == 0 {
        (m, Seq::empty(), Seq::empty(), 0u64, false, Some("empty instruction"@))
    } else if instr[0] == 0 {
        if instr.len() < 17 {
            (m, Seq::empty(), Seq::empty(), 0u64, false, Some("invalid transfer data"@))
        } else {
            let amount = le_u64_at(instr, 1);
            let target = account_key(le_u64_at(instr, 9));
            if balance(m, sender) < amount {
                (m, Seq::empty(), Seq::empty(), 0u64, false, Some("insufficient balance"@))
            } else {
                (
                    debit_credit(m, sender, target, amount),
                    seq![sender, target],
                    seq![sender, target],
                    5000u64,
                    true,
                    None,
                )
            }
        }
    } else if instr[0] == 1 {
        if instr.len() < 17 {
            (m, Seq::empty(), Seq::empty(), 0u64, false, Some("invalid setdata"@))
        } else {
            let key = data_key(le_u64_at(instr, 1));
            (m.insert(key, le_u64_at(instr, 9)), Seq::empty(), seq![key], 3000u64, true, None)
        }
    } else if instr[0] == 2 {
        if instr.len() < 17 {
            (m, Seq::empty(), Seq::empty(), 0u64, false, Some("invalid increment"@))
        } else {
            let key = data_key(le_u64_at(instr, 1));
            let v = saturating(balance(m, key), le_u64_at(instr, 9));
            (m.insert(key, v), seq![key], seq![key], 2000u64, true, None)
        }
    } else if instr[0] == 3 {
        (m, Seq::empty(), Seq::empty(), 1000u64, true, None)
    } else {
        (m, Seq::empty(), Seq::empty(), 0u64, false, Some("invalid opcode"@))
    }
}

/// Inside the guest a transfer moves `amount` from the sender to
/// `account_<idx>` when the sender holds at least that much (a transfer to
/// oneself changes nothing; other accounts are unchanged) and costs 5000;
/// with less it fails, leaving the state alone and costing nothing.
pub proof fn law_guest_transfer_moves(m: Map<Seq<char>, u64>, sender: Seq<char>, instr: Seq<u8>)
    requires
        instr.len() >= 17,
        instr[0] == 0,
        instruction_fits(m, sender, instr),
    ensures
        ({
            let amount = le_u64_at(instr, 1);
            let target = account_key(le_u64_at(instr, 9));
            let g = spec_guest_step(m, sender, instr);
            &&& balance(m, sender) < amount ==> g.0 == m && !g.4 && g.3 == 0
            &&& balance(m, sender) >= amount ==> g.4 && g.3 == 5000 && (target != sender ==> balance(g.0, sender)
                == balance(m, sender) - amount && balance(g.0, target) == balance(m, target) + amount) && (target
                == sender ==> balance(g.0, sender) == balance(m, sender)) && (forall|a: Seq<char>|
                a != sender && a != target ==> (#[trigger] g.0.contains_key(a) == m.contains_key(a) && g.0[a]
                == m[a]))
        }),
{
}

/// Inside the guest, setting data slot `k` to `v` stores `v` there, changes
/// no other account and costs 3000.
pub proof fn law_guest_set_data_stores(m: Map<Seq<char>, u64>, sender: Seq<char>, instr: Seq<u8>)
    requires
        instr.len() >= 17,
        instr[0] == 1,
    ensures
        ({
            let k = data_key(le_u64_at(instr, 1));
            let g = spec_guest_step(m, sender, instr);
            &&& g.0.contains_key(k) && g.0[k] == le_u64_at(instr, 9)
            &&& forall|a: Seq<char>| a != k ==> (#[trigger] g.0.contains_key(a) == m.contains_key(a) && g.0[a] == m[a])
            &&& g.4 && g.3 == 3000
        }),
{
}

/// Inside the guest too, an increment of data slot `k` by `d` leaves the
/// slot's previous balance plus `d`, capped at `u64::MAX`, changes no other
/// account, succeeds and costs 2000 compute.
pub proof fn law_guest_increment_adds(m: Map<Seq<char>, u64>, sender: Seq<char>, instr: Seq<u8>)
    requires
        instr.len() >= 17,
        instr[0] == 2,
    ensures
        ({
            let k = data_key(le_u64_at(instr, 1));
            let d = le_u64_at(instr, 9);
            let g = spec_guest_step(m, sender, instr);
            &&& g.0.contains_key(k)
            &&& g.0[k] == balance(m, k) + d || (g.0[k] == u64::MAX && balance(m, k) + d > u64::MAX)
            &&& g.0[k] >= balance(m, k)
            &&& forall|a: Seq<char>| a != k ==> (#[trigger] g.0.contains_key(a) == m.contains_key(a) && g.0[a] == m[a])
            &&& g.1 == seq![k] && g.2 == seq![k] && g.3 == 2000 && g.4
        }),
{
}

fn text(s: &str) -> (r: String)
    ensures
        r@ == s@,
{
    s.to_string()
}

fn one(s: String) -> (r: Vec<String>)
    ensures
        views(r@) == seq![s@],
{
    let mut v: Vec<String> = Vec::new();
    v.push(s);
    assert(views(v@) =~= seq![s@]);
    v
}

fn two(a: String, b: String) -> (r: Vec<String>)
    ensures
        views(r@) == seq![a@, b@],
{
    let mut v: Vec<String> = Vec::new();
    v.push(a);
    v.push(b);
    assert(views(v@) =~= seq![a@, b@]);
    v
}

fn none() -> (r: Vec<String>)
    ensures
        views(r@) == Seq::<Seq<char>>::empty(),
        r@.len() == 0,
{
    let v: Vec<String> = Vec::new();
    assert(views(v@) =~= Seq::<Seq<char>>::empty());
    v
}

fn read_u64_at(data: &[u8], start: usize) -> (r: u64)
    requires
        start + 8 <= data@.len(),
    ensures
        r == le_u64_at(data@, start as int),
{
    let n = data.len();
    assert(start + 8 <= n);
    vstd::bytes::u64_from_le_bytes(vstd::slice::slice_subrange(data, start, start + 8))
}

fn keyed(prefix: &str, n: u64) -> (r: String)
    ensures
        r@ == prefix@ + crate::text::decimal(n as nat),
{
    let mut s = String::new();
    s.append(prefix);
    s.append(decimal_string(n).as_str());
    s
}

/// Executes one instruction inside the guest.
pub fn execute_instruction(state: &mut StateMap, sender: &str, instruction_data: &[u8]) -> (r: (
    Vec<String>,
    Vec<String>,
    u64,
    bool,
    Option<String>,
))
    requires
        instruction_fits(old(state)@, sender@, instruction_data@),
    ensures
        ({
            let g = spec_guest_step(old(state)@, sender@, instruction_data@);
            &&& final(state)@ == g.0
            &&& views(r.0@) == g.1
            &&& views(r.1@) == g.2
            &&& r.2 == g.3
            &&& r.3 == g.4
            &&& match g.5 {
                Some(msg) => r.4 matches Some(e) && e@ == msg,
                None => r.4 is None,
            }
        }),
        !r.3 ==> final(state)@ == old(state)@ && r.0@.len() == 0 && r.1@.len() == 0 && r.2 == 0
            && r.4 is Some,
        instruction_data@.len() >= 17 && instruction_data@[0] == 2 ==> r.3 && r.2 == 2000 && final(state)@ == old(state)@.insert(
                data_key(le_u64_at(instruction_data@, 1)),
                if balance(old(state)@, data_key(le_u64_at(instruction_data@, 1))) + le_u64_at(instruction_data@, 9)
                    > u64::MAX {
                    u64::MAX
                } else {
                    (balance(old(state)@, data_key(le_u64_at(instruction_data@, 1))) + le_u64_at(instruction_data@, 9)) as u64
                },
            ),
{
    if instruction_data.len() == 0 {
        return (none(), none(), 0, false, Some(text("empty instruction")));
    }
    let opcode = instruction_data[0];
    if opcode == 0 {
        if instruction_data.len() - 1 < 16 {
            return (none(), none(), 0, false, Some(text("invalid transfer data")));
        }
        let amount = read_u64_at(instruction_data, 1);
        let target_idx = read_u64_at(instruction_data, 9);
        proof {
            reveal_strlit("account_");
        }
        let target = keyed("account_", target_idx);
        let sender_balance = state.get_or_zero(sender);
        if sender_balance < amount {
            return (none(), none(), 0, false, Some(text("insufficient balance")));
        }
        state.insert(sender.to_string(), sender_balance - amount);
        let target_balance = state.get_or_zero(target.as_str());
        state.insert(target.clone(), target_balance + amount);
        (
            two(sender.to_string(), target.clone()),
            two(sender.to_string(), target),
            5000,
            true,
            None,
        )
    } else if opcode == 1 {
        if instruction_data.len() - 1 < 16 {
            return (none(), none(), 0, false, Some(text("invalid setdata")));
        }
        let key_idx = read_u64_at(instruction_data, 1);
        let value = read_u64_at(instruction_data, 9);
        proof {
            reveal_strlit("data_");
        }
        let key = keyed("data_", key_idx);
        state.insert(key.clone(), value);
        (none(), one(key), 3000, true, None)
    } else if opcode == 2 {
        if instruction_data.len() - 1 < 16 {
            return (none(), none(), 0, false, Some(text("invalid increment")));
        }
        let key_idx = read_u64_at(instruction_data, 1);
        let delta = read_u64_at(instruction_data, 9);
        proof {
            reveal_strlit("data_");
        }
        let key = keyed("data_", key_idx);
        let new_value = state.get_or_zero(key.as_str()).saturating_add(delta);
        state.insert(key.clone(), new_value);
        (one(key.clone()), one(key), 2000, true, None)
    } else if opcode == 3 {
        (none(), none(), 1000, true, None)
    } else {
        (none(), none(), 0, false, Some(text("invalid opcode")))
    }
}

/// The guest state after the first `n` transactions.
pub open spec fn guest_state_after(
    init: Map<Seq<char>, u64>,
    txs: Seq<SerializableTransaction>,
    n: nat,
) -> Map<Seq<char>, u64>
    decreases n,
{
    if n == 0 {
        init
    } else {
        let pre = guest_state_after(init, txs, (n - 1) as nat);
        spec_guest_step(pre, txs[n - 1].sender@, txs[n - 1].instruction_data@).0
    }
}

/// The guest step of transaction `i`.
pub open spec fn guest_step_at(init: Map<Seq<char>, u64>, txs: Seq<SerializableTransaction>, i: int) -> GuestStep {
    spec_guest_step(guest_state_after(init, txs, i as nat), txs[i].sender@, txs[i].instruction_data@)
}

/// Every transfer in the batch credits within `u64`.
pub open spec fn guest_run_fits(init: Map<Seq<char>, u64>, txs: Seq<SerializableTransaction>) -> bool {
    forall|i: int|
        0 <= i < txs.len() ==> instruction_fits(
            #[trigger] guest_state_after(init, txs, i as nat),
            txs[i].sender@,
            txs[i].instruction_data@,
        )
}

/// The hash of every guest trace entry, in order.
pub open spec fn guest_entry_hashes(init: Map<Seq<char>, u64>, txs: Seq<SerializableTransaction>) -> Seq<Seq<char>> {
    Seq::new(
        txs.len(),
        |i: int|
            {
                let g = guest_step_at(init, txs, i);
                spec_hash_trace_entry(txs[i].tx_id@, g.4, g.3, g.1, g.2)
            },
    )
}

/// The compute charged for the first `n` transactions.
pub open spec fn guest_total_compute(init: Map<Seq<char>, u64>, txs: Seq<SerializableTransaction>, n: nat) -> int
    decreases n,
{
    if n == 0 {
        0
    } else {
        guest_total_compute(init, txs, (n - 1) as nat) + guest_step_at(init, txs, n - 1).3
    }
}

proof fn lemma_guest_compute_bound(init: Map<Seq<char>, u64>, txs: Seq<SerializableTransaction>, n: nat)
    ensures
        0 <= guest_total_compute(init, txs, n) <= n * 5000,
    decreases n,
{
    if n > 0 {
        lemma_guest_compute_bound(init, txs, (n - 1) as nat);
    }
}

/// Re-executing a batch is running its instructions one after another:
/// each guest step starts from the state the earlier steps left, adds its
/// compute to the total and contributes the hash of its own entry.
pub proof fn law_guest_run_steps(init: Map<Seq<char>, u64>, txs: Seq<SerializableTransaction>, n: nat)
    requires
        n < txs.len(),
    ensures
        ({
            let g = spec_guest_step(guest_state_after(init, txs, n), txs[n as int].sender@, txs[n as int].instruction_data@);
            &&& guest_state_after(init, txs, n + 1) == g.0
            &&& guest_total_compute(init, txs, n + 1) == guest_total_compute(init, txs, n) + g.3
            &&& guest_entry_hashes(init, txs)[n as int] == spec_hash_trace_entry(txs[n as int].tx_id@, g.4, g.3, g.1, g.2)
        }),
        guest_state_after(init, txs, 0) == init,
        guest_total_compute(init, txs, 0) == 0,
        guest_entry_hashes(init, txs).len() == txs.len(),
{
}

/// Re-executes a batch from `initial_state`: the pre-state root, the
/// post-state root, the total compute and the hash of every entry.
pub fn execute_batch(initial_state: &StateMap, transactions: &[SerializableTransaction]) -> (r: (
    String,
    String,
    u64,
    Vec<String>,
))
    requires
        guest_run_fits(initial_state@, transactions@),
        transactions@.len() * 5000 <= u64::MAX,
    ensures
        r.0@ == spec_state_root(initial_state@),
        r.1@ == spec_state_root(guest_state_after(initial_state@, transactions@, transactions@.len())),
        r.2 == guest_total_compute(initial_state@, transactions@, transactions@.len()),
        views(r.3@) == guest_entry_hashes(initial_state@, transactions@),
{
    let ghost init = initial_state@;
    let ghost txs = transactions@;
    let mut state = initial_state.duplicate();
    let state_root_pre = compute_state_root(&state);
    let mut total_compute: u64 = 0;
    let mut entry_hashes: Vec<String> = Vec::new();
    let mut i: usize = 0;
    while i < transactions.len()
        invariant
            i <= txs.len(),
            txs == transactions@,
            guest_run_fits(init, txs),
            txs.len() * 5000 <= u64::MAX,
            state@ == guest_state_after(init, txs, i as nat),
            total_compute == guest_total_compute(init, txs, i as nat),
            entry_hashes@.len() == i,
            forall|j: int| 0 <= j < i ==> #[trigger] entry_hashes@[j]@ == guest_entry_hashes(init, txs)[j],
        decreases txs.len() - i,
    {
        let tx = &transactions[i];
        proof {
            let ii: int = i as int;
            assert(instruction_fits(guest_state_after(init, txs, ii as nat), txs[ii].sender@, txs[ii].instruction_data@));
            lemma_guest_compute_bound(init, txs, i as nat);
            assert(i * 5000 + 5000 <= txs.len() * 5000) by (nonlinear_arith)
                requires i < txs.len();
        }
        let (reads, writes, compute, success, _error) = execute_instruction(
            &mut state,
            tx.sender.as_str(),
            tx.instruction_data.as_slice(),
        );
        total_compute = total_compute + compute;
        let entry_hash = hash_trace_entry(tx.tx_id.as_str(), success, compute, &reads, &writes);
        entry_hashes.push(entry_hash);
        i = i + 1;
    }
    let state_root_post = compute_state_root(&state);
    assert(views(entry_hashes@) =~= guest_entry_hashes(init, txs));
    (state_root_pre, state_root_post, total_compute, entry_hashes)
}

/// Whether every transfer of the batch, re-executed in the guest from
/// `initial_state`, credits within `u64`: the condition under which
/// [`execute_batch`] and [`check_claims`] run it.
pub fn guest_batch_fits(initial_state: &StateMap, transactions: &[SerializableTransaction]) -> (r: bool)
    ensures
        r == guest_run_fits(initial_state@, transactions@),
{
    let ghost init = initial_state@;
    let ghost txs = transactions@;
    let mut state = initial_state.duplicate();
    let mut i: usize = 0;
    while i < transactions.len()
        invariant
            i <= txs.len(),
            txs == transactions@,
            init == initial_state@,
            state@ == guest_state_after(init, txs, i as nat),
            forall|j: int|
                0 <= j < i ==> instruction_fits(
                    #[trigger] guest_state_after(init, txs, j as nat),
                    txs[j].sender@,
                    txs[j].instruction_data@,
                ),
        decreases txs.len() - i,
    {
        let tx = &transactions[i];
        if !instruction_fits_in(&state, tx.sender.as_str(), tx.instruction_data.as_slice()) {
            proof {
                let ii: int = i as int;
                assert(!instruction_fits(
                    guest_state_after(init, txs, ii as nat),
                    txs[ii].sender@,
                    txs[ii].instruction_data@,
                ));
            }
            return false;
        }
        let _ = execute_instruction(&mut state, tx.sender.as_str(), tx.instruction_data.as_slice());
        i = i + 1;
    }
    true
}

/// The first claim that re-execution does not reproduce.
#[derive(Debug, Clone, Copy, PartialEq, Eq)]
pub enum ClaimMismatch {
    PreStateRoot,
    PostStateRoot,
    TraceHash,
    TotalCompute,
    TransactionCount,
}

impl ClaimMismatch {
    pub open spec fn spec_message(self) -> Seq<char> {
        match self {
            ClaimMismatch::PreStateRoot => "Pre-state root mismatch"@,
            ClaimMismatch::PostStateRoot => "Post-state root mismatch"@,
            ClaimMismatch::TraceHash => "Trace hash mismatch"@,
            ClaimMismatch::TotalCompute => "Total compute mismatch"@,
            ClaimMismatch::TransactionCount => "Transaction count mismatch"@,
        }
    }

    /// The message the guest aborts with.
    pub fn message(&self) -> (r: String)
        ensures
            r@ == self.spec_message(),
    {
        match self {
            ClaimMismatch::PreStateRoot => "Pre-state root mismatch".to_string(),
            ClaimMismatch::PostStateRoot => "Post-state root mismatch".to_string(),
            ClaimMismatch::TraceHash => "Trace hash mismatch".to_string(),
            ClaimMismatch::TotalCompute => "Total compute mismatch".to_string(),
            ClaimMismatch::TransactionCount => "Transaction count mismatch".to_string(),
        }
    }
}

/// The guest's verdict on a claimed trace: the public inputs when every
/// claim is reproduced by re-execution, otherwise the first claim (in the
/// order pre-state root, post-state root, trace hash, total compute,
/// transaction count) that is not.
pub open spec fn spec_check_claims(
    claim: ClaimView,
    init: Map<Seq<char>, u64>,
    txs: Seq<SerializableTransaction>,
) -> Result<(Seq<char>, Seq<char>, Seq<char>, u64, usize), ClaimMismatch> {
    let pre = spec_state_root(init);
    let post = spec_state_root(guest_state_after(init, txs, txs.len()));
    let th = spec_merkle_root(guest_entry_hashes(init, txs));
    let tc = guest_total_compute(init, txs, txs.len());
    if pre != claim.state_root_pre {
        Err(ClaimMismatch::PreStateRoot)
    } else if post != claim.state_root_post {
        Err(ClaimMismatch::PostStateRoot)
    } else if th != claim.trace_hash {
        Err(ClaimMismatch::TraceHash)
    } else if tc != claim.total_compute {
        Err(ClaimMismatch::TotalCompute)
    } else if txs.len() != claim.tx_count {
        Err(ClaimMismatch::TransactionCount)
    } else {
        Ok((pre, post, th, tc as u64, txs.len() as usize))
    }
}

/// Every claim equals what re-executing the batch from `init` gives: both
/// state roots, the trace hash over the entry hashes, the total compute and
/// the transaction count.
pub open spec fn claims_reproduced(
    claim: ClaimView,
    init: Map<Seq<char>, u64>,
    txs: Seq<SerializableTransaction>,
) -> bool {
    &&& claim.state_root_pre == spec_state_root(init)
    &&& claim.state_root_post == spec_state_root(guest_state_after(init, txs, txs.len()))
    &&& claim.trace_hash == spec_merkle_root(guest_entry_hashes(init, txs))
    &&& claim.total_compute == guest_total_compute(init, txs, txs.len())
    &&& claim.tx_count == txs.len()
}

/// The guest accepts a claim exactly when every claimed commitment equals its
/// recomputation, and then makes public the claimed values themselves; a
/// claim it rejects is wrong in the commitment it names.
pub proof fn law_claims_checked(claim: ClaimView, init: Map<Seq<char>, u64>, txs: Seq<SerializableTransaction>)
    ensures
        spec_check_claims(claim, init, txs) is Ok <==> claims_reproduced(claim, init, txs),
        spec_check_claims(claim, init, txs) matches Ok((pre, post, th, tc, n)) ==> pre == claim.state_root_pre
            && post == claim.state_root_post && th == claim.trace_hash && tc == claim.total_compute
            && n == claim.tx_count,
        spec_check_claims(claim, init, txs) == Err::<(Seq<char>, Seq<char>, Seq<char>, u64, usize), ClaimMismatch>(
            ClaimMismatch::PostStateRoot,
        ) ==> claim.state_root_post != spec_state_root(guest_state_after(init, txs, txs.len())),
        spec_check_claims(claim, init, txs) == Err::<(Seq<char>, Seq<char>, Seq<char>, u64, usize), ClaimMismatch>(
            ClaimMismatch::PreStateRoot,
        ) ==> claim.state_root_pre != spec_state_root(init),
        spec_check_claims(claim, init, txs) == Err::<(Seq<char>, Seq<char>, Seq<char>, u64, usize), ClaimMismatch>(
            ClaimMismatch::TraceHash,
        ) ==> claim.trace_hash != spec_merkle_root(guest_entry_hashes(init, txs)),
        spec_check_claims(claim, init, txs) == Err::<(Seq<char>, Seq<char>, Seq<char>, u64, usize), ClaimMismatch>(
            ClaimMismatch::TotalCompute,
        ) ==> claim.total_compute != guest_total_compute(init, txs, txs.len()),
        spec_check_claims(claim, init, txs) == Err::<(Seq<char>, Seq<char>, Seq<char>, u64, usize), ClaimMismatch>(
            ClaimMismatch::TransactionCount,
        ) ==> claim.tx_count != txs.len(),
{
}

/// Re-executes the batch and checks every claim of `trace`; the public
/// inputs carry the batch id and the recomputed commitments.
pub fn check_claims(
    trace: &ExecutionTraceInput,
    transactions: &[SerializableTransaction],
    initial_state: &StateMap,
) -> (r: Result<PublicInputs, ClaimMismatch>)
    requires
        guest_run_fits(initial_state@, transactions@),
        transactions@.len() * 5000 <= u64::MAX,
    ensures
        match spec_check_claims(trace.claim_view(), initial_state@, transactions@) {
            Ok((pre, post, th, tc, n)) => r matches Ok(p) && p.batch_id@ == trace.batch_id@
                && p.state_root_pre@ == pre && p.state_root_post@ == post && p.trace_hash@ == th
                && p.total_compute == tc && p.tx_count == n,
            Err(m) => r matches Err(e) && e == m,
        },
        r is Ok <==> claims_reproduced(trace.claim_view(), initial_state@, transactions@),
        r matches Ok(p) ==> p.state_root_post@ == trace.state_root_post@ && p.state_root_pre@
            == trace.state_root_pre@ && p.trace_hash@ == trace.trace_hash@ && p.total_compute
            == trace.total_compute && p.tx_count == trace.tx_count && p.batch_id@ == trace.batch_id@,
{
    proof {
        law_claims_checked(trace.claim_view(), initial_state@, transactions@);
    }
    let (pre, post, compute, entry_hashes) = execute_batch(initial_state, transactions);
    let trace_hash = merkle_root(entry_hashes.as_slice());
    if !same_text(&pre, &trace.state_root_pre) {
        return Err(ClaimMismatch::PreStateRoot);
    }
    if !same_text(&post, &trace.state_root_post) {
        return Err(ClaimMismatch::PostStateRoot);
    }
    if !same_text(&trace_hash, &trace.trace_hash) {
        return Err(ClaimMismatch::TraceHash);
    }
    if compute != trace.total_compute {
        return Err(ClaimMismatch::TotalCompute);
    }
    if transactions.len() != trace.tx_count {
        return Err(ClaimMismatch::TransactionCount);
    }
    Ok(PublicInputs {
        batch_id: trace.batch_id.clone(),
        state_root_pre: pre,
        state_root_post: post,
        trace_hash,
        total_compute: compute,
        tx_count: transactions.len(),
    })
}

/// Whether two strings hold the same characters.
pub fn same_text(a: &String, b: &String) -> (r: bool)
    ensures
        r == (a@ == b@),
{
    a.eq(b)
}

/// The guest's transactions are the host's, field for field.
pub open spec fn same_transactions(stxs: Seq<SerializableTransaction>, txs: Seq<Transaction>) -> bool {
    &&& stxs.len() == txs.len()
    &&& forall|i: int|
        0 <= i < txs.len() ==> {
            &&& (#[trigger] stxs[i]).tx_id@ == txs[i].tx_id.0@
            &&& stxs[i].sender@ == txs[i].sender@
            &&& stxs[i].instruction_data@ == txs[i].instruction_data@
        }
}

/// Every host instruction does the same inside the guest: a success has the
/// same effect, reads, writes and compute; a failure leaves the state alone
/// and records nothing and no compute in both.
pub proof fn lemma_step_agrees(m: Map<Seq<char>, u64>, sender: Seq<char>, instr: Seq<u8>)
    ensures
        ({
            let g = spec_guest_step(m, sender, instr);
            match spec_execute_instruction(m, sender, instr, true) {
                Ok(h) => g == (h.0, h.1, h.2, h.3, true, None::<Seq<char>>),
                Err(_) => g.0 == m && g.1 == Seq::<Seq<char>>::empty() && g.2 == Seq::<Seq<char>>::empty()
                    && g.3 == 0 && !g.4,
            }
        }),
{
}

proof fn lemma_states_agree(
    init: Map<Seq<char>, u64>,
    txs: Seq<Transaction>,
    stxs: Seq<SerializableTransaction>,
    n: nat,
)
    requires
        n <= txs.len(),
        same_transactions(stxs, txs),
    ensures
        guest_state_after(init, stxs, n) == state_after(init, txs, n),
    decreases n,
{
    if n > 0 {
        let k = (n - 1) as nat;
        lemma_states_agree(init, txs, stxs, k);
        let pre = state_after(init, txs, k);
        assert(stxs[k as int].sender@ == txs[k as int].sender@);
        lemma_step_agrees(pre, txs[k as int].sender@, txs[k as int].instruction_data@);
    }
}

pub proof fn lemma_compute_agrees(
    init: Map<Seq<char>, u64>,
    entries: Seq<TraceEntry>,
    stxs: Seq<SerializableTransaction>,
    n: nat,
)
    requires
        n <= entries.len(),
        n <= stxs.len(),
        forall|i: int| 0 <= i < n ==> (#[trigger] entries[i]).compute_used == guest_step_at(init, stxs, i).3,
    ensures
        total_compute_of(entries.take(n as int)) == guest_total_compute(init, stxs, n),
    decreases n,
{
    if n > 0 {
        let k = (n - 1) as nat;
        lemma_compute_agrees(init, entries, stxs, k);
        assert(entries.take(n as int).drop_last() =~= entries.take(k as int));
        assert(entries.take(n as int).last() == entries[k as int]);
    }
}

/// The guest accepts what the host honestly executed: when no recorded
/// compute is clamped, re-executing the same transactions from the same
/// initial balances reproduces every commitment of the host's trace, failed
/// instructions included.
pub proof fn law_guest_accepts_host_trace(
    t: ExecutionTrace,
    batch_id: Seq<char>,
    txs: Seq<Transaction>,
    stxs: Seq<SerializableTransaction>,
    max_cu: u64,
)
    requires
        full_trace_ok(t, batch_id, txs, max_cu),
        max_cu >= 5000,
        same_transactions(stxs, txs),
    ensures
        spec_check_claims(trace_claim(t), initial_balances(txs), stxs) matches Ok(
            (pre, post, th, tc, n),
        ) && pre == t.state_root_pre@ && post == t.state_root_post@ && th == t.trace_hash@ && tc
            == t.total_compute && n == t.entries@.len(),
{
    let init = initial_balances(txs);
    let n = txs.len();
    lemma_states_agree(init, txs, stxs, n);
    let es = t.entries@;
    assert forall|i: int| 0 <= i < n implies (#[trigger] es[i]).compute_used == guest_step_at(init, stxs, i).3
        && entry_hash(es[i]) == guest_entry_hashes(init, stxs)[i] by {
        let pre = state_after(init, txs, i as nat);
        lemma_states_agree(init, txs, stxs, i as nat);
        assert(stxs[i].sender@ == txs[i].sender@);
        assert(stxs[i].tx_id@ == txs[i].tx_id.0@);
        lemma_step_agrees(pre, txs[i].sender@, txs[i].instruction_data@);
        assert(full_entry_ok(es[i], i, txs[i], pre, max_cu));
        if spec_execute_instruction(pre, txs[i].sender@, txs[i].instruction_data@, true) is Err {
            assert(views(es[i].accounts_read@) =~= Seq::<Seq<char>>::empty());
            assert(views(es[i].accounts_written@) =~= Seq::<Seq<char>>::empty());
        }
    }
    lemma_compute_agrees(init, es, stxs, n);
    assert(es.take(n as int) =~= es);
    let hashes = es.map_values(|e: TraceEntry| entry_hash(e));
    assert(guest_entry_hashes(init, stxs) =~= hashes);
    assert(spec_state_root(init) == t.state_root_pre@);
    assert(spec_state_root(guest_state_after(init, stxs, stxs.len())) == t.state_root_post@);
    assert(spec_merkle_root(guest_entry_hashes(init, stxs)) == t.trace_hash@);
    assert(guest_total_compute(init, stxs, stxs.len()) == t.total_compute);
    assert(stxs.len() == trace_claim(t).tx_count);
}

} // verus!
