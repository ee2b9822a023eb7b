//! The host side of proving and verifying: the inputs handed to the prover,
//! the commitment a proof carries, and the checks a verifier makes of the
//! public inputs of a cryptographically valid proof.
use vstd::prelude::*;
use vstd::string::*;
use crate::clock::Clock;
use crate::errors::{ProveError, VerifyError};
use crate::executor::{id_balances, id_trace_ok, id_views, min_u64, sender_key, INITIAL_SENDER_BALANCE};
use crate::guest::{
    guest_entry_hashes, guest_state_after, guest_step_at, guest_total_compute, same_text,
    spec_check_claims, spec_guest_step, trace_claim, PublicInputs, SerializableTransaction,
};
use crate::hashing::{hash_bytes, hash_str, spec_hash_bytes, spec_hash_str, spec_merkle_root};
use crate::state::{spec_state_root, StateMap};
use crate::text::{decimal, views};
use crate::trace::{entry_hash, spec_trace_hash};
use crate::types::{
    ExecutionTrace, Proof, ProofCommitment, TraceEntry, Transaction, TransactionId,
    VerificationResult,
};

verus! {

/// Produces a proof for an executed batch.
pub trait Prover {
    fn prove<C: Clock>(&self, trace: &ExecutionTrace, transactions: &[Transaction], clock: &mut C) -> Result<Proof, ProveError>;
}

/// Checks a proof against an execution trace.
pub trait Verifier {
    fn verify<C: Clock>(&self, proof: &Proof, trace: &ExecutionTrace, clock: &mut C) -> Result<VerificationResult, VerifyError>;
}

/// The identifiers of the entries of a trace.
pub open spec fn entry_ids(entries: Seq<TraceEntry>) -> Seq<Seq<char>> {
    entries.map_values(|e: TraceEntry| e.tx_id.0@)
}

/// The inputs a prover hands the guest for a trace of identifier-only
/// transactions: every `sender_<id>` holds the initial balance, and each
/// entry becomes a no-op sent by `sender_<id>` to program `execute`.
pub fn reconstruct_inputs(trace: &ExecutionTrace) -> (r: (StateMap, Vec<Transaction>))
    ensures
        r.0@ == id_balances(entry_ids(trace.entries@)),
        r.1@.len() == trace.entries@.len(),
        forall|i: int|
            0 <= i < trace.entries@.len() ==> {
                let tx = #[trigger] r.1@[i];
                &&& tx.tx_id.0@ == trace.entries@[i].tx_id.0@
                &&& tx.sender@ == sender_key(trace.entries@[i].tx_id.0@)
                &&& tx.program_id@ == "execute"@
                &&& tx.instruction_data@ == seq![3u8]
            },
{
    let ghost ids = entry_ids(trace.entries@);
    let mut state = StateMap::new();
    let mut txs: Vec<Transaction> = Vec::new();
    let mut i: usize = 0;
    while i < trace.entries.len()
        invariant
            i <= trace.entries@.len(),
            ids == entry_ids(trace.entries@),
            state@ == id_balances(ids.take(i as int)),
            txs@.len() == i,
            forall|j: int|
                0 <= j < i ==> {
                    let tx = #[trigger] txs@[j];
                    &&& tx.tx_id.0@ == trace.entries@[j].tx_id.0@
                    &&& tx.sender@ == sender_key(trace.entries@[j].tx_id.0@)
                    &&& tx.program_id@ == "execute"@
                    &&& tx.instruction_data@ == seq![3u8]
                },
        decreases trace.entries@.len() - i,
    {
        let e = &trace.entries[i];
        let mut sender = String::new();
        sender.append("sender_");
        sender.append(e.tx_id.as_str());
        proof {
            assert(ids.take(i + 1).drop_last() =~= ids.take(i as int));
        }
        state.insert_if_absent(sender.clone(), INITIAL_SENDER_BALANCE);
        let mut tx = Transaction::new(e.tx_id.duplicate(), sender.as_str(), "execute");
        let mut data: Vec<u8> = Vec::new();
        data.push(3u8);
        tx.instruction_data = data;
        assert(tx.instruction_data@ =~= seq![3u8]);
        txs.push(tx);
        i = i + 1;
    }
    assert(ids.take(ids.len() as int) =~= ids);
    (state, txs)
}

/// The commitment of a proof of `trace`: the hash of the batch id and the
/// trace's own commitments and totals.
pub fn proof_commitment(trace: &ExecutionTrace) -> (r: ProofCommitment)
    ensures
        r.batch_hash@ == spec_hash_str(trace.batch_id@),
        r.trace_hash@ == trace.trace_hash@,
        r.state_root_pre@ == trace.state_root_pre@,
        r.state_root_post@ == trace.state_root_post@,
        r.total_compute == trace.total_compute,
        r.tx_count == trace.entries@.len(),
{
    ProofCommitment {
        batch_hash: hash_str(trace.batch_id.as_str()),
        trace_hash: trace.trace_hash.clone(),
        state_root_pre: trace.state_root_pre.clone(),
        state_root_post: trace.state_root_post.clone(),
        total_compute: trace.total_compute,
        tx_count: trace.entries.len(),
    }
}

/// A trace must have entries to be proved.
pub fn check_provable(trace: &ExecutionTrace) -> (r: Result<(), ProveError>)
    ensures
        r is Ok <==> trace.entries@.len() > 0,
        r matches Err(ProveError::InvalidTrace(m)) ==> m@ == "empty trace"@,
        r is Err ==> r matches Err(ProveError::InvalidTrace(_)),
{
    if trace.entries.len() == 0 {
        Err(ProveError::InvalidTrace("empty trace".to_string()))
    } else {
        Ok(())
    }
}

/// The proof artifact for `trace` from the serialized proof bytes: its hash
/// is the hash of the bytes and its size their count.
pub fn assemble_proof(
    trace: &ExecutionTrace,
    proof_bytes: Vec<u8>,
    proving_time_ms: u64,
    generated_at: u64,
) -> (r: Proof)
    ensures
        r.batch_id@ == trace.batch_id@,
        r.proof_data@ == proof_bytes@,
        r.proof_hash@ == spec_hash_bytes(proof_bytes@),
        r.commitment.batch_hash@ == spec_hash_str(trace.batch_id@),
        r.commitment.trace_hash@ == trace.trace_hash@,
        r.commitment.state_root_pre@ == trace.state_root_pre@,
        r.commitment.state_root_post@ == trace.state_root_post@,
        r.commitment.total_compute == trace.total_compute,
        r.commitment.tx_count == trace.entries@.len(),
        r.generated_at == generated_at,
        r.proving_time_ms == proving_time_ms,
        r.proof_size_bytes == proof_bytes@.len(),
{
    let proof_hash = hash_bytes(proof_bytes.as_slice());
    let size = proof_bytes.len();
    Proof {
        batch_id: trace.batch_id.clone(),
        proof_data: proof_bytes,
        proof_hash,
        commitment: proof_commitment(trace),
        generated_at,
        proving_time_ms,
        proof_size_bytes: size,
    }
}

/// The verifier's verdict on the public inputs of a proof that passed the
/// cryptographic check: valid when the trace hash, both state roots, the
/// total compute, the batch id and the transaction count all match the
/// trace, otherwise the first mismatch is reported (in that order).
pub open spec fn spec_public_inputs_error(p: PublicInputs, t: ExecutionTrace) -> Option<Seq<char>> {
    if p.trace_hash@ != t.trace_hash@ {
        Some("trace hash mismatch: expected "@ + t.trace_hash@ + ", got "@ + p.trace_hash@)
    } else if p.state_root_pre@ != t.state_root_pre@ {
        Some("pre-state root mismatch"@)
    } else if p.state_root_post@ != t.state_root_post@ {
        Some("post-state root mismatch"@)
    } else if p.total_compute != t.total_compute {
        Some("total compute mismatch"@)
    } else if p.batch_id@ != t.batch_id@ {
        Some("batch id mismatch: expected "@ + t.batch_id@ + ", got "@ + p.batch_id@)
    } else if p.tx_count != t.entries@.len() {
        Some("transaction count mismatch"@)
    } else {
        None
    }
}

/// Every public input equals the trace's: both state roots, the trace hash,
/// the total compute, the batch id and the transaction count.
pub open spec fn inputs_match_trace(p: PublicInputs, t: ExecutionTrace) -> bool {
    &&& p.state_root_pre@ == t.state_root_pre@
    &&& p.state_root_post@ == t.state_root_post@
    &&& p.trace_hash@ == t.trace_hash@
    &&& p.total_compute == t.total_compute
    &&& p.batch_id@ == t.batch_id@
    &&& p.tx_count == t.entries@.len()
}

/// The public inputs pass exactly when every one of them equals the trace's;
/// a post-state root that differs is reported as such when everything checked
/// before it matches.
pub proof fn law_public_inputs_checked(p: PublicInputs, t: ExecutionTrace)
    ensures
        spec_public_inputs_error(p, t) is None <==> inputs_match_trace(p, t),
        p.trace_hash@ == t.trace_hash@ && p.state_root_pre@ == t.state_root_pre@ && p.state_root_post@
            != t.state_root_post@ ==> spec_public_inputs_error(p, t) == Some("post-state root mismatch"@),
        p.trace_hash@ == t.trace_hash@ && p.state_root_pre@ != t.state_root_pre@
            ==> spec_public_inputs_error(p, t) == Some("pre-state root mismatch"@),
{
}

/// Checks the public inputs of a cryptographically valid proof against the trace.
pub fn check_public_inputs(
    batch_id: &String,
    public_inputs: &PublicInputs,
    trace: &ExecutionTrace,
    verification_time_ms: u64,
) -> (r: VerificationResult)
    ensures
        r.batch_id@ == batch_id@,
        r.verification_time_ms == verification_time_ms,
        r.is_valid <==> spec_public_inputs_error(*public_inputs, *trace) is None,
        r.is_valid <==> inputs_match_trace(*public_inputs, *trace),
        r.is_valid <==> r.error is None,
        match spec_public_inputs_error(*public_inputs, *trace) {
            Some(m) => r.error matches Some(e) && e@ == m,
            None => r.error is None,
        },
{
    proof {
        law_public_inputs_checked(*public_inputs, *trace);
    }
    let error: Option<String> = if !same_text(&public_inputs.trace_hash, &trace.trace_hash) {
        let mut m = String::new();
        m.append("trace hash mismatch: expected ");
        m.append(trace.trace_hash.as_str());
        m.append(", got ");
        m.append(public_inputs.trace_hash.as_str());
        Some(m)
    } else if !same_text(&public_inputs.state_root_pre, &trace.state_root_pre) {
        Some("pre-state root mismatch".to_string())
    } else if !same_text(&public_inputs.state_root_post, &trace.state_root_post) {
        Some("post-state root mismatch".to_string())
    } else if public_inputs.total_compute != trace.total_compute {
        Some("total compute mismatch".to_string())
    } else if !same_text(&public_inputs.batch_id, &trace.batch_id) {
        let mut m = String::new();
        m.append("batch id mismatch: expected ");
        m.append(trace.batch_id.as_str());
        m.append(", got ");
        m.append(public_inputs.batch_id.as_str());
        Some(m)
    } else if public_inputs.tx_count != trace.entries.len() {
        Some("transaction count mismatch".to_string())
    } else {
        None
    };
    let is_valid = error.is_none();
    VerificationResult {
        batch_id: batch_id.clone(),
        is_valid,
        verification_time_ms,
        error,
    }
}

/// The verdict when the cryptographic check itself fails with `reason`.
pub fn rejected_proof(batch_id: &String, reason: &str, verification_time_ms: u64) -> (r: VerificationResult)
    ensures
        r.batch_id@ == batch_id@,
        !r.is_valid,
        r.verification_time_ms == verification_time_ms,
        r.error matches Some(e) && e@ == "SP1 verification failed: "@ + reason@,
{
    let mut m = String::new();
    m.append("SP1 verification failed: ");
    m.append(reason);
    VerificationResult {
        batch_id: batch_id.clone(),
        is_valid: false,
        verification_time_ms,
        error: Some(m),
    }
}

/// The guest's transactions are the no-ops that [`reconstruct_inputs`]
/// builds for the entries of a trace.
pub open spec fn reconstructed(stxs: Seq<SerializableTransaction>, entries: Seq<TraceEntry>) -> bool {
    &&& stxs.len() == entries.len()
    &&& forall|i: int|
        0 <= i < entries.len() ==> {
            &&& (#[trigger] stxs[i]).tx_id@ == entries[i].tx_id.0@
            &&& stxs[i].sender@ == sender_key(entries[i].tx_id.0@)
            &&& stxs[i].instruction_data@ == seq![3u8]
        }
}

proof fn lemma_noop_states(init: Map<Seq<char>, u64>, stxs: Seq<SerializableTransaction>, n: nat)
    requires
        n <= stxs.len(),
        forall|i: int| 0 <= i < stxs.len() ==> (#[trigger] stxs[i]).instruction_data@ == seq![3u8],
    ensures
        guest_state_after(init, stxs, n) == init,
    decreases n,
{
    if n > 0 {
        lemma_noop_states(init, stxs, (n - 1) as nat);
        assert(stxs[n - 1].instruction_data@ == seq![3u8]);
    }
}

/// Rebuilding the prover's inputs from an identifier-only trace reproduces
/// its pre-state root, and the guest accepts the trace: re-executing the
/// no-ops from the rebuilt state reproduces every commitment (when the
/// executor records the full no-op cost).
pub proof fn law_guest_accepts_identifier_trace(
    t: ExecutionTrace,
    batch: crate::types::Batch,
    max_cu: u64,
    stxs: Seq<SerializableTransaction>,
)
    requires
        id_trace_ok(t, batch, max_cu),
        max_cu >= 1000,
        reconstructed(stxs, t.entries@),
    ensures
        entry_ids(t.entries@) == id_views(batch.tx_ids@),
        spec_state_root(id_balances(entry_ids(t.entries@))) == t.state_root_pre@,
        spec_check_claims(trace_claim(t), id_balances(entry_ids(t.entries@)), stxs) matches Ok(
            (pre, post, th, tc, n),
        ) && pre == t.state_root_pre@ && post == t.state_root_post@ && th == t.trace_hash@ && tc
            == t.total_compute && n == t.entries@.len(),
{
    let es = t.entries@;
    let n = es.len();
    assert(entry_ids(es) =~= id_views(batch.tx_ids@));
    let init = id_balances(entry_ids(es));
    lemma_noop_states(init, stxs, n);
    assert forall|i: int| 0 <= i < n implies guest_step_at(init, stxs, i) == (
        init,
        Seq::<Seq<char>>::empty(),
        Seq::<Seq<char>>::empty(),
        1000u64,
        true,
        None::<Seq<char>>,
    ) by {
        lemma_noop_states(init, stxs, i as nat);
        assert(stxs[i].instruction_data@ == seq![3u8]);
    }
    assert forall|i: int| 0 <= i < n implies (#[trigger] es[i]).compute_used == guest_step_at(init, stxs, i).3 by {}
    crate::guest::lemma_compute_agrees(init, es, stxs, n);
    assert(es.take(n as int) =~= es);
    let hashes = es.map_values(|e: TraceEntry| entry_hash(e));
    assert(guest_entry_hashes(init, stxs) =~= hashes) by {
        assert forall|i: int| 0 <= i < n implies guest_entry_hashes(init, stxs)[i] == hashes[i] by {
            assert(views(es[i].accounts_read@) =~= Seq::<Seq<char>>::empty());
            assert(views(es[i].accounts_written@) =~= Seq::<Seq<char>>::empty());
            assert(stxs[i].tx_id@ == es[i].tx_id.0@);
        }
    }
    assert(spec_merkle_root(guest_entry_hashes(init, stxs)) == t.trace_hash@);
    assert(guest_total_compute(init, stxs, stxs.len()) == t.total_compute);
    assert(stxs.len() == trace_claim(t).tx_count);
}

} // verus!
