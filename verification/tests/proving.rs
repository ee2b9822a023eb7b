use catalyst::clock::VirtualClock;
use catalyst::executor::{DeterministicExecutor, Executor, FullExecutor};
use catalyst::guest::{
    check_claims, guest_batch_fits, ClaimMismatch, ExecutionTraceInput, SerializableTransaction,
};
use catalyst::hashing::{hash_bytes, hash_str};
use catalyst::proving::{
    assemble_proof, check_provable, check_public_inputs, proof_commitment, reconstruct_inputs,
    rejected_proof,
};
use catalyst::state::{compute_state_root, StateMap};
use catalyst::types::{Batch, ExecutionTrace, Transaction, TransactionId};

fn noop_batch() -> Batch {
    let mut batch = Batch::new("test_batch", 0);
    batch.tx_ids = (1..=5)
        .map(|i| TransactionId::new(&format!("tx_{:08x}", i)))
        .collect();
    batch
}

#[test]
fn test_serializable_transaction() {
    let tx = Transaction::new(TransactionId::new("tx_1"), "alice", "program_1");
    let serializable = SerializableTransaction::from(&tx);
    assert_eq!(serializable.tx_id, "tx_1");
    assert_eq!(serializable.sender, "alice");
}

#[test]
fn test_state_reconstruction_matches_executor() {
    let batch = noop_batch();
    let executor = DeterministicExecutor::new(200_000);
    let clock = VirtualClock::new(0);
    let trace = executor.execute(&batch, &clock).unwrap();

    let mut initial_state = StateMap::new();
    for entry in &trace.entries {
        let sender = format!("sender_{}", entry.tx_id.as_str());
        initial_state.insert_if_absent(sender, 1_000_000);
    }
    let reconstructed_pre = compute_state_root(&initial_state);
    assert_eq!(
        trace.state_root_pre, reconstructed_pre,
        "State root mismatch between executor and prover reconstruction"
    );
}

#[test]
fn guest_accepts_identifier_trace() {
    let batch = noop_batch();
    let executor = DeterministicExecutor::new(200_000);
    let clock = VirtualClock::new(0);
    let trace = executor.execute(&batch, &clock).unwrap();
    let (state, txs) = reconstruct_inputs(&trace);
    assert_eq!(compute_state_root(&state), trace.state_root_pre);
    let stxs: Vec<SerializableTransaction> = txs.iter().map(SerializableTransaction::from).collect();
    let input = ExecutionTraceInput::from(&trace);
    assert_eq!(input.tx_count, 5);
    let public = check_claims(&input, &stxs, &state).unwrap();
    assert_eq!(public.batch_id, "test_batch");
    assert_eq!(public.state_root_post, trace.state_root_post);
    assert_eq!(public.trace_hash, trace.trace_hash);
    assert_eq!(public.total_compute, 5000);
}

fn op(opcode: u8, a: u64, b: u64) -> Vec<u8> {
    let mut d = vec![opcode];
    d.extend_from_slice(&a.to_le_bytes());
    d.extend_from_slice(&b.to_le_bytes());
    d
}

#[test]
fn guest_accepts_successful_full_trace_and_rejects_a_failing_one() {
    let mut t1 = Transaction::new(TransactionId::new("a"), "alice", "p");
    t1.instruction_data = op(0, 10, 1);
    let mut t2 = Transaction::new(TransactionId::new("b"), "bob", "p");
    t2.instruction_data = op(2, 4, 6);
    let batch = Batch::new("b1", 0);
    let clock = VirtualClock::new(0);
    let txs = vec![t1.clone(), t2.clone()];
    let trace = FullExecutor::new(200_000).execute_with_transactions(&batch, &txs, &clock).unwrap();
    let mut init = StateMap::new();
    init.insert("alice".into(), 1_000_000);
    init.insert("bob".into(), 1_000_000);
    let stxs: Vec<SerializableTransaction> = txs.iter().map(SerializableTransaction::from).collect();
    let input = ExecutionTraceInput::from(&trace);
    assert!(check_claims(&input, &stxs, &init).is_ok());

    // a transfer beyond the balance and an unknown opcode fail alike on
    // both sides: nothing read or written, no compute
    let mut t3 = Transaction::new(TransactionId::new("c"), "carol", "p");
    t3.instruction_data = op(0, 5_000_000, 1);
    let mut t4 = Transaction::new(TransactionId::new("d"), "carol", "p");
    t4.instruction_data = vec![4];
    let txs = vec![t3, t4];
    let trace = FullExecutor::new(200_000).execute_with_transactions(&batch, &txs, &clock).unwrap();
    assert_eq!(trace.failure_count, 2);
    assert_eq!(trace.total_compute, 0);
    let mut init = StateMap::new();
    init.insert("carol".into(), 1_000_000);
    let stxs: Vec<SerializableTransaction> = txs.iter().map(SerializableTransaction::from).collect();
    let input = ExecutionTraceInput::from(&trace);
    let public = check_claims(&input, &stxs, &init).unwrap();
    assert_eq!(public.trace_hash, trace.trace_hash);
    assert_eq!(public.total_compute, 0);

    // a tampered claim is still caught
    let mut tampered = ExecutionTraceInput::from(&trace);
    tampered.trace_hash = "x".into();
    let err = check_claims(&tampered, &stxs, &init).unwrap_err();
    assert_eq!(err, ClaimMismatch::TraceHash);
    assert_eq!(err.message(), "Trace hash mismatch");
}

#[test]
fn guest_reports_first_mismatch() {
    let batch = noop_batch();
    let trace = DeterministicExecutor::new(200_000).execute(&batch, &VirtualClock::new(0)).unwrap();
    let (state, txs) = reconstruct_inputs(&trace);
    let stxs: Vec<SerializableTransaction> = txs.iter().map(SerializableTransaction::from).collect();
    let mut input = ExecutionTraceInput::from(&trace);
    input.tx_count = 4;
    assert_eq!(check_claims(&input, &stxs, &state).unwrap_err(), ClaimMismatch::TransactionCount);
    input.total_compute = 1;
    assert_eq!(check_claims(&input, &stxs, &state).unwrap_err(), ClaimMismatch::TotalCompute);
    input.state_root_pre = "x".into();
    assert_eq!(check_claims(&input, &stxs, &state).unwrap_err(), ClaimMismatch::PreStateRoot);
}

#[test]
fn proof_assembly_and_public_input_checks() {
    let batch = noop_batch();
    let trace = DeterministicExecutor::new(200_000).execute(&batch, &VirtualClock::new(0)).unwrap();
    let bytes = vec![1u8, 2, 3];
    let proof = assemble_proof(&trace, bytes.clone(), 42, 77);
    assert_eq!(proof.proof_hash, hash_bytes(&bytes));
    assert_eq!(proof.proof_size_bytes, 3);
    assert_eq!(proof.commitment, proof_commitment(&trace));
    assert_eq!(proof.commitment.batch_hash, hash_str("test_batch"));
    assert_eq!(proof.commitment.tx_count, 5);
    assert!(check_provable(&trace).is_ok());
    let empty = ExecutionTrace::new("e", String::new());
    assert!(check_provable(&empty).is_err());

    let (state, txs) = reconstruct_inputs(&trace);
    let stxs: Vec<SerializableTransaction> = txs.iter().map(SerializableTransaction::from).collect();
    let mut public = check_claims(&ExecutionTraceInput::from(&trace), &stxs, &state).unwrap();
    let ok = check_public_inputs(&proof.batch_id, &public, &trace, 5);
    assert!(ok.is_valid);
    assert_eq!(ok.error, None);
    let mut other_batch = public.clone();
    other_batch.batch_id = "batch_x".into();
    let bad = check_public_inputs(&proof.batch_id, &other_batch, &trace, 5);
    assert!(!bad.is_valid);
    assert_eq!(
        bad.error.as_deref(),
        Some("batch id mismatch: expected test_batch, got batch_x")
    );
    let mut other_count = public.clone();
    other_count.tx_count = 4;
    let bad = check_public_inputs(&proof.batch_id, &other_count, &trace, 5);
    assert!(!bad.is_valid);
    assert_eq!(bad.error.as_deref(), Some("transaction count mismatch"));
    public.total_compute += 1;
    let bad = check_public_inputs(&proof.batch_id, &public, &trace, 5);
    assert!(!bad.is_valid);
    assert_eq!(bad.error.as_deref(), Some("total compute mismatch"));
    public.trace_hash = "h".into();
    let bad = check_public_inputs(&proof.batch_id, &public, &trace, 5);
    assert_eq!(
        bad.error,
        Some(format!("trace hash mismatch: expected {}, got h", trace.trace_hash))
    );
    let rejected = rejected_proof(&proof.batch_id, "bad proof", 9);
    assert!(!rejected.is_valid);
    assert_eq!(rejected.error.as_deref(), Some("SP1 verification failed: bad proof"));
}

#[test]
fn test_guest_execute_matches_executor() {
    // Five transactions (odd) exercise the odd-leaf merkle path.
    let batch = noop_batch();
    let executor = DeterministicExecutor::new(200_000);
    let clock = VirtualClock::new(0);
    let trace = executor.execute(&batch, &clock).unwrap();

    let mut initial_state = StateMap::new();
    for entry in &trace.entries {
        initial_state.insert_if_absent(format!("sender_{}", entry.tx_id.as_str()), 1_000_000);
    }
    let transactions: Vec<Transaction> = trace
        .entries
        .iter()
        .map(|e| {
            let sender = format!("sender_{}", e.tx_id.as_str());
            let mut tx = Transaction::new(e.tx_id.clone(), &sender, "execute");
            tx.instruction_data = vec![3u8];
            tx
        })
        .collect();

    // The guest re-executes the batch; every claim of the trace must hold.
    let stxs: Vec<SerializableTransaction> =
        transactions.iter().map(SerializableTransaction::from).collect();
    let input = ExecutionTraceInput::from(&trace);
    let result = check_claims(&input, &stxs, &initial_state);
    assert!(result.is_ok(), "Guest execution failed: {:?}", result);
}

#[test]
fn guest_batch_fits_refuses_an_overflowing_credit() {
    let mut state = StateMap::new();
    state.insert("account_1".to_string(), u64::MAX - 5);
    state.insert("alice".to_string(), 100);
    let send = |amount: u64| SerializableTransaction {
        tx_id: "t".to_string(),
        sender: "alice".to_string(),
        instruction_data: op(0, amount, 1),
    };
    assert!(guest_batch_fits(&state, &[send(5)]));
    assert!(!guest_batch_fits(&state, &[send(6)]));
    assert!(!guest_batch_fits(&state, &[send(3), send(3)]));
    // A transfer beyond the balance fails and credits nothing.
    assert!(guest_batch_fits(&state, &[send(101)]));
}

#[test]
fn guest_accepts_host_trace_with_malformed_instructions() {
    // An empty instruction and a too-short set-data fail alike on both sides.
    let mut t1 = Transaction::new(TransactionId::new("a"), "alice", "p");
    t1.instruction_data = vec![];
    let mut t2 = Transaction::new(TransactionId::new("b"), "alice", "p");
    t2.instruction_data = vec![1, 2, 3];
    let mut t3 = Transaction::new(TransactionId::new("c"), "alice", "p");
    t3.instruction_data = op(0, 10, 1);
    let txs = vec![t1, t2, t3];
    let batch = Batch::new("b2", 0);
    let trace = FullExecutor::new(200_000)
        .execute_with_transactions(&batch, &txs, &VirtualClock::new(0))
        .unwrap();
    assert_eq!(trace.failure_count, 2);
    let mut init = StateMap::new();
    init.insert("alice".into(), 1_000_000);
    let stxs: Vec<SerializableTransaction> = txs.iter().map(SerializableTransaction::from).collect();
    let public = check_claims(&ExecutionTraceInput::from(&trace), &stxs, &init).unwrap();
    assert_eq!(public.trace_hash, trace.trace_hash);
    assert_eq!(public.total_compute, 5000);
}

#[test]
fn guest_failures_leave_state_and_charge_nothing() {
    let mut state = StateMap::new();
    state.insert("alice".into(), 10);
    let before = compute_state_root(&state);
    for data in [vec![], vec![0u8, 1], vec![1u8, 2, 3], vec![2u8], vec![4u8], vec![255u8], op(0, 11, 1)] {
        let (reads, writes, cu, ok, err) =
            catalyst::guest::execute_instruction(&mut state, "alice", &data);
        assert!(!ok);
        assert!(reads.is_empty() && writes.is_empty());
        assert_eq!(cu, 0);
        assert!(err.is_some());
        assert_eq!(compute_state_root(&state), before);
    }
    let (_, _, cu, ok, _) = catalyst::guest::execute_instruction(&mut state, "alice", &op(0, 10, 1));
    assert!(ok);
    assert_eq!(cu, 5000);
}
