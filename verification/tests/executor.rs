use catalyst::clock::VirtualClock;
use catalyst::executor::{
    batch_fits, instruction_fits_in, DeterministicExecutor, Executor, FullExecutor, Opcode,
};
use catalyst::state::{compute_state_root, StateMap};
use catalyst::trace::TraceBuilder;
use catalyst::types::{Batch, Transaction, TransactionId, TransactionPriority};

fn make_tx(id: &str, opcode: u8, data: &[u8]) -> Transaction {
    let mut instruction_data = vec![opcode];
    instruction_data.extend_from_slice(data);

    let mut tx = Transaction::new(TransactionId::new(id), "alice", "test_program");
    tx.instruction_data = instruction_data;
    tx.estimated_cu = 100_000;
    tx.priority = TransactionPriority::Normal;
    tx.arrival_ts = 1000;
    tx
}

fn make_batch(tx_ids: Vec<TransactionId>) -> Batch {
    let mut batch = Batch::new("batch_1", 1000);
    batch.tx_ids = tx_ids;
    batch
}

fn operands(a: u64, b: u64) -> Vec<u8> {
    let mut data = Vec::new();
    data.extend_from_slice(&a.to_le_bytes());
    data.extend_from_slice(&b.to_le_bytes());
    data
}

#[test]
fn test_execute_basic() {
    let executor = DeterministicExecutor::new(200_000);
    let clock = VirtualClock::new(0);

    let batch = make_batch(vec![TransactionId::new("tx_1")]);

    let trace = executor.execute(&batch, &clock).unwrap();
    assert_eq!(trace.entries.len(), 1);
    assert!(trace.entries[0].success);
}

#[test]
fn test_full_executor_noop() {
    let executor = FullExecutor::new(200_000);
    let clock = VirtualClock::new(0);

    let tx = make_tx("tx_1", 3, &[]);
    let batch = make_batch(vec![tx.tx_id.clone()]);

    let trace = executor
        .execute_with_transactions(&batch, &[tx], &clock)
        .unwrap();
    assert_eq!(trace.entries.len(), 1);
    assert!(trace.entries[0].success);
}

#[test]
fn test_full_executor_set_data() {
    let executor = FullExecutor::new(200_000);
    let clock = VirtualClock::new(0);

    let key: u64 = 5;
    let value: u64 = 12345;
    let data = operands(key, value);

    let tx = make_tx("tx_1", 1, &data);
    let batch = make_batch(vec![tx.tx_id.clone()]);

    let trace = executor
        .execute_with_transactions(&batch, &[tx], &clock)
        .unwrap();
    assert!(trace.entries[0].success);
    assert!(trace.entries[0]
        .accounts_written
        .contains(&"data_5".to_string()));
}

#[test]
fn test_deterministic_execution() {
    let executor = FullExecutor::new(200_000);
    let clock1 = VirtualClock::new(0);
    let clock2 = VirtualClock::new(0);

    let key: u64 = 1;
    let value: u64 = 999;
    let data = operands(key, value);

    let tx1 = make_tx("tx_1", 1, &data);
    let tx2 = make_tx("tx_2", 2, &data);
    let batch1 = make_batch(vec![tx1.tx_id.clone(), tx2.tx_id.clone()]);
    let batch2 = make_batch(vec![tx1.tx_id.clone(), tx2.tx_id.clone()]);

    let trace1 = executor
        .execute_with_transactions(&batch1, &[tx1.clone(), tx2.clone()], &clock1)
        .unwrap();
    let trace2 = executor
        .execute_with_transactions(&batch2, &[tx1, tx2], &clock2)
        .unwrap();

    assert_eq!(trace1.trace_hash, trace2.trace_hash);
    assert_eq!(trace1.state_root_post, trace2.state_root_post);
}

#[test]
fn test_trace_builder() {
    let mut initial_state = StateMap::new();
    initial_state.insert("alice".into(), 1000);

    let mut builder = TraceBuilder::new("batch_1".into(), &initial_state);

    builder.add_entry(
        0,
        TransactionId::new("tx_1"),
        "pre_hash".into(),
        "transfer".into(),
        vec!["alice".into()],
        vec!["alice".into()],
        "post_hash".into(),
        5000,
        true,
        None,
    );

    let mut final_state = initial_state.duplicate();
    final_state.insert("alice".into(), 900);

    let trace = builder.build(&final_state);

    assert_eq!(trace.batch_id, "batch_1");
    assert_eq!(trace.entries.len(), 1);
    assert!(!trace.trace_hash.is_empty());
    assert_ne!(trace.state_root_pre, trace.state_root_post);
    assert_eq!(trace.total_compute, 5000);
    assert_eq!(trace.success_count, 1);
}

#[test]
fn opcode_from_byte() {
    assert_eq!(Opcode::from(0u8), Opcode::Transfer);
    assert_eq!(Opcode::from(1u8), Opcode::SetData);
    assert_eq!(Opcode::from(2u8), Opcode::Increment);
    assert_eq!(Opcode::from(3u8), Opcode::Noop);
    assert_eq!(Opcode::from(4u8), Opcode::Invalid);
    assert_eq!(Opcode::from_byte(255), Opcode::Invalid);
    assert_eq!(Opcode::Invalid.code(), 255);
    assert_eq!(Opcode::Noop.code(), 3);
    assert_eq!(Opcode::from(2u8).code(), 2);
    assert_eq!(Opcode::from(77u8).code(), 255);
}

#[test]
fn instructions_change_state_as_specified() {
    let ex = DeterministicExecutor::new(200_000);
    let mut state = StateMap::new();
    state.insert("alice".into(), 1000);

    let mut transfer = vec![0u8];
    transfer.extend(operands(300, 7));
    let (reads, writes, cu) = ex.execute_instruction(&mut state, "alice", &transfer).unwrap();
    assert_eq!(reads, vec!["alice".to_string(), "account_7".to_string()]);
    assert_eq!(writes, reads);
    assert_eq!(cu, 5000);
    assert_eq!(state.get("alice"), Some(700));
    assert_eq!(state.get("account_7"), Some(300));

    let mut too_much = vec![0u8];
    too_much.extend(operands(701, 7));
    let err = ex.execute_instruction(&mut state, "alice", &too_much).unwrap_err();
    assert_eq!(err.message(), "insufficient balance for transfer: need 701, have 700");
    assert_eq!(state.get("alice"), Some(700));

    let mut inc = vec![2u8];
    inc.extend(operands(3, u64::MAX));
    ex.execute_instruction(&mut state, "alice", &inc).unwrap();
    ex.execute_instruction(&mut state, "alice", &inc).unwrap();
    assert_eq!(state.get("data_3"), Some(u64::MAX));

    let short = vec![1u8, 0, 0];
    let err = ex.execute_instruction(&mut state, "alice", &short).unwrap_err();
    assert_eq!(err.message(), "invalid instruction opcode: 1");
    let err = ex.execute_instruction(&mut state, "alice", &[]).unwrap_err();
    assert_eq!(err.message(), "invalid instruction opcode: 255");
    let err = ex.execute_instruction(&mut state, "alice", &[9]).unwrap_err();
    assert_eq!(err.message(), "invalid instruction opcode: 9");

    let lenient = DeterministicExecutor::new(200_000).with_fail_on_invalid(false);
    let (_, _, cu) = lenient.execute_instruction(&mut state, "alice", &[9]).unwrap();
    assert_eq!(cu, 500);
}

#[test]
fn failed_transaction_entry() {
    let executor = FullExecutor::new(200_000);
    let clock = VirtualClock::new(0);
    let mut data = Vec::new();
    data.extend(operands(2_000_000, 1));
    let tx = make_tx("tx_1", 0, &data);
    let batch = make_batch(vec![tx.tx_id.clone()]);
    let trace = executor.execute_with_transactions(&batch, &[tx], &clock).unwrap();
    let e = &trace.entries[0];
    assert!(!e.success);
    assert_eq!(e.instruction, "failed");
    assert_eq!(e.compute_used, 0);
    assert_eq!(
        e.error.as_deref(),
        Some("insufficient balance for transfer: need 2000000, have 1000000")
    );
    assert_eq!(e.pre_state_hash, e.post_state_hash);
    assert_eq!(trace.failure_count, 1);
    assert_eq!(trace.success_count, 0);

    let mut init = StateMap::new();
    init.insert("alice".into(), 1_000_000);
    assert_eq!(trace.state_root_pre, compute_state_root(&init));
}

#[test]
fn recorded_compute_is_capped() {
    let executor = FullExecutor::new(1500);
    let clock = VirtualClock::new(0);
    let tx1 = make_tx("tx_1", 1, &operands(1, 2));
    let tx2 = make_tx("tx_2", 3, &[]);
    let batch = make_batch(vec![tx1.tx_id.clone(), tx2.tx_id.clone()]);
    let trace = executor.execute_with_transactions(&batch, &[tx1, tx2], &clock).unwrap();
    assert_eq!(trace.entries[0].compute_used, 1500);
    assert_eq!(trace.entries[0].instruction, "opcode_1");
    assert_eq!(trace.entries[1].compute_used, 1000);
    assert_eq!(trace.total_compute, 2500);
    assert_eq!(trace.entries[1].tx_idx, 1);
}

fn sent_by(sender: &str, id: &str, opcode: u8, a: u64, b: u64) -> Transaction {
    let mut tx = make_tx(id, opcode, &operands(a, b));
    tx.sender = sender.to_string();
    tx
}

#[test]
fn ordinary_batches_fit() {
    let txs = vec![
        make_tx("tx_1", 0, &operands(100, 7)),
        make_tx("tx_2", 2, &operands(3, 9)),
        make_tx("tx_3", 3, &[]),
    ];
    assert!(batch_fits(&txs));
}

#[test]
fn a_credit_past_u64_does_not_fit() {
    // Two data slots raised to the maximum are each moved into account_1:
    // the second credit would overflow.
    let txs = vec![
        sent_by("data_5", "tx_1", 1, 5, u64::MAX),
        sent_by("data_5", "tx_2", 0, u64::MAX, 1),
        sent_by("data_6", "tx_3", 1, 6, u64::MAX),
        sent_by("data_6", "tx_4", 0, u64::MAX, 1),
    ];
    assert!(!batch_fits(&txs));
    assert!(batch_fits(&txs[..3]));

    let mut state = StateMap::new();
    state.insert("account_1".to_string(), u64::MAX);
    state.insert("alice".to_string(), 10);
    assert!(!instruction_fits_in(&state, "alice", &[vec![0u8], operands(1, 1)].concat()));
    assert!(instruction_fits_in(&state, "alice", &[vec![0u8], operands(0, 1)].concat()));
    // Too little balance: the transfer fails and nothing is credited.
    assert!(instruction_fits_in(&state, "alice", &[vec![0u8], operands(11, 1)].concat()));
}
