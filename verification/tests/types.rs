use catalyst::types::{
    Batch, BatchStatus, ExecutionTrace, SealReason, Transaction, TransactionId,
    TransactionPriority,
};

#[test]
fn test_transaction_id_display() {
    let id = TransactionId::new("tx_123");
    assert_eq!(id.display(), "tx_123");
}

#[test]
fn test_priority_ordering() {
    assert!(TransactionPriority::Critical > TransactionPriority::High);
    assert!(TransactionPriority::High > TransactionPriority::Normal);
    assert!(TransactionPriority::Normal > TransactionPriority::Low);
}

#[test]
fn test_batch_size() {
    let mut batch = Batch::new("batch_1", 1000);
    assert_eq!(batch.size(), 0);
    batch.tx_ids.push(TransactionId::new("tx_1"));
    batch.tx_ids.push(TransactionId::new("tx_2"));
    assert_eq!(batch.size(), 2);
}

#[test]
fn test_seal_reason_display() {
    assert_eq!(SealReason::CountThreshold.display(), "count_threshold");
    assert_eq!(SealReason::Adaptive.display(), "adaptive");
}

#[test]
fn defaults_and_constructors() {
    assert_eq!(TransactionPriority::default(), TransactionPriority::Normal);
    assert_eq!(BatchStatus::default(), BatchStatus::Pending);
    let tx = Transaction::new(TransactionId::new("t"), "alice", "prog");
    assert_eq!(tx.estimated_cu, 200_000);
    assert_eq!(tx.arrival_ts, 0);
    assert!(tx.instruction_data.is_empty());
    assert_eq!(tx.priority, TransactionPriority::Normal);
    assert_eq!(tx.deadline_ms, None);
    let b = Batch::new("b", 7);
    assert_eq!(b.status, BatchStatus::Pending);
    assert_eq!(b.reason_sealed, SealReason::Manual);
    assert_eq!(b.start_ts, 7);
    let t = ExecutionTrace::new("b", "root".to_string());
    assert_eq!(t.state_root_pre, "root");
    assert!(t.entries.is_empty());
    assert_eq!(TransactionPriority::High.rank(), 2);
    assert_eq!(SealReason::PriorityFastLane.display(), "priority_fast_lane");
}
