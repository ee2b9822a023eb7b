use catalyst::onchain::{
    initialize_config, pause, resume, submit_batch, submit_proof, update_policy, verify_proof,
    BatchReceipt, CatalystError, GlobalConfig,
};
use catalyst::pipeline::BatchQueue;
use catalyst::types::{BatchStatus, Transaction, TransactionId, TransactionPriority};

fn tx(id: &str, at: u64, p: TransactionPriority) -> Transaction {
    let mut t = Transaction::new(TransactionId::new(id), "s", "p");
    t.arrival_ts = at;
    t.priority = p;
    t
}

#[test]
fn batch_queue_priority_first() {
    let mut q = BatchQueue::new();
    assert!(q.take_batch(5).is_none());
    q.enqueue(tx("a", 10, TransactionPriority::Normal));
    q.enqueue(tx("b", 11, TransactionPriority::Critical));
    q.enqueue(tx("c", 12, TransactionPriority::Low));
    q.enqueue(tx("d", 13, TransactionPriority::High));
    assert_eq!(q.len(), 4);
    let (n, wait, rate) = q.seal_inputs(110);
    assert_eq!(n, 4);
    assert_eq!(wait, 100);
    assert_eq!(rate.arrivals, 4);
    assert_eq!(rate.window_ms, 110);
    let (batch, txs) = q.take_batch(110).unwrap();
    let ids: Vec<&str> = txs.iter().map(|t| t.tx_id.as_str()).collect();
    assert_eq!(ids, vec!["b", "d", "a", "c"]);
    assert_eq!(batch.batch_id, "batch_000001");
    assert_eq!(batch.size(), 4);
    assert_eq!(batch.seal_ts, 110);
    assert!(q.is_empty());
    q.finish_batch(200);
    let (_, _, rate) = q.seal_inputs(200);
    assert_eq!(rate.window_ms, 1);
    q.enqueue(tx("e", 300, TransactionPriority::Normal));
    let (batch, _) = q.take_batch(300).unwrap();
    assert_eq!(batch.batch_id, "batch_000002");
}

#[test]
fn registry_lifecycle() {
    let mut config = GlobalConfig { authority: [1; 32], paused: true, batch_count: 9, policy_name: [7; 32] };
    initialize_config(&mut config, [2; 32]).unwrap();
    assert_eq!(config.authority, [2; 32]);
    assert!(!config.paused);
    assert_eq!(config.batch_count, 0);
    assert_eq!(config.policy_name, [0; 32]);
    update_policy(&mut config, [3; 32]).unwrap();
    assert_eq!(config.policy_name, [3; 32]);

    let mut receipt = BatchReceipt {
        batch_id: [0; 32],
        batch_hash: [0; 32],
        proof_hash: [0; 32],
        tx_count: 0,
        total_compute: 0,
        verified: false,
        submitter: [0; 32],
        submit_slot: 0,
        verify_slot: 0,
    };
    submit_batch(&mut config, &mut receipt, [4; 32], [5; 32], 3, 900, [6; 32], 11).unwrap();
    assert_eq!(config.batch_count, 1);
    assert_eq!(receipt.tx_count, 3);
    assert_eq!(receipt.submit_slot, 11);
    assert_eq!(verify_proof(&mut receipt, 12), Err(CatalystError::NoProof));
    submit_proof(&mut receipt, [8; 32]).unwrap();
    verify_proof(&mut receipt, 12).unwrap();
    assert!(receipt.verified);
    assert_eq!(receipt.verify_slot, 12);
    assert_eq!(submit_proof(&mut receipt, [9; 32]), Err(CatalystError::AlreadyVerified));
    assert_eq!(receipt.proof_hash, [8; 32]);
    assert_eq!(verify_proof(&mut receipt, 13), Err(CatalystError::AlreadyVerified));

    pause(&mut config).unwrap();
    assert_eq!(update_policy(&mut config, [1; 32]), Err(CatalystError::Paused));
    let mut other = receipt;
    assert_eq!(
        submit_batch(&mut config, &mut other, [1; 32], [1; 32], 1, 1, [1; 32], 1),
        Err(CatalystError::Paused)
    );
    assert_eq!(config.batch_count, 1);
    assert_eq!(CatalystError::Paused.message(), "System is paused");
    resume(&mut config).unwrap();
    assert!(!config.paused);
}

#[test]
fn a_sealed_batch_starts_pending_without_hashes() {
    let mut q = BatchQueue::new();
    q.enqueue(tx("a", 1, TransactionPriority::Normal));
    let (batch, _) = q.take_batch(7).unwrap();
    assert!(batch.batch_hash.is_empty());
    assert_eq!(batch.trace_hash, None);
    assert_eq!(batch.proof_hash, None);
    assert_eq!(batch.status, BatchStatus::Pending);
    assert_eq!(batch.total_cu, 0);
}
