use catalyst::metrics::{batch_counts, metric_totals, sort_ascending, BatchCounts};
use catalyst::proving::{assemble_proof, rejected_proof};
use catalyst::types::{ExecutionTrace, VerificationResult};

fn counts(latency: u64, size: usize) -> BatchCounts {
    BatchCounts {
        batch_size: size,
        total_compute_used: size as u64 * 1000,
        execution_time_ms: 10,
        proving_time_ms: 50,
        verification_time_ms: 5,
        end_to_end_latency_ms: latency,
        proof_size_bytes: 1000,
        verification_passed: true,
    }
}

#[test]
fn totals_of_no_batches() {
    let t = metric_totals(&[], 100).unwrap();
    assert_eq!(t.total_batches, 0);
    assert_eq!(t.total_transactions, 0);
    assert!(t.sorted_latencies_ms.is_empty());
}

#[test]
fn totals_of_one_batch() {
    let t = metric_totals(&[counts(100, 10)], 200).unwrap();
    assert_eq!(t.total_batches, 1);
    assert_eq!(t.total_transactions, 10);
    assert_eq!(t.sorted_latencies_ms, vec![100]);
    assert_eq!(t.sla_violations, 0);
    assert_eq!(t.verification_successes, 1);
}

#[test]
fn totals_count_sla_violations() {
    let batches = vec![counts(150, 15), counts(50, 5), counts(200, 20), counts(100, 10)];
    let t = metric_totals(&batches, 120).unwrap();
    assert_eq!(t.total_batches, 4);
    assert_eq!(t.total_transactions, 50);
    // 150 and 200 exceed the 120 ms target.
    assert_eq!(t.sla_violations, 2);
    assert_eq!(t.sorted_latencies_ms, vec![50, 100, 150, 200]);
    assert_eq!(t.total_proof_size_bytes, 4000);
    assert_eq!(t.total_compute_used, 50_000);
    assert_eq!(t.total_execution_ms, 40);
    assert_eq!(t.total_overhead_ms, 220);
}

#[test]
fn totals_count_failed_verifications() {
    let mut failed = counts(10, 1);
    failed.verification_passed = false;
    let t = metric_totals(&[counts(10, 1), failed, counts(10, 1)], 1000).unwrap();
    assert_eq!(t.verification_successes, 2);
}

#[test]
fn totals_that_do_not_fit_are_refused() {
    let mut big = counts(10, 1);
    big.proof_size_bytes = u64::MAX;
    assert!(metric_totals(&[big, counts(10, 1)], 1000).is_none());
    let mut slow = counts(10, 1);
    slow.execution_time_ms = u64::MAX - 10;
    assert!(metric_totals(&[slow], 1000).is_none());
    assert!(metric_totals(&[big], 1000).is_some());
}

#[test]
fn sorting_keeps_every_latency() {
    let v = vec![5, 3, 9, 3, 1, 7];
    assert_eq!(sort_ascending(&v), vec![1, 3, 3, 5, 7, 9]);
}

#[test]
fn batch_counts_of_a_processed_batch() {
    let mut trace = ExecutionTrace::new("batch_000001", "pre".to_string());
    trace.total_compute = 12_345;
    let proof = assemble_proof(&trace, vec![1, 2, 3], 40, 99);
    let verification = VerificationResult {
        batch_id: "batch_000001".to_string(),
        is_valid: true,
        verification_time_ms: 7,
        error: None,
    };
    let c = batch_counts(3, &trace, &proof, &verification, 100, 250);
    assert_eq!(c.batch_size, 3);
    assert_eq!(c.execution_time_ms, 12);
    assert_eq!(c.proving_time_ms, 40);
    assert_eq!(c.verification_time_ms, 7);
    assert_eq!(c.end_to_end_latency_ms, 150);
    assert_eq!(c.proof_size_bytes, 3);
    assert!(c.verification_passed);
    let rejected = rejected_proof(&"batch_000001".to_string(), "bad", 1);
    let c2 = batch_counts(3, &trace, &proof, &rejected, 300, 250);
    assert_eq!(c2.end_to_end_latency_ms, 0);
    assert!(!c2.verification_passed);
}
