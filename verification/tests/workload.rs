use catalyst::ingress::{steady_delta, Scenario};
use catalyst::types::{Transaction, TransactionPriority};
use catalyst::workload::{bursty_gap, compute_arrival, draw_transaction, generate_instruction, WorkloadCursor};
use rand::rngs::StdRng;
use rand::{Rng, SeedableRng};
use rand_distr::Exp;

/// A workload drawn as the benchmark draws it: the library keeps the count
/// and draws each arrival and transaction, the Poisson gaps are exponential.
fn generate(scenario: Scenario, tx_count: usize, seed: u64, base_interval_ms: u64) -> Vec<Transaction> {
    let mut rng = StdRng::seed_from_u64(seed);
    let mut cursor = WorkloadCursor::new(scenario, tx_count, base_interval_ms);
    let mut txs = Vec::new();
    loop {
        let next = match scenario {
            Scenario::Poisson => {
                if cursor.remaining() == 0 {
                    None
                } else {
                    let exp = Exp::new(1.0 / base_interval_ms as f64).unwrap();
                    let gap = rng.sample(exp).max(1.0) as u64;
                    cursor.next_after_gap(&mut rng, gap, TransactionPriority::Normal)
                }
            }
            _ => cursor.next(&mut rng),
        };
        match next {
            Some(tx) => txs.push(tx),
            None => break,
        }
    }
    txs
}

#[test]
fn cursor_counts_and_stops() {
    let mut rng = StdRng::seed_from_u64(1);
    let mut cursor = WorkloadCursor::new(Scenario::Bursty, 3, 50);
    assert_eq!(cursor.remaining(), 3);
    let mut last = 0;
    for i in 0..3 {
        let tx = cursor.next(&mut rng).unwrap();
        assert_eq!(tx.tx_id.as_str(), format!("tx_{:06}", i));
        assert!(tx.arrival_ts > last);
        last = tx.arrival_ts;
        assert_eq!(cursor.current_time_ms, last);
    }
    assert_eq!(cursor.remaining(), 0);
    assert!(cursor.next(&mut rng).is_none());
    assert_eq!(cursor.generated, 3);
    assert!(cursor.next_after_gap(&mut rng, 5, TransactionPriority::Low).is_none());
    // the clock wraps modulo 2^64
    let mut c = WorkloadCursor::new(Scenario::Poisson, 1, 50);
    c.current_time_ms = u64::MAX - 1;
    let tx = c.next_after_gap(&mut rng, 3, TransactionPriority::Normal).unwrap();
    assert_eq!(tx.arrival_ts, 1);
}

#[test]
fn test_workload_generator_deterministic() {
    let gen1 = generate(Scenario::Steady, 10, 42, 100);
    let gen2 = generate(Scenario::Steady, 10, 42, 100);

    assert_eq!(gen1.len(), gen2.len());
    for (t1, t2) in gen1.iter().zip(gen2.iter()) {
        assert_eq!(t1.tx_id.as_str(), t2.tx_id.as_str());
        assert_eq!(t1.arrival_ts, t2.arrival_ts);
        assert_eq!(t1.estimated_cu, t2.estimated_cu);
    }
}

#[test]
fn test_workload_generator_scenarios() {
    for scenario in Scenario::all() {
        let txs = generate(scenario, 50, 123, 50);
        assert_eq!(txs.len(), 50, "scenario {:?}", scenario);
        for i in 1..txs.len() {
            assert!(
                txs[i].arrival_ts >= txs[i - 1].arrival_ts,
                "scenario {:?} timestamp not monotonic",
                scenario
            );
        }
    }
}

#[test]
fn test_mixed_priority_has_variety() {
    let txs = generate(Scenario::MixedPriority, 200, 456, 20);
    let priorities: std::collections::HashSet<_> = txs.iter().map(|t| t.priority.rank()).collect();
    assert!(priorities.len() > 1, "expected multiple priority levels");
}

#[test]
fn arrivals_stay_in_their_scenario_ranges() {
    let mut rng = StdRng::seed_from_u64(7);
    for _ in 0..200 {
        let (gap, p) = compute_arrival(&mut rng, Scenario::Bursty, 0, 10, 50);
        assert!((1..5).contains(&gap) || (50..200).contains(&gap));
        assert_eq!(p, TransactionPriority::Normal);
        let (gap, _) = compute_arrival(&mut rng, Scenario::MixedPriority, 0, 10, 50);
        assert!((5..50).contains(&gap));
        let (gap, p) = compute_arrival(&mut rng, Scenario::Steady, 0, 10, 50);
        assert!((45..55).contains(&gap));
        assert_eq!(p, TransactionPriority::Normal);
        let (gap, p) = compute_arrival(&mut rng, Scenario::IdleThenSpike, 2, 10, 50);
        assert!((100..500).contains(&gap));
        assert_eq!(p, TransactionPriority::Low);
        let (gap, p) = compute_arrival(&mut rng, Scenario::IdleThenSpike, 5, 10, 50);
        assert!((1..5).contains(&gap));
        assert_eq!(p, TransactionPriority::High);
        let (gap, p) = compute_arrival(&mut rng, Scenario::IdleThenSpike, 7, 10, 50);
        assert!((20..100).contains(&gap));
        assert_eq!(p, TransactionPriority::Normal);
        let data = generate_instruction(&mut rng);
        assert!(data[0] < 5);
        let expected_len = if data[0] <= 2 { 17 } else if data[0] == 3 { 1 } else { 9 };
        assert_eq!(data.len(), expected_len);
    }
}

#[test]
fn generated_transactions_carry_drawn_fields() {
    let mut rng = StdRng::seed_from_u64(11);
    let tx = draw_transaction(&mut rng, 12, 345, TransactionPriority::Critical);
    assert_eq!(tx.tx_id.as_str(), "tx_000012");
    assert_eq!(tx.arrival_ts, 345);
    assert!(tx.sender.starts_with("sender_"));
    assert!(tx.program_id.starts_with("program_"));
    assert!((100_000..200_000).contains(&tx.estimated_cu));
    assert_eq!(tx.priority, TransactionPriority::Critical);
}

#[test]
fn steady_gap_reads_the_interval_as_signed() {
    assert_eq!(steady_delta(50, 0), 45);
    assert_eq!(steady_delta(u64::MAX, 9), 3);
    // the most negative interval moved down wraps to the top of the range
    assert_eq!(steady_delta(1u64 << 63, 0), i64::MAX as u64 - 4);
    assert_eq!(steady_delta(1u64 << 63, 9), 1);
    // i64::MAX + 4 wraps to the most negative values: at least 1 ms
    assert_eq!(steady_delta(i64::MAX as u64, 9), 1);
    assert_eq!(steady_delta(i64::MAX as u64, 5), i64::MAX as u64);
}

#[test]
fn bursty_gaps_follow_the_burst_draw() {
    let mut rng = StdRng::seed_from_u64(3);
    for _ in 0..100 {
        assert!((1..5).contains(&bursty_gap(&mut rng, true)));
        assert!((50..200).contains(&bursty_gap(&mut rng, false)));
    }
}
