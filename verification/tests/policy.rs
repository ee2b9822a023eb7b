use catalyst::policy::{
    adaptive_should_seal, latency_ema, policy_kind_for_lowercase, policy_kind_for_name, ArrivalRate,
    AutoPolicy, FixedCountPolicy, FixedTimePolicy, GrowthRate, HybridPolicy, PolicyConfig,
    PolicyEngine, PolicyKind, PriorityAwarePolicy, TrafficPattern,
};

fn per_second(n: u64) -> ArrivalRate {
    ArrivalRate { arrivals: n, window_ms: 1000 }
}

#[test]
fn test_fixed_count_policy() {
    let policy = FixedCountPolicy::new(10);
    assert!(!policy.should_seal(5, 1000, per_second(1)));
    assert!(policy.should_seal(10, 0, per_second(1)));
    assert!(policy.should_seal(15, 0, per_second(1)));
}

#[test]
fn test_fixed_time_policy() {
    let policy = FixedTimePolicy::new(100);
    assert!(!policy.should_seal(0, 200, per_second(1)));
    assert!(!policy.should_seal(5, 50, per_second(1)));
    assert!(policy.should_seal(5, 100, per_second(1)));
    assert!(policy.should_seal(1, 200, per_second(1)));
}

#[test]
fn test_hybrid_policy() {
    let policy = HybridPolicy::new(10, 100);
    assert!(!policy.should_seal(5, 50, per_second(1)));
    assert!(policy.should_seal(10, 0, per_second(1)));
    assert!(policy.should_seal(5, 100, per_second(1)));
}

#[test]
fn priority_aware_policy() {
    let policy = PriorityAwarePolicy::new(10, 100, 3);
    assert!(!policy.should_seal_for_critical(2));
    assert!(policy.should_seal_for_critical(3));
    assert!(policy.should_seal(10, 0, per_second(1)));
    assert!(!policy.should_seal(0, 500, per_second(1)));
    assert_eq!(policy.name(), "PriorityAware");
}

#[test]
fn policy_names_and_kinds() {
    assert_eq!(FixedCountPolicy::new(1).name(), "FixedCount");
    assert_eq!(FixedTimePolicy::new(1).name(), "FixedTime");
    assert_eq!(HybridPolicy::new(1, 1).name(), "Hybrid");
    assert_eq!(policy_kind_for_name("hybrid"), PolicyKind::Hybrid);
    assert_eq!(policy_kind_for_name("ADAPTIVE"), PolicyKind::Adaptive);
    assert_eq!(policy_kind_for_name("Fixed_Count"), PolicyKind::FixedCount);
    assert_eq!(policy_kind_for_name("fixedtime"), PolicyKind::FixedTime);
    assert_eq!(policy_kind_for_name("PriorityAware"), PolicyKind::PriorityAware);
    assert_eq!(policy_kind_for_name("something"), PolicyKind::Hybrid);
    assert_eq!(policy_kind_for_lowercase("priority"), PolicyKind::PriorityAware);
    let c = PolicyConfig::default();
    assert_eq!(c.count_threshold, 100);
    assert_eq!(c.time_threshold_ms, 500);
    assert_eq!(c.latency_budget_ms, 1000);
    assert_eq!(c.max_batch_size, 500);
    assert_eq!(c.critical_threshold, 5);
}

#[test]
fn adaptive_rule_and_smoothing() {
    assert!(!adaptive_should_seal(0, 0, per_second(1), 10, 100, 500, 1));
    assert!(adaptive_should_seal(10, 0, per_second(1), 10, 100, 500, 1));
    assert!(adaptive_should_seal(5, 500, per_second(1), 10, 1000, 500, 1));
    assert!(adaptive_should_seal(1, 0, per_second(101), 10, 1000, 500, 1));
    assert!(!adaptive_should_seal(1, 0, per_second(100), 10, 1000, 500, 1));
    let mut obs = 0;
    for _ in 0..10 {
        obs = latency_ema(obs, 450);
    }
    assert_eq!(obs, 436);
}

#[test]
fn auto_policy_patterns() {
    let mut p = AutoPolicy::new(5, 50, 1000);
    assert_eq!(p.current_pattern(), TrafficPattern::Idle);
    assert_eq!(p.name(), "Auto");
    // before any arrival: threshold 5, time limit 1000
    assert!(p.should_seal(5, 0, per_second(0)));
    assert!(!p.should_seal(4, 999, per_second(0)));
    assert!(p.should_seal(4, 1000, per_second(0)));
    // evenly spaced arrivals: steady, threshold (5 + 50) / 2, limit 500
    for t in 1..=10u64 {
        p.record_arrival(10_000 + t * 100);
    }
    assert_eq!(p.current_pattern(), TrafficPattern::Steady);
    assert!(!p.should_seal(26, 0, per_second(0)));
    assert!(p.should_seal(27, 0, per_second(0)));
    assert!(p.should_seal(1, 500, per_second(0)));
    // widely varying gaps within five seconds: bursty, limit 200
    let mut q = AutoPolicy::new(5, 50, 1000);
    for t in [20_000u64, 20_001, 20_002, 21_500, 21_501, 23_500, 23_501] {
        q.record_arrival(t);
    }
    assert_eq!(q.current_pattern(), TrafficPattern::Bursty);
    assert!(q.should_seal(1, 200, per_second(0)));
    // fast arrivals with at least the minimum batch waiting
    assert!(q.should_seal(5, 0, per_second(51)));
    // a lone arrival after a long silence: steady
    q.record_arrival(100_000);
    q.record_arrival(200_000);
    assert_eq!(q.current_pattern(), TrafficPattern::Steady);
    let mut r = AutoPolicy::new(5, 50, 1000);
    r.observe_queue_growth(GrowthRate { numerator: 3, denominator: 1 });
    assert_eq!(r.current_pattern(), TrafficPattern::Bursty);
    r.observe_queue_growth(GrowthRate { numerator: 2, denominator: 1 });
    assert_eq!(r.current_pattern(), TrafficPattern::Bursty);
}

#[test]
fn sustained_arrivals_above_one_hundred_per_second_are_high_load() {
    let mut p = AutoPolicy::new(10, 100, 1000);
    for i in 0..200u64 {
        p.record_arrival(1000 + i);
    }
    assert_eq!(p.current_pattern(), TrafficPattern::HighLoad);
    // high load: threshold is the maximum batch, time limit the latency limit
    assert!(!p.should_seal(99, 999, per_second(0)));
    assert!(p.should_seal(100, 0, per_second(0)));
    assert!(p.should_seal(1, 1000, per_second(0)));
    // a second later only the newest arrival counts: steady again
    p.record_arrival(3000);
    assert_eq!(p.current_pattern(), TrafficPattern::Steady);
}

#[test]
fn auto_policy_midpoint_does_not_overflow() {
    let mut p = AutoPolicy::new(usize::MAX, usize::MAX, 1000);
    p.record_arrival(5000);
    assert_eq!(p.current_pattern(), TrafficPattern::Steady);
    assert!(!p.should_seal(usize::MAX - 1, 0, per_second(0)));
    assert!(p.should_seal(usize::MAX, 0, per_second(0)));
}
