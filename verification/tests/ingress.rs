use catalyst::errors::IngressError;
use catalyst::ingress::{
    build_transaction, compose_instruction, compute_range, generated_tx_id, priority_for_draw,
    spike_phase, steady_delta, validate, Scenario, SpikePhase,
};
use catalyst::types::{Transaction, TransactionId, TransactionPriority};

#[test]
fn test_validate_success() {
    let mut tx = Transaction::new(TransactionId::new("tx_1"), "alice", "program_1");
    tx.instruction_data = vec![0, 1, 2, 3];
    tx.estimated_cu = 100_000;

    assert!(validate(&tx).is_ok());
}

#[test]
fn test_validate_empty_sender() {
    let mut tx = Transaction::new(TransactionId::new("tx_1"), "", "program_1");
    tx.instruction_data = vec![0];

    assert!(matches!(validate(&tx), Err(IngressError::InvalidSender(_))));
}

#[test]
fn test_validate_compute_exceeded() {
    let mut tx = Transaction::new(TransactionId::new("tx_1"), "alice", "program_1");
    tx.instruction_data = vec![0];
    tx.estimated_cu = 2_000_000;

    assert!(matches!(
        validate(&tx),
        Err(IngressError::ComputeBudgetExceeded { .. })
    ));
}

#[test]
fn validate_other_rejections() {
    let mut tx = Transaction::new(TransactionId::new("tx_1"), "alice", "");
    tx.instruction_data = vec![0];
    match validate(&tx) {
        Err(IngressError::InvalidProgram(m)) => assert_eq!(m, "empty program_id"),
        other => panic!("unexpected {:?}", other),
    }
    let tx = Transaction::new(TransactionId::new("tx_1"), "alice", "p");
    assert!(matches!(validate(&tx), Err(IngressError::EmptyInstruction)));
    let mut tx = Transaction::new(TransactionId::new("tx_1"), "alice", "p");
    tx.instruction_data = vec![3];
    tx.estimated_cu = 1_400_000;
    assert!(validate(&tx).is_ok());
    tx.estimated_cu = 1_400_001;
    match validate(&tx) {
        Err(IngressError::ComputeBudgetExceeded { requested, max }) => {
            assert_eq!(requested, 1_400_001);
            assert_eq!(max, 1_400_000);
        }
        other => panic!("unexpected {:?}", other),
    }
}

#[test]
fn test_scenario_from_str() {
    assert_eq!("steady".parse::<Scenario>().unwrap(), Scenario::Steady);
    assert_eq!("BURSTY".parse::<Scenario>().unwrap(), Scenario::Bursty);
    assert_eq!(
        "mixed_priority".parse::<Scenario>().unwrap(),
        Scenario::MixedPriority
    );
    assert!("unknown".parse::<Scenario>().is_err());
}

#[test]
fn scenario_names() {
    let all = Scenario::all();
    assert_eq!(all.len(), 5);
    let names: Vec<&str> = all.iter().map(|s| s.name()).collect();
    assert_eq!(names, vec!["steady", "bursty", "poisson", "mixed_priority", "idle_then_spike"]);
    for s in all {
        assert_eq!(Scenario::from_name(s.name()), Ok(s));
    }
    assert_eq!(Scenario::from_name("IdleThenSpike"), Ok(Scenario::IdleThenSpike));
    assert_eq!(Scenario::from_name("Nope"), Err("unknown scenario: Nope".to_string()));
}

#[test]
fn generation_helpers() {
    assert_eq!(generated_tx_id(7).as_str(), "tx_000007");
    assert_eq!(generated_tx_id(1234567).as_str(), "tx_1234567");
    let mut transfer = vec![0u8];
    transfer.extend_from_slice(&5u64.to_le_bytes());
    transfer.extend_from_slice(&9u64.to_le_bytes());
    assert_eq!(compose_instruction(0, 5, 9), transfer);
    assert_eq!(compose_instruction(3, 5, 9), vec![3u8]);
    assert_eq!(compose_instruction(4, 5, 9), vec![4u8, 0xFF, 0xFF, 0xFF, 0xFF, 0xFF, 0xFF, 0xFF, 0xFF]);
    assert_eq!(priority_for_draw(5), TransactionPriority::Critical);
    assert_eq!(priority_for_draw(6), TransactionPriority::High);
    assert_eq!(priority_for_draw(70), TransactionPriority::Normal);
    assert_eq!(priority_for_draw(71), TransactionPriority::Low);
    assert_eq!(compute_range(TransactionPriority::Low), (5_000, 50_000));
    assert_eq!(spike_phase(2, 10), SpikePhase::Idle);
    assert_eq!(spike_phase(3, 10), SpikePhase::Spike);
    assert_eq!(spike_phase(7, 10), SpikePhase::CoolDown);
    assert_eq!(steady_delta(50, 0), 45);
    assert_eq!(steady_delta(50, 9), 54);
    assert_eq!(steady_delta(2, 0), 1);
    let tx = build_transaction(12, 340, 3, 4, vec![3], 999, TransactionPriority::High);
    assert_eq!(tx.tx_id.as_str(), "tx_000012");
    assert_eq!(tx.sender, "sender_3");
    assert_eq!(tx.program_id, "program_4");
    assert_eq!(tx.arrival_ts, 340);
    assert_eq!(tx.estimated_cu, 999);
    assert_eq!(tx.priority, TransactionPriority::High);
}
