use catalyst::errors::{ExecError, IngressError, PipelineError, ProveError, VerifyError};

#[test]
fn test_error_display() {
    let err = IngressError::ComputeBudgetExceeded {
        requested: 2_000_000,
        max: 1_400_000,
    };
    assert!(err.message().contains("2000000"));
    assert!(err.message().contains("1400000"));
}

#[test]
fn test_pipeline_error_from() {
    let ingress_err = IngressError::EmptyInstruction;
    let pipeline_err: PipelineError = ingress_err.into();
    assert!(matches!(pipeline_err, PipelineError::Ingress(_)));
}

#[test]
fn error_messages_are_exact() {
    assert_eq!(
        ExecError::InsufficientBalance { needed: 10, available: 3 }.message(),
        "insufficient balance for transfer: need 10, have 3"
    );
    assert_eq!(ExecError::InvalidOpcode(255).message(), "invalid instruction opcode: 255");
    assert_eq!(
        VerifyError::StateRootMismatch { pre_match: true, post_match: false }.message(),
        "state root mismatch: pre=true, post=false"
    );
    assert_eq!(ProveError::InvalidTrace("empty trace".into()).message(), "invalid trace: empty trace");
    let p: PipelineError = ExecError::BatchFailed("x".into()).into();
    assert_eq!(p.message(), "execution error: batch execution failed: x");
    assert_eq!(PipelineError::EmptyQueue.message(), "queue is empty");
    let v: PipelineError = VerifyError::TraceHashMismatch.into();
    assert!(matches!(v, PipelineError::Verification(VerifyError::TraceHashMismatch)));
    let q: PipelineError = ProveError::Internal("boom".into()).into();
    assert_eq!(q.message(), "proving error: prover internal error: boom");
}
