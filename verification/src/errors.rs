//! Typed errors for each pipeline stage, each with the message it displays.
use vstd::prelude::*;
use vstd::string::*;
use crate::text::{bool_word, decimal, decimal_string, bool_string};

verus! {

/// Rejections at ingress.
#[derive(Debug)]
pub enum IngressError {
    InvalidFormat(String),
    InvalidSender(String),
    InvalidProgram(String),
    ComputeBudgetExceeded { requested: u64, max: u64 },
    EmptyInstruction,
    ValidationFailed(String),
}

/// Failures while executing a transaction or a batch.
#[derive(Debug)]
pub enum ExecError {
    InvalidOpcode(u8),
    InsufficientBalance { needed: u64, available: u64 },
    AccountNotFound(String),
    ComputeBudgetExceeded { used: u64, limit: u64 },
    BatchFailed(String),
    StateCorruption(String),
}

/// Failures while producing a proof.
#[derive(Debug)]
pub enum ProveError {
    InvalidTrace(String),
    CommitmentFailed(String),
    SerializationFailed(String),
    Internal(String),
}

/// Failures while verifying a proof.
#[derive(Debug)]
pub enum VerifyError {
    CommitmentMismatch { expected: String, actual: String },
    InvalidProofFormat(String),
    TraceHashMismatch,
    StateRootMismatch { pre_match: bool, post_match: bool },
    VerificationFailed(String),
}

/// Any pipeline failure.
#[derive(Debug)]
pub enum PipelineError {
    Ingress(IngressError),
    Execution(ExecError),
    Proving(ProveError),
    Verification(VerifyError),
    EmptyQueue,
    BatchNotFound(String),
    Config(String),
}

impl IngressError {
    pub open spec fn spec_message(&self) -> Seq<char> {
        match self {
            IngressError::InvalidFormat(s) => "invalid transaction format: "@ + s@,
            IngressError::InvalidSender(s) => "invalid sender: "@ + s@,
            IngressError::InvalidProgram(s) => "invalid program ID: "@ + s@,
            IngressError::ComputeBudgetExceeded { requested, max } => "compute budget "@ + decimal(
                *requested as nat,
            ) + " exceeds maximum "@ + decimal(*max as nat),
            IngressError::EmptyInstruction => "empty instruction data"@,
            IngressError::ValidationFailed(s) => "validation failed: "@ + s@,
        }
    }

    /// The text this error displays.
    pub fn message(&self) -> (r: String)
        ensures
            r@ == self.spec_message(),
    {
        let mut m = String::new();
        match self {
            IngressError::InvalidFormat(s) => {
                m.append("invalid transaction format: ");
                m.append(s.as_str());
            },
            IngressError::InvalidSender(s) => {
                m.append("invalid sender: ");
                m.append(s.as_str());
            },
            IngressError::InvalidProgram(s) => {
                m.append("invalid program ID: ");
                m.append(s.as_str());
            },
            IngressError::ComputeBudgetExceeded { requested, max } => {
                m.append("compute budget ");
                m.append(decimal_string(*requested).as_str());
                m.append(" exceeds maximum ");
                m.append(decimal_string(*max).as_str());
            },
            IngressError::EmptyInstruction => {
                m.append("empty instruction data");
            },
            IngressError::ValidationFailed(s) => {
                m.append("validation failed: ");
                m.append(s.as_str());
            },
        }
        m
    }
}

impl ExecError {
    pub open spec fn spec_message(&self) -> Seq<char> {
        match self {
            ExecError::InvalidOpcode(op) => "invalid instruction opcode: "@ + decimal(*op as nat),
            ExecError::InsufficientBalance { needed, available } =>
                "insufficient balance for transfer: need "@ + decimal(*needed as nat) + ", have "@
                    + decimal(*available as nat),
            ExecError::AccountNotFound(s) => "account not found: "@ + s@,
            ExecError::ComputeBudgetExceeded { used, limit } => "compute budget exceeded: used "@
                + decimal(*used as nat) + ", limit "@ + decimal(*limit as nat),
            ExecError::BatchFailed(s) => "batch execution failed: "@ + s@,
            ExecError::StateCorruption(s) => "state corruption detected: "@ + s@,
        }
    }

    /// The text this error displays.
    pub fn message(&self) -> (r: String)
        ensures
            r@ == self.spec_message(),
    {
        let mut m = String::new();
        match self {
            ExecError::InvalidOpcode(op) => {
                m.append("invalid instruction opcode: ");
                m.append(decimal_string(*op as u64).as_str());
            },
            ExecError::InsufficientBalance { needed, available } => {
                m.append("insufficient balance for transfer: need ");
                m.append(decimal_string(*needed).as_str());
                m.append(", have ");
                m.append(decimal_string(*available).as_str());
            },
            ExecError::AccountNotFound(s) => {
                m.append("account not found: ");
                m.append(s.as_str());
            },
            ExecError::ComputeBudgetExceeded { used, limit } => {
                m.append("compute budget exceeded: used ");
                m.append(decimal_string(*used).as_str());
                m.append(", limit ");
                m.append(decimal_string(*limit).as_str());
            },
            ExecError::BatchFailed(s) => {
                m.append("batch execution failed: ");
                m.append(s.as_str());
            },
            ExecError::StateCorruption(s) => {
                m.append("state corruption detected: ");
                m.append(s.as_str());
            },
        }
        m
    }
}

impl ProveError {
    pub open spec fn spec_message(&self) -> Seq<char> {
        match self {
            ProveError::InvalidTrace(s) => "invalid trace: "@ + s@,
            ProveError::CommitmentFailed(s) => "commitment generation failed: "@ + s@,
            ProveError::SerializationFailed(s) => "proof serialization failed: "@ + s@,
            ProveError::Internal(s) => "prover internal error: "@ + s@,
        }
    }

    /// The text this error displays.
    pub fn message(&self) -> (r: String)
        ensures
            r@ == self.spec_message(),
    {
        let mut m = String::new();
        match self {
            ProveError::InvalidTrace(s) => {
                m.append("invalid trace: ");
                m.append(s.as_str());
            },
            ProveError::CommitmentFailed(s) => {
                m.append("commitment generation failed: ");
                m.append(s.as_str());
            },
            ProveError::SerializationFailed(s) => {
                m.append("proof serialization failed: ");
                m.append(s.as_str());
            },
            ProveError::Internal(s) => {
                m.append("prover internal error: ");
                m.append(s.as_str());
            },
        }
        m
    }
}

impl VerifyError {
    pub open spec fn spec_message(&self) -> Seq<char> {
        match self {
            VerifyError::CommitmentMismatch { expected, actual } => "commitment mismatch: expected "@
                + expected@ + ", got "@ + actual@,
            VerifyError::InvalidProofFormat(s) => "invalid proof format: "@ + s@,
            VerifyError::TraceHashMismatch => "trace hash mismatch"@,
            VerifyError::StateRootMismatch { pre_match, post_match } => "state root mismatch: pre="@
                + bool_word(*pre_match) + ", post="@ + bool_word(*post_match),
            VerifyError::VerificationFailed(s) => "verification failed: "@ + s@,
        }
    }

    /// The text this error displays.
    pub fn message(&self) -> (r: String)
        ensures
            r@ == self.spec_message(),
    {
        let mut m = String::new();
        match self {
            VerifyError::CommitmentMismatch { expected, actual } => {
                m.append("commitment mismatch: expected ");
                m.append(expected.as_str());
                m.append(", got ");
                m.append(actual.as_str());
            },
            VerifyError::InvalidProofFormat(s) => {
                m.append("invalid proof format: ");
                m.append(s.as_str());
            },
            VerifyError::TraceHashMismatch => {
                m.append("trace hash mismatch");
            },
            VerifyError::StateRootMismatch { pre_match, post_match } => {
                m.append("state root mismatch: pre=");
                m.append(bool_string(*pre_match).as_str());
                m.append(", post=");
                m.append(bool_string(*post_match).as_str());
            },
            VerifyError::VerificationFailed(s) => {
                m.append("verification failed: ");
                m.append(s.as_str());
            },
        }
        m
    }
}

impl PipelineError {
    pub open spec fn spec_message(&self) -> Seq<char> {
        match self {
            PipelineError::Ingress(e) => "ingress error: "@ + e.spec_message(),
            PipelineError::Execution(e) => "execution error: "@ + e.spec_message(),
            PipelineError::Proving(e) => "proving error: "@ + e.spec_message(),
            PipelineError::Verification(e) => "verification error: "@ + e.spec_message(),
            PipelineError::EmptyQueue => "queue is empty"@,
            PipelineError::BatchNotFound(s) => "batch not found: "@ + s@,
            PipelineError::Config(s) => "configuration error: "@ + s@,
        }
    }

    /// The text this error displays.
    pub fn message(&self) -> (r: String)
        ensures
            r@ == self.spec_message(),
    {
        let mut m = String::new();
        match self {
            PipelineError::Ingress(e) => {
                m.append("ingress error: ");
                m.append(e.message().as_str());
            },
            PipelineError::Execution(e) => {
                m.append("execution error: ");
                m.append(e.message().as_str());
            },
            PipelineError::Proving(e) => {
                m.append("proving error: ");
                m.append(e.message().as_str());
            },
            PipelineError::Verification(e) => {
                m.append("verification error: ");
                m.append(e.message().as_str());
            },
            PipelineError::EmptyQueue => {
                m.append("queue is empty");
            },
            PipelineError::BatchNotFound(s) => {
                m.append("batch not found: ");
                m.append(s.as_str());
            },
            PipelineError::Config(s) => {
                m.append("configuration error: ");
                m.append(s.as_str());
            },
        }
        m
    }
}

impl From<IngressError> for PipelineError {
    fn from(e: IngressError) -> (r: Self) {
        PipelineError::Ingress(e)
    }
}

impl vstd::std_specs::convert::FromSpecImpl<IngressError> for PipelineError {
    open spec fn obeys_from_spec() -> bool {
        true
    }

    open spec fn from_spec(e: IngressError) -> Self {
        PipelineError::Ingress(e)
    }
}

impl From<ExecError> for PipelineError {
    fn from(e: ExecError) -> (r: Self) {
        PipelineError::Execution(e)
    }
}

impl vstd::std_specs::convert::FromSpecImpl<ExecError> for PipelineError {
    open spec fn obeys_from_spec() -> bool {
        true
    }

    open spec fn from_spec(e: ExecError) -> Self {
        PipelineError::Execution(e)
    }
}

impl From<ProveError> for PipelineError {
    fn from(e: ProveError) -> (r: Self) {
        PipelineError::Proving(e)
    }
}

impl vstd::std_specs::convert::FromSpecImpl<ProveError> for PipelineError {
    open spec fn obeys_from_spec() -> bool {
        true
    }

    open spec fn from_spec(e: ProveError) -> Self {
        PipelineError::Proving(e)
    }
}

impl From<VerifyError> for PipelineError {
    fn from(e: VerifyError) -> (r: Self) {
        PipelineError::Verification(e)
    }
}

impl vstd::std_specs::convert::FromSpecImpl<VerifyError> for PipelineError {
    open spec fn obeys_from_spec() -> bool {
        true
    }

    open spec fn from_spec(e: VerifyError) -> Self {
        PipelineError::Verification(e)
    }
}

} // verus!
