//! Transactions, batches, execution traces and proof artifacts.
use vstd::prelude::*;
use vstd::string::*;

verus! {

/// A transaction identifier.
#[derive(Debug, Clone, PartialEq, Eq, Hash, PartialOrd, Ord)]
pub struct TransactionId(pub String);

impl TransactionId {
    /// Wraps an identifier string.
    pub fn new(id: &str) -> (r: Self)
        ensures
            r.0@ == id@,
    {
        TransactionId(id.to_string())
    }

    /// The identifier string.
    pub fn as_str(&self) -> (r: &str)
        ensures
            r@ == self.0@,
    {
        self.0.as_str()
    }

    /// The identifier as displayed.
    pub fn display(&self) -> (r: String)
        ensures
            r@ == self.0@,
    {
        self.0.clone()
    }

    /// A copy of the identifier.
    pub fn duplicate(&self) -> (r: Self)
        ensures
            r.0@ == self.0@,
    {
        TransactionId(self.0.clone())
    }
}

/// Transaction priority, from lowest to highest.
#[derive(Debug, Clone, Copy, PartialEq, Eq, PartialOrd, Ord, Hash)]
pub enum TransactionPriority {
    Low,
    Normal,
    High,
    Critical,
}

impl TransactionPriority {
    /// The position of a priority in the order Low < Normal < High < Critical.
    pub open spec fn spec_rank(self) -> u8 {
        match self {
            TransactionPriority::Low => 0,
            TransactionPriority::Normal => 1,
            TransactionPriority::High => 2,
            TransactionPriority::Critical => 3,
        }
    }

    /// The position of this priority in the order Low < Normal < High < Critical.
    pub fn rank(&self) -> (r: u8)
        ensures
            r == self.spec_rank(),
    {
        match self {
            TransactionPriority::Low => 0,
            TransactionPriority::Normal => 1,
            TransactionPriority::High => 2,
            TransactionPriority::Critical => 3,
        }
    }
}

impl Default for TransactionPriority {
    fn default() -> (r: Self)
        ensures
            r == TransactionPriority::Normal,
    {
        TransactionPriority::Normal
    }
}

/// The compute units a transaction is assumed to need when nothing else is said.
pub const DEFAULT_COMPUTE_UNITS: u64 = 200_000;

/// A transaction as it arrives at ingress.
#[derive(Debug, Clone)]
pub struct Transaction {
    pub tx_id: TransactionId,
    pub arrival_ts: u64,
    pub sender: String,
    pub program_id: String,
    pub accounts: Vec<String>,
    pub instruction_data: Vec<u8>,
    pub priority: TransactionPriority,
    pub estimated_cu: u64,
    pub deadline_ms: Option<u64>,
}

impl Transaction {
    /// A transaction with no accounts, no instruction data, normal priority,
    /// the default compute estimate, arrival time 0 and no deadline.
    pub fn new(tx_id: TransactionId, sender: &str, program_id: &str) -> (r: Self)
        ensures
            r.tx_id == tx_id,
            r.arrival_ts == 0,
            r.sender@ == sender@,
            r.program_id@ == program_id@,
            r.accounts@.len() == 0,
            r.instruction_data@.len() == 0,
            r.priority == TransactionPriority::Normal,
            r.estimated_cu == DEFAULT_COMPUTE_UNITS,
            r.deadline_ms is None,
    {
        Transaction {
            tx_id,
            arrival_ts: 0,
            sender: sender.to_string(),
            program_id: program_id.to_string(),
            accounts: Vec::new(),
            instruction_data: Vec::new(),
            priority: TransactionPriority::Normal,
            estimated_cu: DEFAULT_COMPUTE_UNITS,
            deadline_ms: None,
        }
    }
}

/// The lifecycle stage of a batch.
#[derive(Debug, Clone, Copy, PartialEq, Eq)]
pub enum BatchStatus {
    Pending,
    Sealed,
    Executed,
    ProofGenerated,
    Verified,
    Failed,
}

impl Default for BatchStatus {
    fn default() -> (r: Self)
        ensures
            r == BatchStatus::Pending,
    {
        BatchStatus::Pending
    }
}

/// Why a batch was sealed.
#[derive(Debug, Clone, PartialEq, Eq)]
pub enum SealReason {
    CountThreshold,
    TimeThreshold,
    LatencyBudget,
    PriorityFastLane,
    Manual,
    Adaptive,
}

impl SealReason {
    pub open spec fn spec_display(&self) -> Seq<char> {
        match self {
            SealReason::CountThreshold => "count_threshold"@,
            SealReason::TimeThreshold => "time_threshold"@,
            SealReason::LatencyBudget => "latency_budget"@,
            SealReason::PriorityFastLane => "priority_fast_lane"@,
            SealReason::Manual => "manual"@,
            SealReason::Adaptive => "adaptive"@,
        }
    }

    /// The reason as displayed, in snake case.
    pub fn display(&self) -> (r: String)
        ensures
            r@ == self.spec_display(),
    {
        let s = match self {
            SealReason::CountThreshold => "count_threshold",
            SealReason::TimeThreshold => "time_threshold",
            SealReason::LatencyBudget => "latency_budget",
            SealReason::PriorityFastLane => "priority_fast_lane",
            SealReason::Manual => "manual",
            SealReason::Adaptive => "adaptive",
        };
        s.to_string()
    }
}

/// A group of transactions sealed together.
#[derive(Debug, Clone)]
pub struct Batch {
    pub batch_id: String,
    pub tx_ids: Vec<TransactionId>,
    pub start_ts: u64,
    pub seal_ts: u64,
    pub reason_sealed: SealReason,
    pub batch_hash: String,
    pub trace_hash: Option<String>,
    pub proof_hash: Option<String>,
    pub status: BatchStatus,
    pub total_cu: u64,
}

impl Batch {
    /// An empty pending batch started at `start_ts`.
    pub fn new(batch_id: &str, start_ts: u64) -> (r: Self)
        ensures
            r.batch_id@ == batch_id@,
            r.tx_ids@.len() == 0,
            r.start_ts == start_ts,
            r.seal_ts == 0,
            r.reason_sealed == SealReason::Manual,
            r.batch_hash@.len() == 0,
            r.trace_hash is None,
            r.proof_hash is None,
            r.status == BatchStatus::Pending,
            r.total_cu == 0,
    {
        Batch {
            batch_id: batch_id.to_string(),
            tx_ids: Vec::new(),
            start_ts,
            seal_ts: 0,
            reason_sealed: SealReason::Manual,
            batch_hash: String::new(),
            trace_hash: None,
            proof_hash: None,
            status: BatchStatus::Pending,
            total_cu: 0,
        }
    }

    /// The number of transactions in the batch.
    pub fn size(&self) -> (r: usize)
        ensures
            r == self.tx_ids@.len(),
    {
        self.tx_ids.len()
    }
}

/// One step of an execution trace.
#[derive(Debug, Clone)]
pub struct TraceEntry {
    pub tx_idx: usize,
    pub tx_id: TransactionId,
    pub pre_state_hash: String,
    pub instruction: String,
    pub accounts_read: Vec<String>,
    pub accounts_written: Vec<String>,
    pub post_state_hash: String,
    pub compute_used: u64,
    pub success: bool,
    pub error: Option<String>,
}

/// The record of executing a batch, with its commitments.
#[derive(Debug, Clone)]
pub struct ExecutionTrace {
    pub batch_id: String,
    pub entries: Vec<TraceEntry>,
    pub state_root_pre: String,
    pub state_root_post: String,
    pub trace_hash: String,
    pub total_compute: u64,
    pub success_count: usize,
    pub failure_count: usize,
}

impl ExecutionTrace {
    /// A trace with no entries yet.
    pub fn new(batch_id: &str, state_root_pre: String) -> (r: Self)
        ensures
            r.batch_id@ == batch_id@,
            r.entries@.len() == 0,
            r.state_root_pre == state_root_pre,
            r.state_root_post@.len() == 0,
            r.trace_hash@.len() == 0,
            r.total_compute == 0,
            r.success_count == 0,
            r.failure_count == 0,
    {
        ExecutionTrace {
            batch_id: batch_id.to_string(),
            entries: Vec::new(),
            state_root_pre,
            state_root_post: String::new(),
            trace_hash: String::new(),
            total_compute: 0,
            success_count: 0,
            failure_count: 0,
        }
    }
}

/// The commitment a proof carries.
#[derive(Debug, Clone, PartialEq, Eq)]
pub struct ProofCommitment {
    pub batch_hash: String,
    pub trace_hash: String,
    pub state_root_pre: String,
    pub state_root_post: String,
    pub total_compute: u64,
    pub tx_count: usize,
}

/// A proof artifact for a batch execution.
#[derive(Debug, Clone)]
pub struct Proof {
    pub batch_id: String,
    pub proof_data: Vec<u8>,
    pub proof_hash: String,
    pub commitment: ProofCommitment,
    pub generated_at: u64,
    pub proving_time_ms: u64,
    pub proof_size_bytes: usize,
}

/// The outcome of verifying a proof.
#[derive(Debug, Clone)]
pub struct VerificationResult {
    pub batch_id: String,
    pub is_valid: bool,
    pub verification_time_ms: u64,
    pub error: Option<String>,
}

} // verus!
