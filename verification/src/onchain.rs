//! The on-chain batch registry: a global configuration that can be paused,
//! and one receipt per submitted batch that records its proof and whether
//! it was verified. Each instruction is a function from the accounts it
//! touches (and its arguments) to their new contents; account validation
//! (signers, owners, derived addresses) is the runtime's job.
use vstd::prelude::*;

verus! {

/// A 32-byte account address.
pub type Pubkey = [u8; 32];

/// The registry's global configuration.
#[derive(Debug, Clone, Copy)]
pub struct GlobalConfig {
    pub authority: Pubkey,
    pub paused: bool,
    pub batch_count: u64,
    pub policy_name: [u8; 32],
}

/// The record of one submitted batch.
#[derive(Debug, Clone, Copy)]
pub struct BatchReceipt {
    pub batch_id: [u8; 32],
    pub batch_hash: [u8; 32],
    pub proof_hash: [u8; 32],
    pub tx_count: u32,
    pub total_compute: u64,
    pub verified: bool,
    pub submitter: Pubkey,
    pub submit_slot: u64,
    pub verify_slot: u64,
}

/// Why an instruction is refused.
#[derive(Debug, Clone, Copy, PartialEq, Eq)]
pub enum CatalystError {
    Paused,
    AlreadyVerified,
    NoProof,
}

impl CatalystError {
    pub open spec fn spec_message(self) -> Seq<char> {
        match self {
            CatalystError::Paused => "System is paused"@,
            CatalystError::AlreadyVerified => "Batch already verified"@,
            CatalystError::NoProof => "No proof submitted"@,
        }
    }

    /// The message the error carries.
    pub fn message(&self) -> (r: &'static str)
        ensures
            r@ == self.spec_message(),
    {
        match self {
            CatalystError::Paused => "System is paused",
            CatalystError::AlreadyVerified => "Batch already verified",
            CatalystError::NoProof => "No proof submitted",
        }
    }
}

/// Thirty-two zero bytes.
pub open spec fn zero32() -> Seq<u8> {
    Seq::new(32, |i: int| 0u8)
}

fn zeros() -> (r: [u8; 32])
    ensures
        r@ == zero32(),
{
    let r = [0u8; 32];
    assert(r@ =~= zero32());
    r
}

fn is_zero(b: &[u8; 32]) -> (r: bool)
    ensures
        r == (b@ == zero32()),
{
    let mut i: usize = 0;
    while i < 32
        invariant
            i <= 32,
            b@.len() == 32,
            forall|j: int| 0 <= j < i ==> b@[j] == 0,
        decreases 32 - i,
    {
        if b[i] != 0 {
            assert(b@[i as int] != zero32()[i as int]);
            return false;
        }
        i = i + 1;
    }
    assert(b@ =~= zero32());
    true
}

/// Sets up the configuration: `authority` controls it, it is running, no
/// batch has been submitted, and no policy is named.
pub fn initialize_config(config: &mut GlobalConfig, authority: Pubkey) -> (r: Result<(), CatalystError>)
    ensures
        r is Ok,
        final(config).authority == authority,
        !final(config).paused,
        final(config).batch_count == 0,
        final(config).policy_name@ == zero32(),
{
    config.authority = authority;
    config.paused = false;
    config.batch_count = 0;
    config.policy_name = zeros();
    Ok(())
}

/// Names the batching policy in use, unless the registry is paused.
pub fn update_policy(config: &mut GlobalConfig, policy_name: [u8; 32]) -> (r: Result<(), CatalystError>)
    ensures
        old(config).paused ==> r == Err::<(), CatalystError>(CatalystError::Paused) && *final(config) == *old(config),
        !old(config).paused ==> r is Ok && *final(config) == (GlobalConfig { policy_name, ..*old(config) }),
{
    if config.paused {
        return Err(CatalystError::Paused);
    }
    config.policy_name = policy_name;
    Ok(())
}

/// Records a new batch in a fresh receipt and counts it, unless the registry
/// is paused. The receipt starts without a proof and unverified.
pub fn submit_batch(
    config: &mut GlobalConfig,
    receipt: &mut BatchReceipt,
    batch_id: [u8; 32],
    batch_hash: [u8; 32],
    tx_count: u32,
    total_compute: u64,
    submitter: Pubkey,
    slot: u64,
) -> (r: Result<(), CatalystError>)
    requires
        !old(config).paused ==> old(config).batch_count < u64::MAX,
    ensures
        old(config).paused ==> r == Err::<(), CatalystError>(CatalystError::Paused) && *final(config) == *old(config)
            && *final(receipt) == *old(receipt),
        !old(config).paused ==> r is Ok && *final(config) == (GlobalConfig {
            batch_count: (old(config).batch_count + 1) as u64,
            ..*old(config)
        }) && final(receipt).batch_id == batch_id && final(receipt).batch_hash == batch_hash
            && final(receipt).proof_hash@ == zero32() && final(receipt).tx_count == tx_count
            && final(receipt).total_compute == total_compute && !final(receipt).verified
            && final(receipt).submitter == submitter && final(receipt).submit_slot == slot
            && final(receipt).verify_slot == old(receipt).verify_slot,
{
    if config.paused {
        return Err(CatalystError::Paused);
    }
    receipt.batch_id = batch_id;
    receipt.batch_hash = batch_hash;
    receipt.tx_count = tx_count;
    receipt.total_compute = total_compute;
    receipt.proof_hash = zeros();
    receipt.verified = false;
    receipt.submitter = submitter;
    receipt.submit_slot = slot;
    config.batch_count = config.batch_count + 1;
    Ok(())
}

/// Attaches a proof hash to a receipt that is not yet verified.
pub fn submit_proof(receipt: &mut BatchReceipt, proof_hash: [u8; 32]) -> (r: Result<(), CatalystError>)
    ensures
        old(receipt).verified ==> r == Err::<(), CatalystError>(CatalystError::AlreadyVerified)
            && *final(receipt) == *old(receipt),
        !old(receipt).verified ==> r is Ok && *final(receipt) == (BatchReceipt { proof_hash, ..*old(receipt) }),
{
    if receipt.verified {
        return Err(CatalystError::AlreadyVerified);
    }
    receipt.proof_hash = proof_hash;
    Ok(())
}

/// Marks a receipt verified at `slot`; it must not be verified already and
/// must carry a proof hash that is not all zeros.
pub fn verify_proof(receipt: &mut BatchReceipt, slot: u64) -> (r: Result<(), CatalystError>)
    ensures
        old(receipt).verified ==> r == Err::<(), CatalystError>(CatalystError::AlreadyVerified)
            && *final(receipt) == *old(receipt),
        !old(receipt).verified && old(receipt).proof_hash@ == zero32() ==> r == Err::<(), CatalystError>(
            CatalystError::NoProof,
        ) && *final(receipt) == *old(receipt),
        !old(receipt).verified && old(receipt).proof_hash@ != zero32() ==> r is Ok && *final(receipt) == (
        BatchReceipt { verified: true, verify_slot: slot, ..*old(receipt) }),
{
    if receipt.verified {
        return Err(CatalystError::AlreadyVerified);
    }
    if is_zero(&receipt.proof_hash) {
        return Err(CatalystError::NoProof);
    }
    receipt.verified = true;
    receipt.verify_slot = slot;
    Ok(())
}

/// Pauses the registry.
pub fn pause(config: &mut GlobalConfig) -> (r: Result<(), CatalystError>)
    ensures
        r is Ok,
        *final(config) == (GlobalConfig { paused: true, ..*old(config) }),
{
    config.paused = true;
    Ok(())
}

/// Resumes the registry.
pub fn resume(config: &mut GlobalConfig) -> (r: Result<(), CatalystError>)
    ensures
        r is Ok,
        *final(config) == (GlobalConfig { paused: false, ..*old(config) }),
{
    config.paused = false;
    Ok(())
}

} // verus!
