use vstd::prelude::*;

use crate::address::Address;
use vstd::string::StringSliceAdditionalSpecFns;

verus! {

/// The lifecycle of a pool. `Cancelled` and `Complete` are terminal.
#[derive(Debug, Clone, Copy, PartialEq, Eq, Structural)]
pub enum PoolStatus {
    Funding,
    Confirming,
    Distributing,
    Complete,
    Cancelled,
}

/// One fundraising campaign.
#[derive(Debug, Clone)]
pub struct LaunchPool {
    /// The member set that gates privileged operations on this pool.
    pub authority: Address,
    /// Caller-chosen identifier, at most 64 bytes.
    pub pool_id: String,
    pub target_lamports: u64,
    /// Value held for contributors: grows with contributions, shrinks with refunds.
    pub current_lamports: u64,
    /// Contributions are accepted strictly before this time.
    pub deadline: i64,
    pub status: PoolStatus,
    pub winner: Address,
    pub platform_wallet: Address,
    pub token_mint: Address,
    /// Opaque commitment to the externally computed deliberation outcome.
    pub merkle_root: [u8; 32],
    /// Votes are accepted strictly before this time.
    pub confirm_deadline: i64,
    pub confirm_duration_secs: i64,
    pub approve_lamports: u64,
    pub reject_lamports: u64,
    pub contributor_count: u32,
    pub paused: bool,
}

/// What one contributor has put into one pool.
#[derive(Debug, Clone, Copy)]
pub struct ContributionRecord {
    pub pool: Address,
    pub contributor: Address,
    pub amount_lamports: u64,
    /// Set once, by a claim or a refund; no payout follows it.
    pub claimed: bool,
}

/// One contributor's vote on a proposed finalization.
#[derive(Debug, Clone, Copy)]
pub struct ConfirmationVoteRecord {
    pub pool: Address,
    pub contributor: Address,
    pub approve: bool,
    /// The contribution at the time of the vote.
    pub weight: u64,
    pub has_voted: bool,
}

impl ContributionRecord {
    /// A record that nothing has been written to yet.
    pub fn empty() -> (r: ContributionRecord)
        ensures
            r.amount_lamports == 0,
            !r.claimed,
    {
        ContributionRecord {
            pool: Address::zero(),
            contributor: Address::zero(),
            amount_lamports: 0,
            claimed: false,
        }
    }
}

impl ConfirmationVoteRecord {
    /// A vote record that has not been cast yet.
    pub fn empty() -> (r: ConfirmationVoteRecord)
        ensures
            !r.has_voted,
            r.weight == 0,
    {
        ConfirmationVoteRecord {
            pool: Address::zero(),
            contributor: Address::zero(),
            approve: false,
            weight: 0,
            has_voted: false,
        }
    }
}

/// Bytes reserved for a stored pool whose identifier is `pool_id`.
pub open spec fn pool_space(id_len: int) -> int {
    8 + 32 + 4 + id_len + 8 + 8 + 8 + 1 + 32 + 32 + 32 + 32 + 8 + 8 + 8 + 8 + 4 + 1 + 1
}

impl LaunchPool {
    pub fn space(pool_id: &str) -> (r: usize)
        requires
            pool_id.spec_bytes().len() <= usize::MAX - 235,
        ensures
            r == pool_space(pool_id.spec_bytes().len() as int),
    {
        8 + 32 + 4 + pool_id.len() + 8 + 8 + 8 + 1 + 32 + 32 + 32 + 32 + 8 + 8 + 8 + 8 + 4 + 1 + 1
    }
}

impl ContributionRecord {
    /// Bytes reserved for a stored contribution record.
    pub const SPACE: usize = 8 + 32 + 32 + 8 + 1 + 1;
}

impl ConfirmationVoteRecord {
    /// Bytes reserved for a stored vote record.
    pub const SPACE: usize = 8 + 32 + 32 + 1 + 8 + 1 + 1;
}

} // verus!
