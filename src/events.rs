use vstd::prelude::*;

use crate::address::Address;

verus! {

/// Notifications returned by the operations that change a pool, for
/// observers outside the ledger.
#[derive(Debug, Clone)]
pub struct PoolCreated {
    pub pool: Address,
    pub pool_id: String,
    pub target_lamports: u64,
    pub deadline: i64,
    pub confirm_duration_secs: i64,
}

#[derive(Debug, Clone)]
pub struct ContributionMade {
    pub pool: Address,
    pub contributor: Address,
    pub amount_lamports: u64,
    pub total_lamports: u64,
}

#[derive(Debug, Clone)]
pub struct FinalizeProposed {
    pub pool: Address,
    pub winner: Address,
    pub token_mint: Address,
    pub merkle_root: [u8; 32],
    pub confirm_deadline: i64,
}

#[derive(Debug, Clone)]
pub struct ConfirmationVoteCast {
    pub pool: Address,
    pub contributor: Address,
    pub approve: bool,
    pub weight: u64,
    pub total_approve: u64,
    pub total_reject: u64,
}

#[derive(Debug, Clone)]
pub struct PoolFinalized {
    pub pool: Address,
    pub winner: Address,
    pub token_mint: Address,
    pub total_sol: u64,
    pub winner_sol: u64,
    pub contributor_tokens: u64,
    pub platform_tokens: u64,
}

#[derive(Debug, Clone)]
pub struct TokensClaimed {
    pub pool: Address,
    pub contributor: Address,
    pub tokens: u64,
}

#[derive(Debug, Clone)]
pub struct ContributionRefunded {
    pub pool: Address,
    pub contributor: Address,
    pub amount_lamports: u64,
}

#[derive(Debug, Clone)]
pub struct PoolCancelled {
    pub pool: Address,
}

#[derive(Debug, Clone)]
pub struct PoolCompleted {
    pub pool: Address,
    pub mint_authority_burned: bool,
}

#[derive(Debug, Clone)]
pub struct PoolPaused {
    pub pool: Address,
}

#[derive(Debug, Clone)]
pub struct PoolUnpaused {
    pub pool: Address,
}

} // verus!
