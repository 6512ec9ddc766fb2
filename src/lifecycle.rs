use vstd::prelude::*;

use crate::address::{all_zero, Address};
use crate::distribution::{
    contributor_share, contributor_tokens, minted_supply, platform_share, platform_tokens,
    total_token_supply, user_share, user_tokens, winner_payout, winner_share,
};
use crate::error::LaunchError;
use crate::events::{
    ConfirmationVoteCast, ContributionMade, ContributionRefunded, FinalizeProposed,
    PoolCancelled, PoolCompleted, PoolCreated, PoolFinalized, PoolPaused, PoolUnpaused,
    TokensClaimed,
};
use crate::multisig::Multisig;
use crate::records::{ConfirmationVoteRecord, ContributionRecord, LaunchPool, PoolStatus};
use vstd::string::StringSliceAdditionalSpecFns;

verus! {

broadcast use vstd::array::group_array_axioms;

/// Length in bytes of an identifier, as stored.
pub open spec fn id_len(id: Seq<char>) -> int {
    vstd::utf8::encode_utf8(id).len() as usize as int
}

/// Shortest confirmation window a pool may ask for (24 hours).
pub const MIN_CONFIRM_SECS: i64 = 86_400;

/// Longest confirmation window a pool may ask for (7 days).
pub const MAX_CONFIRM_SECS: i64 = 604_800;

/// Confirmation window used when a pool asks for none (48 hours).
pub const DEFAULT_CONFIRM_SECS: i64 = 172_800;

/// Longest pool identifier, in bytes.
pub const MAX_POOL_ID_LEN: usize = 64;

// Authorization of privileged operations

/// Why `signer`, presenting member set `gate` stored at `gate_key`, may not
/// act on `pool`, if it may not.
pub open spec fn gate_error(pool: LaunchPool, gate: Multisig, gate_key: Address, signer: Address) -> Option<
    LaunchError,
> {
    if gate_key != pool.authority {
        Some(LaunchError::WrongAuthority)
    } else if !gate.has_member(signer) {
        Some(LaunchError::NotMultisigSigner)
    } else {
        None
    }
}

/// Lets the call through when the member set is the pool's own and the signer
/// is one of its members.
pub fn authorize(pool: &LaunchPool, gate: &Multisig, gate_key: Address, signer: Address) -> (r: Result<
    (),
    LaunchError,
>)
    ensures
        match gate_error(*pool, *gate, gate_key, signer) {
            Some(e) => r == Err::<(), LaunchError>(e),
            None => r is Ok,
        },
{
    if !gate_key.same(&pool.authority) {
        return Err(LaunchError::WrongAuthority);
    }
    if !gate.is_signer(&signer) {
        return Err(LaunchError::NotMultisigSigner);
    }
    Ok(())
}

// Creation

/// The confirmation window that a requested duration gives: zero means the default.
pub open spec fn confirm_window(requested: i64) -> i64 {
    if requested == 0 {
        DEFAULT_CONFIRM_SECS
    } else {
        requested
    }
}

/// Why a pool with these parameters is refused, if it is.
pub open spec fn create_pool_error(
    gate: Multisig,
    payer: Address,
    target_lamports: u64,
    deadline: i64,
    id_len: int,
    confirm_duration_secs: i64,
    now: i64,
) -> Option<LaunchError> {
    if !gate.has_member(payer) {
        Some(LaunchError::NotMultisigSigner)
    } else if target_lamports == 0 {
        Some(LaunchError::InvalidTarget)
    } else if deadline <= now {
        Some(LaunchError::DeadlinePassed)
    } else if id_len > MAX_POOL_ID_LEN {
        Some(LaunchError::IdTooLong)
    } else if confirm_duration_secs != 0 && confirm_duration_secs < MIN_CONFIRM_SECS {
        Some(LaunchError::ConfirmTooShort)
    } else if confirm_duration_secs != 0 && confirm_duration_secs > MAX_CONFIRM_SECS {
        Some(LaunchError::ConfirmTooLong)
    } else {
        None
    }
}

/// A pool as it stands right after creation.
pub open spec fn is_new_pool(
    p: LaunchPool,
    gate_key: Address,
    platform_wallet: Address,
    target_lamports: u64,
    deadline: i64,
    pool_id: String,
    confirm_duration_secs: i64,
) -> bool {
    &&& p.authority == gate_key
    &&& p.pool_id == pool_id
    &&& p.target_lamports == target_lamports
    &&& p.current_lamports == 0
    &&& p.deadline == deadline
    &&& p.status == PoolStatus::Funding
    &&& all_zero(p.winner.bytes@)
    &&& p.platform_wallet == platform_wallet
    &&& all_zero(p.token_mint.bytes@)
    &&& all_zero(p.merkle_root@)
    &&& p.confirm_deadline == 0
    &&& p.confirm_duration_secs == confirm_window(confirm_duration_secs)
    &&& p.approve_lamports == 0
    &&& p.reject_lamports == 0
    &&& p.contributor_count == 0
    &&& !p.paused
}

/// Opens a pool in `Funding`, paid for by `payer`, a member of the set `gate`
/// stored at `gate_key`.
pub fn create_pool(
    gate: &Multisig,
    gate_key: Address,
    payer: Address,
    platform_wallet: Address,
    target_lamports: u64,
    deadline: i64,
    pool_id: String,
    confirm_duration_secs: i64,
    now: i64,
) -> (r: Result<LaunchPool, LaunchError>)
    ensures
        match create_pool_error(
            *gate,
            payer,
            target_lamports,
            deadline,
            id_len(pool_id@),
            confirm_duration_secs,
            now,
        ) {
            Some(e) => r == Err::<LaunchPool, LaunchError>(e),
            None => r matches Ok(p) && is_new_pool(
                p,
                gate_key,
                platform_wallet,
                target_lamports,
                deadline,
                pool_id,
                confirm_duration_secs,
            ),
        },
{
    if !gate.is_signer(&payer) {
        return Err(LaunchError::NotMultisigSigner);
    }
    if target_lamports == 0 {
        return Err(LaunchError::InvalidTarget);
    }
    if deadline <= now {
        return Err(LaunchError::DeadlinePassed);
    }
    if pool_id.as_str().len() > MAX_POOL_ID_LEN {
        return Err(LaunchError::IdTooLong);
    }
    let confirm_secs = if confirm_duration_secs == 0 {
        DEFAULT_CONFIRM_SECS
    } else {
        if confirm_duration_secs < MIN_CONFIRM_SECS {
            return Err(LaunchError::ConfirmTooShort);
        }
        if confirm_duration_secs > MAX_CONFIRM_SECS {
            return Err(LaunchError::ConfirmTooLong);
        }
        confirm_duration_secs
    };
    Ok(
        LaunchPool {
            authority: gate_key,
            pool_id,
            target_lamports,
            current_lamports: 0,
            deadline,
            status: PoolStatus::Funding,
            winner: Address::zero(),
            platform_wallet,
            token_mint: Address::zero(),
            merkle_root: [0u8; 32],
            confirm_deadline: 0,
            confirm_duration_secs: confirm_secs,
            approve_lamports: 0,
            reject_lamports: 0,
            contributor_count: 0,
            paused: false,
        },
    )
}

/// The notification for a pool just created at `pool_key`.
pub fn pool_created(pool_key: Address, pool: &LaunchPool) -> (r: PoolCreated)
    ensures
        r.pool == pool_key,
        r.pool_id == pool.pool_id,
        r.target_lamports == pool.target_lamports,
        r.deadline == pool.deadline,
        r.confirm_duration_secs == pool.confirm_duration_secs,
{
    PoolCreated {
        pool: pool_key,
        pool_id: pool.pool_id.clone(),
        target_lamports: pool.target_lamports,
        deadline: pool.deadline,
        confirm_duration_secs: pool.confirm_duration_secs,
    }
}


// Contributions

/// Why a contribution of `amount` at time `now` is refused, if it is.
pub open spec fn contribute_error(
    pool: LaunchPool,
    record: ContributionRecord,
    amount: u64,
    now: i64,
) -> Option<LaunchError> {
    if amount == 0 {
        Some(LaunchError::InvalidAmount)
    } else if pool.paused {
        Some(LaunchError::PoolPaused)
    } else if pool.status != PoolStatus::Funding {
        Some(LaunchError::PoolNotFunding)
    } else if now >= pool.deadline {
        Some(LaunchError::DeadlinePassed)
    } else if record.amount_lamports + amount > u64::MAX || pool.current_lamports + amount
        > u64::MAX || (record.amount_lamports == 0 && pool.contributor_count == u32::MAX) {
        Some(LaunchError::ArithmeticOverflow)
    } else {
        None
    }
}

/// The pool after an accepted contribution of `amount` on `record`.
pub open spec fn contributed_pool(
    pool: LaunchPool,
    record: ContributionRecord,
    amount: u64,
) -> LaunchPool {
    LaunchPool {
        current_lamports: (pool.current_lamports + amount) as u64,
        contributor_count: if record.amount_lamports == 0 {
            (pool.contributor_count + 1) as u32
        } else {
            pool.contributor_count
        },
        ..pool
    }
}

/// The record after an accepted contribution of `amount`: a record that held
/// nothing is taken by this pool and contributor.
pub open spec fn contributed_record(
    record: ContributionRecord,
    pool_key: Address,
    contributor: Address,
    amount: u64,
) -> ContributionRecord {
    if record.amount_lamports == 0 {
        ContributionRecord {
            pool: pool_key,
            contributor,
            amount_lamports: amount,
            claimed: record.claimed,
        }
    } else {
        ContributionRecord { amount_lamports: (record.amount_lamports + amount) as u64, ..record }
    }
}

/// Moves `amount` from `contributor` into the pool's escrow, counting the
/// contributor once, on their first deposit.
pub fn contribute(
    pool: &mut LaunchPool,
    record: &mut ContributionRecord,
    pool_key: Address,
    contributor: Address,
    amount: u64,
    now: i64,
) -> (r: Result<ContributionMade, LaunchError>)
    ensures
        match contribute_error(*old(pool), *old(record), amount, now) {
            Some(e) => r == Err::<ContributionMade, LaunchError>(e) && *final(pool) == *old(pool)
                && *final(record) == *old(record),
            None => {
                &&& *final(pool) == contributed_pool(*old(pool), *old(record), amount)
                &&& *final(record) == contributed_record(*old(record), pool_key, contributor, amount)
                &&& r matches Ok(ev) && ev.pool == pool_key && ev.contributor == contributor
                    && ev.amount_lamports == amount && ev.total_lamports
                    == final(pool).current_lamports
            },
        },
{
    if amount == 0 {
        return Err(LaunchError::InvalidAmount);
    }
    if pool.paused {
        return Err(LaunchError::PoolPaused);
    }
    if pool.status != PoolStatus::Funding {
        return Err(LaunchError::PoolNotFunding);
    }
    if now >= pool.deadline {
        return Err(LaunchError::DeadlinePassed);
    }
    if record.amount_lamports > u64::MAX - amount || pool.current_lamports > u64::MAX - amount || (
    record.amount_lamports == 0 && pool.contributor_count == u32::MAX) {
        return Err(LaunchError::ArithmeticOverflow);
    }
    if record.amount_lamports == 0 {
        record.pool = pool_key;
        record.contributor = contributor;
        pool.contributor_count = pool.contributor_count + 1;
    }
    record.amount_lamports = record.amount_lamports + amount;
    pool.current_lamports = pool.current_lamports + amount;
    Ok(
        ContributionMade {
            pool: pool_key,
            contributor,
            amount_lamports: amount,
            total_lamports: pool.current_lamports,
        },
    )
}

// Proposal and confirmation vote

/// Why a proposal to finalize is refused at time `now`, if it is.
pub open spec fn propose_finalize_error(
    pool: LaunchPool,
    gate: Multisig,
    gate_key: Address,
    signer: Address,
    now: i64,
) -> Option<LaunchError> {
    if gate_error(pool, gate, gate_key, signer) is Some {
        gate_error(pool, gate, gate_key, signer)
    } else if pool.paused {
        Some(LaunchError::PoolPaused)
    } else if pool.status != PoolStatus::Funding {
        Some(LaunchError::PoolNotFunding)
    } else if pool.current_lamports == 0 {
        Some(LaunchError::NoContributions)
    } else if now + pool.confirm_duration_secs > i64::MAX || now + pool.confirm_duration_secs
        < i64::MIN {
        Some(LaunchError::ArithmeticOverflow)
    } else {
        None
    }
}

/// The pool once `winner` and the commitment `merkle_root` are proposed at `now`.
pub open spec fn proposed_pool(
    pool: LaunchPool,
    winner: Address,
    token_mint: Address,
    merkle_root: [u8; 32],
    now: i64,
) -> LaunchPool {
    LaunchPool {
        status: PoolStatus::Confirming,
        winner,
        token_mint,
        merkle_root,
        confirm_deadline: (now + pool.confirm_duration_secs) as i64,
        approve_lamports: 0,
        reject_lamports: 0,
        ..pool
    }
}

/// Declares the winner, the reward token and the commitment to the
/// deliberation outcome, and opens the confirmation window.
pub fn propose_finalize(
    pool: &mut LaunchPool,
    gate: &Multisig,
    gate_key: Address,
    signer: Address,
    pool_key: Address,
    winner: Address,
    token_mint: Address,
    merkle_root: [u8; 32],
    now: i64,
) -> (r: Result<FinalizeProposed, LaunchError>)
    ensures
        match propose_finalize_error(*old(pool), *gate, gate_key, signer, now) {
            Some(e) => r == Err::<FinalizeProposed, LaunchError>(e) && *final(pool) == *old(pool),
            None => {
                &&& *final(pool) == proposed_pool(*old(pool), winner, token_mint, merkle_root, now)
                &&& r matches Ok(ev) && ev.pool == pool_key && ev.winner == winner && ev.token_mint
                    == token_mint && ev.merkle_root == merkle_root && ev.confirm_deadline
                    == final(pool).confirm_deadline
            },
        },
{
    authorize(pool, gate, gate_key, signer)?;
    if pool.paused {
        return Err(LaunchError::PoolPaused);
    }
    if pool.status != PoolStatus::Funding {
        return Err(LaunchError::PoolNotFunding);
    }
    if pool.current_lamports == 0 {
        return Err(LaunchError::NoContributions);
    }
    let confirm_deadline = match now.checked_add(pool.confirm_duration_secs) {
        Some(d) => d,
        None => {
            return Err(LaunchError::ArithmeticOverflow);
        },
    };
    pool.status = PoolStatus::Confirming;
    pool.winner = winner;
    pool.token_mint = token_mint;
    pool.merkle_root = merkle_root;
    pool.confirm_deadline = confirm_deadline;
    pool.approve_lamports = 0;
    pool.reject_lamports = 0;
    Ok(FinalizeProposed { pool: pool_key, winner, token_mint, merkle_root, confirm_deadline })
}

/// Why a vote is refused at time `now`, if it is.
pub open spec fn confirm_vote_error(
    pool: LaunchPool,
    record: ContributionRecord,
    vote: ConfirmationVoteRecord,
    approve: bool,
    now: i64,
) -> Option<LaunchError> {
    if pool.status != PoolStatus::Confirming {
        Some(LaunchError::NotConfirming)
    } else if now >= pool.confirm_deadline {
        Some(LaunchError::ConfirmExpired)
    } else if record.amount_lamports == 0 {
        Some(LaunchError::NoContribution)
    } else if record.claimed {
        Some(LaunchError::AlreadyClaimed)
    } else if vote.has_voted {
        Some(LaunchError::AlreadyVoted)
    } else if approve && pool.approve_lamports + record.amount_lamports > u64::MAX {
        Some(LaunchError::ArithmeticOverflow)
    } else if !approve && pool.reject_lamports + record.amount_lamports > u64::MAX {
        Some(LaunchError::ArithmeticOverflow)
    } else {
        None
    }
}

/// The pool once a vote of weight `weight` is counted.
pub open spec fn voted_pool(pool: LaunchPool, approve: bool, weight: u64) -> LaunchPool {
    if approve {
        LaunchPool { approve_lamports: (pool.approve_lamports + weight) as u64, ..pool }
    } else {
        LaunchPool { reject_lamports: (pool.reject_lamports + weight) as u64, ..pool }
    }
}

/// The vote record once cast.
pub open spec fn cast_vote(
    pool_key: Address,
    contributor: Address,
    approve: bool,
    weight: u64,
) -> ConfirmationVoteRecord {
    ConfirmationVoteRecord { pool: pool_key, contributor, approve, weight, has_voted: true }
}

/// Casts `contributor`'s one vote, weighted by what they contributed. A
/// contribution already refunded carries no vote.
pub fn confirm_vote(
    pool: &mut LaunchPool,
    record: &ContributionRecord,
    vote: &mut ConfirmationVoteRecord,
    pool_key: Address,
    contributor: Address,
    approve: bool,
    now: i64,
) -> (r: Result<ConfirmationVoteCast, LaunchError>)
    ensures
        match confirm_vote_error(*old(pool), *record, *old(vote), approve, now) {
            Some(e) => r == Err::<ConfirmationVoteCast, LaunchError>(e) && *final(pool) == *old(
                pool,
            ) && *final(vote) == *old(vote),
            None => {
                &&& *final(pool) == voted_pool(*old(pool), approve, record.amount_lamports)
                &&& *final(vote) == cast_vote(pool_key, contributor, approve, record.amount_lamports)
                &&& r matches Ok(ev) && ev.pool == pool_key && ev.contributor == contributor
                    && ev.approve == approve && ev.weight == record.amount_lamports
                    && ev.total_approve == final(pool).approve_lamports && ev.total_reject
                    == final(pool).reject_lamports
            },
        },
{
    if pool.status != PoolStatus::Confirming {
        return Err(LaunchError::NotConfirming);
    }
    if now >= pool.confirm_deadline {
        return Err(LaunchError::ConfirmExpired);
    }
    if record.amount_lamports == 0 {
        return Err(LaunchError::NoContribution);
    }
    if record.claimed {
        return Err(LaunchError::AlreadyClaimed);
    }
    if vote.has_voted {
        return Err(LaunchError::AlreadyVoted);
    }
    let weight = record.amount_lamports;
    if approve {
        if pool.approve_lamports > u64::MAX - weight {
            return Err(LaunchError::ArithmeticOverflow);
        }
        pool.approve_lamports = pool.approve_lamports + weight;
    } else {
        if pool.reject_lamports > u64::MAX - weight {
            return Err(LaunchError::ArithmeticOverflow);
        }
        pool.reject_lamports = pool.reject_lamports + weight;
    }
    vote.pool = pool_key;
    vote.contributor = contributor;
    vote.approve = approve;
    vote.weight = weight;
    vote.has_voted = true;
    Ok(
        ConfirmationVoteCast {
            pool: pool_key,
            contributor,
            approve,
            weight,
            total_approve: pool.approve_lamports,
            total_reject: pool.reject_lamports,
        },
    )
}

// Distribution and expiry

/// Why distribution is refused, if it is. `platform_owner` owns the token
/// account that is to receive the platform's share.
pub open spec fn execute_distribution_error(pool: LaunchPool, platform_owner: Address) -> Option<
    LaunchError,
> {
    if platform_owner != pool.platform_wallet {
        Some(LaunchError::InvalidTokenAccount)
    } else if pool.paused {
        Some(LaunchError::PoolPaused)
    } else if pool.status != PoolStatus::Confirming {
        Some(LaunchError::NotConfirming)
    } else if pool.approve_lamports <= pool.reject_lamports {
        Some(LaunchError::NotApproved)
    } else {
        None
    }
}

/// Moves an approved pool to `Distributing` and returns the split that the
/// caller carries out: the winner's value, the minted supply's platform
/// share and the share kept for contributors. Anyone may call it, but the
/// platform's share only goes to a token account owned by the pool's
/// platform wallet.
pub fn execute_distribution(
    pool: &mut LaunchPool,
    pool_key: Address,
    platform_owner: Address,
) -> (r: Result<PoolFinalized, LaunchError>)
    ensures
        match execute_distribution_error(*old(pool), platform_owner) {
            Some(e) => r == Err::<PoolFinalized, LaunchError>(e) && *final(pool) == *old(pool),
            None => {
                &&& *final(pool) == (LaunchPool { status: PoolStatus::Distributing, ..*old(pool) })
                &&& r matches Ok(ev) && ev.pool == pool_key && ev.winner == old(pool).winner
                    && ev.token_mint == old(pool).token_mint && ev.total_sol
                    == old(pool).current_lamports && ev.winner_sol == winner_share(
                    old(pool).current_lamports as int,
                ) && ev.platform_tokens == platform_share(minted_supply())
                    && ev.contributor_tokens == contributor_share(minted_supply())
            },
        },
{
    if !platform_owner.same(&pool.platform_wallet) {
        return Err(LaunchError::InvalidTokenAccount);
    }
    if pool.paused {
        return Err(LaunchError::PoolPaused);
    }
    if pool.status != PoolStatus::Confirming {
        return Err(LaunchError::NotConfirming);
    }
    if pool.approve_lamports <= pool.reject_lamports {
        return Err(LaunchError::NotApproved);
    }
    let total_sol = pool.current_lamports;
    let winner_sol = winner_payout(total_sol);
    let supply = total_token_supply();
    let platform = platform_tokens(supply);
    let contributors = contributor_tokens(supply);
    pool.status = PoolStatus::Distributing;
    Ok(
        PoolFinalized {
            pool: pool_key,
            winner: pool.winner,
            token_mint: pool.token_mint,
            total_sol,
            winner_sol,
            contributor_tokens: contributors,
            platform_tokens: platform,
        },
    )
}

/// Why closing the confirmation window at `now` is refused, if it is.
pub open spec fn expire_confirmation_error(pool: LaunchPool, now: i64) -> Option<LaunchError> {
    if pool.status != PoolStatus::Confirming {
        Some(LaunchError::NotConfirming)
    } else if now < pool.confirm_deadline {
        Some(LaunchError::ConfirmNotExpired)
    } else {
        None
    }
}

/// After the confirmation window, cancels a pool whose approval did not win;
/// a pool with an approving majority is left for distribution.
pub fn expire_confirmation(pool: &mut LaunchPool, pool_key: Address, now: i64) -> (r: Result<
    Option<PoolCancelled>,
    LaunchError,
>)
    ensures
        match expire_confirmation_error(*old(pool), now) {
            Some(e) => r == Err::<Option<PoolCancelled>, LaunchError>(e) && *final(pool) == *old(
                pool,
            ),
            None => if old(pool).approve_lamports <= old(pool).reject_lamports {
                &&& *final(pool) == (LaunchPool { status: PoolStatus::Cancelled, ..*old(pool) })
                &&& r matches Ok(Some(ev)) && ev.pool == pool_key
            } else {
                &&& *final(pool) == *old(pool)
                &&& r matches Ok(None)
            },
        },
{
    if pool.status != PoolStatus::Confirming {
        return Err(LaunchError::NotConfirming);
    }
    if now < pool.confirm_deadline {
        return Err(LaunchError::ConfirmNotExpired);
    }
    if pool.approve_lamports <= pool.reject_lamports {
        pool.status = PoolStatus::Cancelled;
        Ok(Some(PoolCancelled { pool: pool_key }))
    } else {
        Ok(None)
    }
}

// Claims and refunds

/// Why a claim on `record` is refused, if it is.
pub open spec fn claim_error(pool: LaunchPool, record: ContributionRecord) -> Option<LaunchError> {
    if pool.paused {
        Some(LaunchError::PoolPaused)
    } else if pool.status != PoolStatus::Distributing && pool.status != PoolStatus::Complete {
        Some(LaunchError::PoolNotDistributing)
    } else if record.claimed {
        Some(LaunchError::AlreadyClaimed)
    } else if record.amount_lamports == 0 {
        Some(LaunchError::NoContribution)
    } else if record.amount_lamports > pool.current_lamports {
        Some(LaunchError::ArithmeticOverflow)
    } else {
        None
    }
}

/// The reward tokens owed on a contribution of `amount` to a pool holding `total`.
pub open spec fn entitlement(amount: int, total: int) -> int {
    user_share(contributor_share(minted_supply()), amount, total)
}

/// Pays `contributor` their share of the contributors' tokens, once.
pub fn claim(
    pool: &LaunchPool,
    record: &mut ContributionRecord,
    pool_key: Address,
    contributor: Address,
) -> (r: Result<TokensClaimed, LaunchError>)
    ensures
        match claim_error(*pool, *old(record)) {
            Some(e) => r == Err::<TokensClaimed, LaunchError>(e) && *final(record) == *old(record),
            None => {
                &&& *final(record) == (ContributionRecord { claimed: true, ..*old(record) })
                &&& r matches Ok(ev) && ev.pool == pool_key && ev.contributor == contributor
                    && ev.tokens == entitlement(
                    old(record).amount_lamports as int,
                    pool.current_lamports as int,
                )
            },
        },
{
    if pool.paused {
        return Err(LaunchError::PoolPaused);
    }
    if pool.status != PoolStatus::Distributing && pool.status != PoolStatus::Complete {
        return Err(LaunchError::PoolNotDistributing);
    }
    if record.claimed {
        return Err(LaunchError::AlreadyClaimed);
    }
    if record.amount_lamports == 0 {
        return Err(LaunchError::NoContribution);
    }
    if record.amount_lamports > pool.current_lamports {
        return Err(LaunchError::ArithmeticOverflow);
    }
    let contributors = contributor_tokens(total_token_supply());
    let tokens = user_tokens(contributors, record.amount_lamports, pool.current_lamports);
    record.claimed = true;
    Ok(TokensClaimed { pool: pool_key, contributor, tokens })
}

/// Why a refund at time `now` is refused, if it is. Pausing does not stop refunds.
pub open spec fn refund_error(pool: LaunchPool, record: ContributionRecord, now: i64) -> Option<
    LaunchError,
> {
    if !(pool.status == PoolStatus::Cancelled || (pool.status == PoolStatus::Funding && now
        > pool.deadline)) {
        Some(LaunchError::RefundNotAvailable)
    } else if record.claimed {
        Some(LaunchError::AlreadyClaimed)
    } else if record.amount_lamports == 0 {
        Some(LaunchError::NoContribution)
    } else if record.amount_lamports > pool.current_lamports {
        Some(LaunchError::ArithmeticOverflow)
    } else {
        None
    }
}

/// Returns `contributor`'s whole contribution from a cancelled pool, or from
/// one whose funding deadline passed without a proposal.
pub fn refund(
    pool: &mut LaunchPool,
    record: &mut ContributionRecord,
    pool_key: Address,
    contributor: Address,
    now: i64,
) -> (r: Result<ContributionRefunded, LaunchError>)
    ensures
        match refund_error(*old(pool), *old(record), now) {
            Some(e) => r == Err::<ContributionRefunded, LaunchError>(e) && *final(pool) == *old(
                pool,
            ) && *final(record) == *old(record),
            None => {
                &&& *final(record) == (ContributionRecord { claimed: true, ..*old(record) })
                &&& *final(pool) == (LaunchPool {
                    current_lamports: (old(pool).current_lamports
                        - old(record).amount_lamports) as u64,
                    ..*old(pool)
                })
                &&& r matches Ok(ev) && ev.pool == pool_key && ev.contributor == contributor
                    && ev.amount_lamports == old(record).amount_lamports
            },
        },
{
    let available = match pool.status {
        PoolStatus::Cancelled => true,
        PoolStatus::Funding => now > pool.deadline,
        _ => false,
    };
    if !available {
        return Err(LaunchError::RefundNotAvailable);
    }
    if record.claimed {
        return Err(LaunchError::AlreadyClaimed);
    }
    if record.amount_lamports == 0 {
        return Err(LaunchError::NoContribution);
    }
    if record.amount_lamports > pool.current_lamports {
        return Err(LaunchError::ArithmeticOverflow);
    }
    let amount = record.amount_lamports;
    record.claimed = true;
    pool.current_lamports = pool.current_lamports - amount;
    Ok(ContributionRefunded { pool: pool_key, contributor, amount_lamports: amount })
}

// Privileged operations

/// Why pausing is refused, if it is.
pub open spec fn pause_error(
    pool: LaunchPool,
    gate: Multisig,
    gate_key: Address,
    signer: Address,
) -> Option<LaunchError> {
    if gate_error(pool, gate, gate_key, signer) is Some {
        gate_error(pool, gate, gate_key, signer)
    } else if pool.paused {
        Some(LaunchError::AlreadyPaused)
    } else {
        None
    }
}

/// Blocks contributions, proposals, distribution and claims; refunds stay open.
pub fn pause_pool(
    pool: &mut LaunchPool,
    gate: &Multisig,
    gate_key: Address,
    signer: Address,
    pool_key: Address,
) -> (r: Result<PoolPaused, LaunchError>)
    ensures
        match pause_error(*old(pool), *gate, gate_key, signer) {
            Some(e) => r == Err::<PoolPaused, LaunchError>(e) && *final(pool) == *old(pool),
            None => {
                &&& *final(pool) == (LaunchPool { paused: true, ..*old(pool) })
                &&& r matches Ok(ev) && ev.pool == pool_key
            },
        },
{
    authorize(pool, gate, gate_key, signer)?;
    if pool.paused {
        return Err(LaunchError::AlreadyPaused);
    }
    pool.paused = true;
    Ok(PoolPaused { pool: pool_key })
}

/// Why unpausing is refused, if it is.
pub open spec fn unpause_error(
    pool: LaunchPool,
    gate: Multisig,
    gate_key: Address,
    signer: Address,
) -> Option<LaunchError> {
    if gate_error(pool, gate, gate_key, signer) is Some {
        gate_error(pool, gate, gate_key, signer)
    } else if !pool.paused {
        Some(LaunchError::NotPaused)
    } else {
        None
    }
}

/// Lifts a pause.
pub fn unpause_pool(
    pool: &mut LaunchPool,
    gate: &Multisig,
    gate_key: Address,
    signer: Address,
    pool_key: Address,
) -> (r: Result<PoolUnpaused, LaunchError>)
    ensures
        match unpause_error(*old(pool), *gate, gate_key, signer) {
            Some(e) => r == Err::<PoolUnpaused, LaunchError>(e) && *final(pool) == *old(pool),
            None => {
                &&& *final(pool) == (LaunchPool { paused: false, ..*old(pool) })
                &&& r matches Ok(ev) && ev.pool == pool_key
            },
        },
{
    authorize(pool, gate, gate_key, signer)?;
    if !pool.paused {
        return Err(LaunchError::NotPaused);
    }
    pool.paused = false;
    Ok(PoolUnpaused { pool: pool_key })
}

/// Why cancelling is refused, if it is.
pub open spec fn cancel_error(
    pool: LaunchPool,
    gate: Multisig,
    gate_key: Address,
    signer: Address,
) -> Option<LaunchError> {
    if gate_error(pool, gate, gate_key, signer) is Some {
        gate_error(pool, gate, gate_key, signer)
    } else if pool.status != PoolStatus::Funding && pool.status != PoolStatus::Confirming {
        Some(LaunchError::PoolNotFunding)
    } else {
        None
    }
}

/// Forces a pool that is still funding or confirming into `Cancelled`.
pub fn cancel_pool(
    pool: &mut LaunchPool,
    gate: &Multisig,
    gate_key: Address,
    signer: Address,
    pool_key: Address,
) -> (r: Result<PoolCancelled, LaunchError>)
    ensures
        match cancel_error(*old(pool), *gate, gate_key, signer) {
            Some(e) => r == Err::<PoolCancelled, LaunchError>(e) && *final(pool) == *old(pool),
            None => {
                &&& *final(pool) == (LaunchPool { status: PoolStatus::Cancelled, ..*old(pool) })
                &&& r matches Ok(ev) && ev.pool == pool_key
            },
        },
{
    authorize(pool, gate, gate_key, signer)?;
    if pool.status != PoolStatus::Funding && pool.status != PoolStatus::Confirming {
        return Err(LaunchError::PoolNotFunding);
    }
    pool.status = PoolStatus::Cancelled;
    Ok(PoolCancelled { pool: pool_key })
}

/// Why completing is refused, if it is.
pub open spec fn complete_error(
    pool: LaunchPool,
    gate: Multisig,
    gate_key: Address,
    signer: Address,
) -> Option<LaunchError> {
    if gate_error(pool, gate, gate_key, signer) is Some {
        gate_error(pool, gate, gate_key, signer)
    } else if pool.status != PoolStatus::Distributing {
        Some(LaunchError::PoolNotDistributing)
    } else {
        None
    }
}

/// Marks a distributing pool `Complete`. The caller then revokes the minting
/// authority over the reward token, for good.
pub fn complete_pool(
    pool: &mut LaunchPool,
    gate: &Multisig,
    gate_key: Address,
    signer: Address,
    pool_key: Address,
) -> (r: Result<PoolCompleted, LaunchError>)
    ensures
        match complete_error(*old(pool), *gate, gate_key, signer) {
            Some(e) => r == Err::<PoolCompleted, LaunchError>(e) && *final(pool) == *old(pool),
            None => {
                &&& *final(pool) == (LaunchPool { status: PoolStatus::Complete, ..*old(pool) })
                &&& r matches Ok(ev) && ev.pool == pool_key && ev.mint_authority_burned
            },
        },
{
    authorize(pool, gate, gate_key, signer)?;
    if pool.status != PoolStatus::Distributing {
        return Err(LaunchError::PoolNotDistributing);
    }
    pool.status = PoolStatus::Complete;
    Ok(PoolCompleted { pool: pool_key, mint_authority_burned: true })
}

} // verus!
