use launch_pool::address::Address;
use launch_pool::error::LaunchError;
use launch_pool::lifecycle::{
    cancel_pool, claim, complete_pool, confirm_vote, contribute, create_pool,
    execute_distribution, expire_confirmation, pause_pool, pool_created, propose_finalize,
    refund, unpause_pool,
};
use launch_pool::multisig::{create_multisig, Multisig};
use launch_pool::records::{ConfirmationVoteRecord, ContributionRecord, LaunchPool, PoolStatus};

fn addr(n: u8) -> Address {
    Address::new([n; 32])
}

const GATE_KEY: u8 = 50;
const POOL_KEY: u8 = 60;
const NOW: i64 = 1_000;
const DEADLINE: i64 = 2_000;

fn gate() -> Multisig {
    create_multisig([addr(1), addr(2), addr(3)], 2, 0).unwrap()
}

fn new_pool() -> LaunchPool {
    create_pool(
        &gate(),
        addr(GATE_KEY),
        addr(1),
        addr(70),
        100,
        DEADLINE,
        "launch-1".to_string(),
        0,
        NOW,
    )
    .unwrap()
}

fn same_pool(a: &LaunchPool, b: &LaunchPool) -> bool {
    a.authority == b.authority
        && a.pool_id == b.pool_id
        && a.target_lamports == b.target_lamports
        && a.current_lamports == b.current_lamports
        && a.deadline == b.deadline
        && a.status == b.status
        && a.winner == b.winner
        && a.platform_wallet == b.platform_wallet
        && a.token_mint == b.token_mint
        && a.merkle_root == b.merkle_root
        && a.confirm_deadline == b.confirm_deadline
        && a.confirm_duration_secs == b.confirm_duration_secs
        && a.approve_lamports == b.approve_lamports
        && a.reject_lamports == b.reject_lamports
        && a.contributor_count == b.contributor_count
        && a.paused == b.paused
}

fn funded_pool(amounts: &[(u8, u64)]) -> (LaunchPool, Vec<ContributionRecord>) {
    let mut pool = new_pool();
    let mut records = Vec::new();
    for &(who, amount) in amounts {
        let mut r = ContributionRecord::empty();
        contribute(&mut pool, &mut r, addr(POOL_KEY), addr(who), amount, NOW).unwrap();
        records.push(r);
    }
    (pool, records)
}

fn propose(pool: &mut LaunchPool) {
    propose_finalize(
        pool,
        &gate(),
        addr(GATE_KEY),
        addr(2),
        addr(POOL_KEY),
        addr(80),
        addr(90),
        [7u8; 32],
        NOW,
    )
    .unwrap();
}

#[test]
fn create_pool_starts_funding_with_zeroed_counters() {
    let p = new_pool();
    assert_eq!(p.status, PoolStatus::Funding);
    assert_eq!(p.current_lamports, 0);
    assert_eq!(p.contributor_count, 0);
    assert_eq!(p.approve_lamports, 0);
    assert_eq!(p.reject_lamports, 0);
    assert_eq!(p.confirm_duration_secs, 172_800);
    assert_eq!(p.confirm_deadline, 0);
    assert!(!p.paused);
    assert!(p.authority == addr(GATE_KEY));
    assert!(p.platform_wallet == addr(70));
    assert!(p.winner == Address::zero());
    assert_eq!(p.merkle_root, [0u8; 32]);
    let ev = pool_created(addr(POOL_KEY), &p);
    assert_eq!(ev.pool_id, "launch-1");
    assert_eq!(ev.confirm_duration_secs, 172_800);
}

fn try_create(payer: u8, target: u64, deadline: i64, id: &str, window: i64) -> Result<LaunchPool, LaunchError> {
    create_pool(&gate(), addr(GATE_KEY), addr(payer), addr(70), target, deadline, id.to_string(), window, NOW)
}

#[test]
fn create_pool_validation_errors() {
    assert_eq!(try_create(9, 100, DEADLINE, "x", 0).unwrap_err(), LaunchError::NotMultisigSigner);
    assert_eq!(try_create(1, 0, DEADLINE, "x", 0).unwrap_err(), LaunchError::InvalidTarget);
    assert_eq!(try_create(1, 100, NOW, "x", 0).unwrap_err(), LaunchError::DeadlinePassed);
    let long = "a".repeat(65);
    assert_eq!(try_create(1, 100, DEADLINE, &long, 0).unwrap_err(), LaunchError::IdTooLong);
    assert_eq!(try_create(1, 100, DEADLINE, "x", 86_399).unwrap_err(), LaunchError::ConfirmTooShort);
    assert_eq!(try_create(1, 100, DEADLINE, "x", 1).unwrap_err(), LaunchError::ConfirmTooShort);
    assert_eq!(try_create(1, 100, DEADLINE, "x", 604_801).unwrap_err(), LaunchError::ConfirmTooLong);
}

#[test]
fn create_pool_accepts_window_bounds_and_longest_id() {
    let id = "b".repeat(64);
    assert_eq!(try_create(3, 1, DEADLINE, &id, 86_400).unwrap().confirm_duration_secs, 86_400);
    assert_eq!(try_create(3, 1, DEADLINE, "y", 604_800).unwrap().confirm_duration_secs, 604_800);
}

#[test]
fn repeated_contributions_accumulate_and_count_once() {
    let mut pool = new_pool();
    let mut r = ContributionRecord::empty();
    let amounts = [5u64, 7, 11, 13];
    for a in amounts {
        contribute(&mut pool, &mut r, addr(POOL_KEY), addr(4), a, NOW).unwrap();
    }
    assert_eq!(r.amount_lamports, 36);
    assert!(r.contributor == addr(4));
    assert!(r.pool == addr(POOL_KEY));
    assert!(!r.claimed);
    assert_eq!(pool.contributor_count, 1);
    assert_eq!(pool.current_lamports, 36);
}

#[test]
fn contribute_reports_running_total() {
    let mut pool = new_pool();
    let mut a = ContributionRecord::empty();
    let mut b = ContributionRecord::empty();
    contribute(&mut pool, &mut a, addr(POOL_KEY), addr(4), 60, NOW).unwrap();
    let ev = contribute(&mut pool, &mut b, addr(POOL_KEY), addr(5), 40, NOW).unwrap();
    assert_eq!(ev.amount_lamports, 40);
    assert_eq!(ev.total_lamports, 100);
    assert_eq!(pool.contributor_count, 2);
}

#[test]
fn contribute_errors_leave_state_unchanged() {
    let mut pool = new_pool();
    let mut r = ContributionRecord::empty();
    let before = pool.clone();
    assert_eq!(contribute(&mut pool, &mut r, addr(POOL_KEY), addr(4), 0, NOW).unwrap_err(), LaunchError::InvalidAmount);
    assert_eq!(contribute(&mut pool, &mut r, addr(POOL_KEY), addr(4), 5, DEADLINE).unwrap_err(), LaunchError::DeadlinePassed);
    assert!(same_pool(&pool, &before));
    assert_eq!(r.amount_lamports, 0);
    r.amount_lamports = u64::MAX;
    assert_eq!(contribute(&mut pool, &mut r, addr(POOL_KEY), addr(4), 1, NOW).unwrap_err(), LaunchError::ArithmeticOverflow);
    assert!(same_pool(&pool, &before));
}

#[test]
fn contribute_refused_outside_funding() {
    let (mut pool, mut recs) = funded_pool(&[(4, 10)]);
    propose(&mut pool);
    let before = pool.clone();
    assert_eq!(contribute(&mut pool, &mut recs[0], addr(POOL_KEY), addr(4), 5, NOW).unwrap_err(), LaunchError::PoolNotFunding);
    assert!(same_pool(&pool, &before));
    assert_eq!(recs[0].amount_lamports, 10);
}

#[test]
fn propose_sets_window_and_winner() {
    let (mut pool, _) = funded_pool(&[(4, 10)]);
    let ev = propose_finalize(&mut pool, &gate(), addr(GATE_KEY), addr(3), addr(POOL_KEY), addr(80), addr(90), [7u8; 32], 5_000).unwrap();
    assert_eq!(pool.status, PoolStatus::Confirming);
    assert_eq!(pool.confirm_deadline, 5_000 + 172_800);
    assert_eq!(ev.confirm_deadline, 177_800);
    assert!(pool.winner == addr(80));
    assert!(pool.token_mint == addr(90));
    assert_eq!(pool.merkle_root, [7u8; 32]);
}

#[test]
fn propose_gate_and_state_errors() {
    let mut empty = new_pool();
    assert_eq!(
        propose_finalize(&mut empty, &gate(), addr(GATE_KEY), addr(1), addr(POOL_KEY), addr(80), addr(90), [0u8; 32], NOW).unwrap_err(),
        LaunchError::NoContributions
    );
    let (mut pool, _) = funded_pool(&[(4, 10)]);
    let before = pool.clone();
    assert_eq!(
        propose_finalize(&mut pool, &gate(), addr(51), addr(1), addr(POOL_KEY), addr(80), addr(90), [0u8; 32], NOW).unwrap_err(),
        LaunchError::WrongAuthority
    );
    assert_eq!(
        propose_finalize(&mut pool, &gate(), addr(GATE_KEY), addr(9), addr(POOL_KEY), addr(80), addr(90), [0u8; 32], NOW).unwrap_err(),
        LaunchError::NotMultisigSigner
    );
    assert_eq!(
        propose_finalize(&mut pool, &gate(), addr(GATE_KEY), addr(1), addr(POOL_KEY), addr(80), addr(90), [0u8; 32], i64::MAX).unwrap_err(),
        LaunchError::ArithmeticOverflow
    );
    assert!(same_pool(&pool, &before));
}

#[test]
fn vote_adds_weight_once() {
    let (mut pool, recs) = funded_pool(&[(4, 60), (5, 40)]);
    propose(&mut pool);
    let mut va = ConfirmationVoteRecord::empty();
    let mut vb = ConfirmationVoteRecord::empty();
    let ev = confirm_vote(&mut pool, &recs[0], &mut va, addr(POOL_KEY), addr(4), true, NOW).unwrap();
    assert_eq!(ev.weight, 60);
    assert_eq!(ev.total_approve, 60);
    confirm_vote(&mut pool, &recs[1], &mut vb, addr(POOL_KEY), addr(5), false, NOW).unwrap();
    assert_eq!(pool.approve_lamports, 60);
    assert_eq!(pool.reject_lamports, 40);
    assert!(va.has_voted && va.approve && va.weight == 60);
    let before = pool.clone();
    assert_eq!(confirm_vote(&mut pool, &recs[0], &mut va, addr(POOL_KEY), addr(4), false, NOW).unwrap_err(), LaunchError::AlreadyVoted);
    assert!(same_pool(&pool, &before));
    assert!(va.approve);
}

#[test]
fn vote_errors() {
    let (mut pool, recs) = funded_pool(&[(4, 60)]);
    let mut v = ConfirmationVoteRecord::empty();
    assert_eq!(confirm_vote(&mut pool, &recs[0], &mut v, addr(POOL_KEY), addr(4), true, NOW).unwrap_err(), LaunchError::NotConfirming);
    propose(&mut pool);
    let deadline = pool.confirm_deadline;
    assert_eq!(confirm_vote(&mut pool, &recs[0], &mut v, addr(POOL_KEY), addr(4), true, deadline).unwrap_err(), LaunchError::ConfirmExpired);
    let nobody = ContributionRecord::empty();
    assert_eq!(confirm_vote(&mut pool, &nobody, &mut v, addr(POOL_KEY), addr(6), true, NOW).unwrap_err(), LaunchError::NoContribution);
    assert!(!v.has_voted);
}

#[test]
fn distribution_requires_strict_majority() {
    let (mut pool, recs) = funded_pool(&[(4, 50), (5, 50)]);
    propose(&mut pool);
    let mut va = ConfirmationVoteRecord::empty();
    let mut vb = ConfirmationVoteRecord::empty();
    confirm_vote(&mut pool, &recs[0], &mut va, addr(POOL_KEY), addr(4), true, NOW).unwrap();
    confirm_vote(&mut pool, &recs[1], &mut vb, addr(POOL_KEY), addr(5), false, NOW).unwrap();
    assert_eq!(execute_distribution(&mut pool, addr(POOL_KEY), addr(70)).unwrap_err(), LaunchError::NotApproved);
    assert_eq!(pool.status, PoolStatus::Confirming);
}

#[test]
fn distribution_split_for_a_billion() {
    let (mut pool, recs) = funded_pool(&[(4, 1_000_000_000)]);
    propose(&mut pool);
    let mut v = ConfirmationVoteRecord::empty();
    confirm_vote(&mut pool, &recs[0], &mut v, addr(POOL_KEY), addr(4), true, NOW).unwrap();
    let ev = execute_distribution(&mut pool, addr(POOL_KEY), addr(70)).unwrap();
    assert_eq!(ev.total_sol, 1_000_000_000);
    assert_eq!(ev.winner_sol, 50_000_000);
    assert_eq!(ev.platform_tokens, 10_000_000_000_000);
    assert_eq!(ev.contributor_tokens, 940_000_000_000_000);
    assert!(ev.winner == addr(80));
    assert_eq!(pool.status, PoolStatus::Distributing);
    assert_eq!(pool.current_lamports, 1_000_000_000);
    assert_eq!(execute_distribution(&mut pool, addr(POOL_KEY), addr(70)).unwrap_err(), LaunchError::NotConfirming);
}

#[test]
fn distribution_of_three_pays_winner_nothing() {
    let (mut pool, recs) = funded_pool(&[(4, 3)]);
    propose(&mut pool);
    let mut v = ConfirmationVoteRecord::empty();
    confirm_vote(&mut pool, &recs[0], &mut v, addr(POOL_KEY), addr(4), true, NOW).unwrap();
    assert_eq!(execute_distribution(&mut pool, addr(POOL_KEY), addr(70)).unwrap().winner_sol, 0);
}

#[test]
fn expiry_cancels_only_without_majority() {
    let (mut pool, recs) = funded_pool(&[(4, 60)]);
    propose(&mut pool);
    let deadline = pool.confirm_deadline;
    assert_eq!(expire_confirmation(&mut pool, addr(POOL_KEY), deadline - 1).unwrap_err(), LaunchError::ConfirmNotExpired);
    let mut held = pool.clone();
    assert!(expire_confirmation(&mut pool, addr(POOL_KEY), deadline).unwrap().is_some());
    assert_eq!(pool.status, PoolStatus::Cancelled);
    let mut v = ConfirmationVoteRecord::empty();
    confirm_vote(&mut held, &recs[0], &mut v, addr(POOL_KEY), addr(4), true, NOW).unwrap();
    assert!(expire_confirmation(&mut held, addr(POOL_KEY), deadline + 10).unwrap().is_none());
    assert_eq!(held.status, PoolStatus::Confirming);
    assert!(execute_distribution(&mut held, addr(POOL_KEY), addr(70)).is_ok());
}

#[test]
fn claim_once_then_already_claimed() {
    let (mut pool, mut recs) = funded_pool(&[(4, 60), (5, 40)]);
    propose(&mut pool);
    let mut v = ConfirmationVoteRecord::empty();
    confirm_vote(&mut pool, &recs[0], &mut v, addr(POOL_KEY), addr(4), true, NOW).unwrap();
    assert_eq!(claim(&pool, &mut recs[0], addr(POOL_KEY), addr(4)).unwrap_err(), LaunchError::PoolNotDistributing);
    execute_distribution(&mut pool, addr(POOL_KEY), addr(70)).unwrap();
    let ev = claim(&pool, &mut recs[0], addr(POOL_KEY), addr(4)).unwrap();
    assert_eq!(ev.tokens, 564_000_000_000_000);
    assert!(recs[0].claimed);
    assert_eq!(claim(&pool, &mut recs[0], addr(POOL_KEY), addr(4)).unwrap_err(), LaunchError::AlreadyClaimed);
    let mut nobody = ContributionRecord::empty();
    assert_eq!(claim(&pool, &mut nobody, addr(POOL_KEY), addr(6)).unwrap_err(), LaunchError::NoContribution);
}

#[test]
fn refund_paths() {
    let (mut pool, mut recs) = funded_pool(&[(4, 60), (5, 40)]);
    assert_eq!(refund(&mut pool, &mut recs[0], addr(POOL_KEY), addr(4), DEADLINE).unwrap_err(), LaunchError::RefundNotAvailable);
    let ev = refund(&mut pool, &mut recs[0], addr(POOL_KEY), addr(4), DEADLINE + 1).unwrap();
    assert_eq!(ev.amount_lamports, 60);
    assert_eq!(pool.current_lamports, 40);
    assert!(recs[0].claimed);
    assert_eq!(refund(&mut pool, &mut recs[0], addr(POOL_KEY), addr(4), DEADLINE + 1).unwrap_err(), LaunchError::AlreadyClaimed);
    propose(&mut pool);
    assert_eq!(refund(&mut pool, &mut recs[1], addr(POOL_KEY), addr(5), DEADLINE + 1).unwrap_err(), LaunchError::RefundNotAvailable);
}

#[test]
fn paused_pool_blocks_all_but_refund() {
    let (mut pool, mut recs) = funded_pool(&[(4, 60), (5, 40)]);
    pause_pool(&mut pool, &gate(), addr(GATE_KEY), addr(1), addr(POOL_KEY)).unwrap();
    assert!(pool.paused);
    let mut fresh = ContributionRecord::empty();
    assert_eq!(contribute(&mut pool, &mut fresh, addr(POOL_KEY), addr(6), 5, NOW).unwrap_err(), LaunchError::PoolPaused);
    assert_eq!(
        propose_finalize(&mut pool, &gate(), addr(GATE_KEY), addr(1), addr(POOL_KEY), addr(80), addr(90), [0u8; 32], NOW).unwrap_err(),
        LaunchError::PoolPaused
    );
    assert_eq!(execute_distribution(&mut pool, addr(POOL_KEY), addr(70)).unwrap_err(), LaunchError::PoolPaused);
    assert_eq!(claim(&pool, &mut recs[0], addr(POOL_KEY), addr(4)).unwrap_err(), LaunchError::PoolPaused);
    cancel_pool(&mut pool, &gate(), addr(GATE_KEY), addr(3), addr(POOL_KEY)).unwrap();
    assert_eq!(pool.status, PoolStatus::Cancelled);
    let ev = refund(&mut pool, &mut recs[0], addr(POOL_KEY), addr(4), NOW).unwrap();
    assert_eq!(ev.amount_lamports, 60);
    assert_eq!(pool.current_lamports, 40);
}

#[test]
fn pause_unpause_cancel_complete_rules() {
    let (mut pool, recs) = funded_pool(&[(4, 60)]);
    assert_eq!(unpause_pool(&mut pool, &gate(), addr(GATE_KEY), addr(1), addr(POOL_KEY)).unwrap_err(), LaunchError::NotPaused);
    pause_pool(&mut pool, &gate(), addr(GATE_KEY), addr(1), addr(POOL_KEY)).unwrap();
    assert_eq!(pause_pool(&mut pool, &gate(), addr(GATE_KEY), addr(2), addr(POOL_KEY)).unwrap_err(), LaunchError::AlreadyPaused);
    assert_eq!(pause_pool(&mut pool, &gate(), addr(GATE_KEY), addr(8), addr(POOL_KEY)).unwrap_err(), LaunchError::NotMultisigSigner);
    unpause_pool(&mut pool, &gate(), addr(GATE_KEY), addr(2), addr(POOL_KEY)).unwrap();
    assert!(!pool.paused);
    assert_eq!(complete_pool(&mut pool, &gate(), addr(GATE_KEY), addr(1), addr(POOL_KEY)).unwrap_err(), LaunchError::PoolNotDistributing);
    propose(&mut pool);
    let mut v = ConfirmationVoteRecord::empty();
    confirm_vote(&mut pool, &recs[0], &mut v, addr(POOL_KEY), addr(4), true, NOW).unwrap();
    execute_distribution(&mut pool, addr(POOL_KEY), addr(70)).unwrap();
    let before = pool.clone();
    assert_eq!(cancel_pool(&mut pool, &gate(), addr(GATE_KEY), addr(1), addr(POOL_KEY)).unwrap_err(), LaunchError::PoolNotFunding);
    assert!(same_pool(&pool, &before));
    assert_eq!(complete_pool(&mut pool, &gate(), addr(51), addr(1), addr(POOL_KEY)).unwrap_err(), LaunchError::WrongAuthority);
    let ev = complete_pool(&mut pool, &gate(), addr(GATE_KEY), addr(1), addr(POOL_KEY)).unwrap();
    assert!(ev.mint_authority_burned);
    assert_eq!(pool.status, PoolStatus::Complete);
    assert_eq!(complete_pool(&mut pool, &gate(), addr(GATE_KEY), addr(1), addr(POOL_KEY)).unwrap_err(), LaunchError::PoolNotDistributing);
}

#[test]
fn refunded_record_carries_no_vote() {
    let (mut pool, mut recs) = funded_pool(&[(4, 100), (5, 10)]);
    refund(&mut pool, &mut recs[0], addr(POOL_KEY), addr(4), DEADLINE + 1).unwrap();
    propose(&mut pool);
    let mut v = ConfirmationVoteRecord::empty();
    let before = pool.clone();
    assert_eq!(
        confirm_vote(&mut pool, &recs[0], &mut v, addr(POOL_KEY), addr(4), true, NOW).unwrap_err(),
        LaunchError::AlreadyClaimed
    );
    assert!(same_pool(&pool, &before));
    assert!(!v.has_voted);
}

#[test]
fn distribution_refuses_foreign_platform_account() {
    let (mut pool, recs) = funded_pool(&[(4, 10)]);
    propose(&mut pool);
    let mut v = ConfirmationVoteRecord::empty();
    confirm_vote(&mut pool, &recs[0], &mut v, addr(POOL_KEY), addr(4), true, NOW).unwrap();
    let before = pool.clone();
    assert_eq!(
        execute_distribution(&mut pool, addr(POOL_KEY), addr(9)).unwrap_err(),
        LaunchError::InvalidTokenAccount
    );
    assert!(same_pool(&pool, &before));
}
