use vstd::prelude::*;

use crate::address::Address;
use crate::error::LaunchError;
use crate::distribution::{contributor_share, lemma_supply_shares, minted_supply};
use crate::ledger::{
    distributed, lemma_sum_bound, lemma_sum_bound_one, lemma_sum_nonnegative, proposed, measure, sum_of, LedgerEntry, Measure,
    Payout, PoolLedger,
};
use crate::lifecycle::{
    entitlement, cancel_error, claim_error, complete_error, confirm_vote_error, contribute_error,
    contributed_pool, contributed_record, execute_distribution_error, expire_confirmation_error,
    propose_finalize_error, refund_error,
};
use crate::multisig::Multisig;
use crate::records::{ConfirmationVoteRecord, ContributionRecord, LaunchPool, PoolStatus};

verus! {

/// The sum of a sequence of amounts.
pub open spec fn total_of(amounts: Seq<u64>) -> int
    decreases amounts.len(),
{
    if amounts.len() == 0 {
        0
    } else {
        total_of(amounts.drop_last()) + amounts.last()
    }
}

/// The pool and record after one contributor makes each contribution of
/// `amounts` in turn, or the first refusal.
pub open spec fn contribute_each(
    pool: LaunchPool,
    record: ContributionRecord,
    pool_key: Address,
    contributor: Address,
    amounts: Seq<u64>,
    now: i64,
) -> Result<(LaunchPool, ContributionRecord), LaunchError>
    decreases amounts.len(),
{
    if amounts.len() == 0 {
        Ok((pool, record))
    } else {
        match contribute_each(pool, record, pool_key, contributor, amounts.drop_last(), now) {
            Err(e) => Err(e),
            Ok((p, c)) => match contribute_error(p, c, amounts.last(), now) {
                Some(e) => Err(e),
                None => Ok(
                    (
                        contributed_pool(p, c, amounts.last()),
                        contributed_record(c, pool_key, contributor, amounts.last()),
                    ),
                ),
            },
        }
    }
}

/// Repeated contributions accumulate: after contributions a1..ak from one
/// contributor with no earlier deposit, their record holds a1 + ... + ak, the
/// pool grew by that sum, and the contributor was counted exactly once.
pub proof fn lemma_contributions_accumulate(
    pool: LaunchPool,
    record: ContributionRecord,
    pool_key: Address,
    contributor: Address,
    amounts: Seq<u64>,
    now: i64,
)
    requires
        pool.status == PoolStatus::Funding,
        !pool.paused,
        now < pool.deadline,
        record.amount_lamports == 0,
        pool.contributor_count < u32::MAX,
        pool.current_lamports + total_of(amounts) <= u64::MAX,
        forall|i: int| 0 <= i < amounts.len() ==> amounts[i] > 0,
        amounts.len() > 0,
    ensures
        contribute_each(pool, record, pool_key, contributor, amounts, now) matches Ok((p, c)) && {
            &&& c.amount_lamports == total_of(amounts)
            &&& c.contributor == contributor
            &&& p.current_lamports == pool.current_lamports + total_of(amounts)
            &&& p.contributor_count == pool.contributor_count + 1
        },
    decreases amounts.len(),
{
    let rest = amounts.drop_last();
    let a = amounts.last();
    lemma_total_nonnegative(rest);
    if rest.len() == 0 {
        assert(total_of(amounts) == a) by {
            reveal_with_fuel(total_of, 2);
        }
    } else {
        lemma_contributions_accumulate(pool, record, pool_key, contributor, rest, now);
    }
}

proof fn lemma_total_nonnegative(amounts: Seq<u64>)
    ensures
        total_of(amounts) >= 0,
    decreases amounts.len(),
{
    if amounts.len() > 0 {
        lemma_total_nonnegative(amounts.drop_last());
    }
}

/// Every operation attempted from a status that does not allow it is
/// refused; each operation's own contract adds that a refusal leaves every
/// record as it was.
pub proof fn lemma_status_gates_operations(
    pool: LaunchPool,
    record: ContributionRecord,
    vote: ConfirmationVoteRecord,
    gate: Multisig,
    gate_key: Address,
    signer: Address,
    platform_owner: Address,
    amount: u64,
    approve: bool,
    now: i64,
)
    ensures
        pool.status != PoolStatus::Funding ==> contribute_error(pool, record, amount, now) is Some,
        pool.status != PoolStatus::Funding ==> propose_finalize_error(
            pool,
            gate,
            gate_key,
            signer,
            now,
        ) is Some,
        pool.status != PoolStatus::Confirming ==> confirm_vote_error(
            pool,
            record,
            vote,
            approve,
            now,
        ) is Some,
        pool.status != PoolStatus::Confirming ==> execute_distribution_error(pool, platform_owner)
            is Some,
        pool.status != PoolStatus::Confirming ==> expire_confirmation_error(pool, now) is Some,
        pool.status != PoolStatus::Distributing && pool.status != PoolStatus::Complete
            ==> claim_error(pool, record) is Some,
        pool.status != PoolStatus::Cancelled && pool.status != PoolStatus::Funding ==> refund_error(
            pool,
            record,
            now,
        ) is Some,
        pool.status != PoolStatus::Funding && pool.status != PoolStatus::Confirming
            ==> cancel_error(pool, gate, gate_key, signer) is Some,
        pool.status != PoolStatus::Distributing ==> complete_error(pool, gate, gate_key, signer) is Some,
{
}

/// A pause blocks contributions, proposals, distribution and claims, but a
/// contributor of a cancelled pool who has not been paid can still get a refund.
pub proof fn lemma_pause_keeps_refunds_open(
    pool: LaunchPool,
    record: ContributionRecord,
    gate: Multisig,
    gate_key: Address,
    signer: Address,
    platform_owner: Address,
    amount: u64,
    now: i64,
)
    requires
        pool.paused,
    ensures
        contribute_error(pool, record, amount, now) is Some,
        propose_finalize_error(pool, gate, gate_key, signer, now) is Some,
        execute_distribution_error(pool, platform_owner) is Some,
        claim_error(pool, record) is Some,
        pool.status == PoolStatus::Cancelled && !record.claimed && 0 < record.amount_lamports
            <= pool.current_lamports ==> refund_error(pool, record, now) is None,
{
}

/// Value is conserved: what the pool holds in escrow, plus what went to the
/// winner, plus what was refunded, is everything ever contributed; and the
/// pool's current amount is everything contributed less the refunds.
pub proof fn lemma_value_conserved(l: PoolLedger)
    requires
        l.wf(),
    ensures
        l.escrow_lamports + l.winner_paid + sum_of(l.entries@, Measure::Refunded) == sum_of(
            l.entries@,
            Measure::Amount,
        ),
        l.pool.current_lamports == sum_of(l.entries@, Measure::Amount) - sum_of(
            l.entries@,
            Measure::Refunded,
        ),
{
}

/// The tallies are the sums of the weights of the contributors who voted
/// for and against, and together never exceed the pool's current amount at
/// the time of the proposal; while the proposal stands that is still the
/// current amount.
pub proof fn lemma_vote_weight_bound(l: PoolLedger)
    requires
        l.wf(),
    ensures
        l.pool.approve_lamports == sum_of(l.entries@, Measure::Approve),
        l.pool.reject_lamports == sum_of(l.entries@, Measure::Reject),
        l.pool.approve_lamports + l.pool.reject_lamports <= l.proposal_lamports,
        proposed(l.pool.status) ==> l.proposal_lamports == l.pool.current_lamports,
{
}

/// A contribution not yet claimed or refunded never exceeds the pool's
/// current amount, so a claim or refund of it is never refused for overflow.
pub proof fn lemma_unclaimed_within_current(l: PoolLedger, contributor: Address, now: i64)
    requires
        l.wf(),
    ensures
        !l.record_of(contributor).claimed ==> l.record_of(contributor).amount_lamports
            <= l.pool.current_lamports,
        claim_error(l.pool, l.record_of(contributor)) != Some(LaunchError::ArithmeticOverflow),
        refund_error(l.pool, l.record_of(contributor), now) != Some(
            LaunchError::ArithmeticOverflow,
        ),
{
    let s = l.entries@;
    if l.has_entry(contributor) {
        let i = l.index_of(contributor);
        assert forall|k: int| 0 <= k < s.len() implies measure(#[trigger] s[k], Measure::Refunded)
            <= measure(s[k], Measure::Amount) by {
            assert(l.entry_ok(s[k]));
        }
        assert(l.entry_ok(s[i]));
        if !s[i].contribution.claimed {
            lemma_sum_bound_one(s, Measure::Refunded, Measure::Amount, i);
        }
    }
}

/// Every contributor who claimed took exactly their entitled share, and all
/// claims together stay within the contributors' part of the minted supply.
pub proof fn lemma_claims_bounded(l: PoolLedger)
    requires
        l.wf(),
    ensures
        forall|i: int|
            0 <= i < l.entries@.len() ==> ((#[trigger] l.entries@[i]).payout matches Payout::Tokens(
                t,
            ) ==> t == entitlement(
                l.entries@[i].contribution.amount_lamports as int,
                l.pool.current_lamports as int,
            )),
        sum_of(l.entries@, Measure::Tokens) <= contributor_share(minted_supply()),
{
    let s = l.entries@;
    assert forall|i: int| 0 <= i < s.len() implies ((#[trigger] s[i]).payout matches Payout::Tokens(
        t,
    ) ==> t == entitlement(s[i].contribution.amount_lamports as int, l.pool.current_lamports as int)) by {
        assert(l.entry_ok(s[i]));
    }
    lemma_supply_shares();
    if distributed(l.pool.status) {
        assert forall|k: int| 0 <= k < s.len() implies measure(
            #[trigger] s[k],
            Measure::TokenClaimed,
        ) + measure(s[k], Measure::Refunded) <= measure(s[k], Measure::Amount) by {
            assert(l.entry_ok(s[k]));
        }
        lemma_sum_bound(s, Measure::TokenClaimed, Measure::Refunded, Measure::Amount);
        let c = contributor_share(minted_supply());
        let v = l.pool.current_lamports as int;
        let tt = sum_of(s, Measure::Tokens);
        let aa = sum_of(s, Measure::TokenClaimed);
        assert(tt <= c) by (nonlinear_arith)
            requires tt * v <= c * aa, aa <= v, 0 < v, 0 <= c;
    } else {
        lemma_sum_nonnegative(s, Measure::Tokens);
    }
}

/// Once a claim succeeds the record is marked, and a second claim on it is
/// refused as already claimed.
pub proof fn lemma_second_claim_refused(pool: LaunchPool, record: ContributionRecord)
    requires
        claim_error(pool, record) is None,
    ensures
        claim_error(pool, ContributionRecord { claimed: true, ..record }) == Some(
            LaunchError::AlreadyClaimed,
        ),
{
}

} // verus!
