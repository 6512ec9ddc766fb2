use vstd::prelude::*;

use crate::address::Address;
use crate::distribution::{
    lemma_supply_shares, contributor_share, minted_supply, platform_share, platform_tokens, total_token_supply,
    winner_share,
};
use crate::error::LaunchError;
use crate::events::{
    ConfirmationVoteCast, ContributionMade, ContributionRefunded, FinalizeProposed,
    PoolCancelled, PoolCompleted, PoolFinalized, PoolPaused, PoolUnpaused, TokensClaimed,
};
use crate::lifecycle;
use crate::lifecycle::{
    cancel_error, cast_vote, claim_error, complete_error, confirm_vote_error, contribute_error,
    contributed_pool, contributed_record, entitlement, execute_distribution_error,
    expire_confirmation_error, pause_error, propose_finalize_error, proposed_pool, refund_error,
    unpause_error, voted_pool,
};
use crate::multisig::Multisig;
use crate::records::{ConfirmationVoteRecord, ContributionRecord, LaunchPool, PoolStatus};

verus! {

/// What a contributor has been paid out of a pool.
#[derive(Debug, Clone, Copy, PartialEq, Eq, Structural)]
pub enum Payout {
    Unpaid,
    /// The contribution, this much, went back to the contributor.
    Refunded(u64),
    /// The contributor took this many reward tokens.
    Tokens(u64),
}

/// Everything the pool holds for one contributor, keyed by their identity.
#[derive(Debug, Clone, Copy)]
pub struct LedgerEntry {
    pub contribution: ContributionRecord,
    pub vote: ConfirmationVoteRecord,
    pub payout: Payout,
}

/// A quantity that can be summed over the entries of a ledger.
pub enum Measure {
    Amount,
    Refunded,
    TokenClaimed,
    Tokens,
    Approve,
    Reject,
    Voted,
}

/// The quantity `m` of one entry.
pub open spec fn measure(e: LedgerEntry, m: Measure) -> int {
    match m {
        Measure::Amount => e.contribution.amount_lamports as int,
        Measure::Refunded => match e.payout {
            Payout::Refunded(x) => x as int,
            _ => 0,
        },
        Measure::TokenClaimed => if e.payout is Tokens {
            e.contribution.amount_lamports as int
        } else {
            0
        },
        Measure::Tokens => match e.payout {
            Payout::Tokens(t) => t as int,
            _ => 0,
        },
        Measure::Approve => if e.vote.has_voted && e.vote.approve {
            e.vote.weight as int
        } else {
            0
        },
        Measure::Reject => if e.vote.has_voted && !e.vote.approve {
            e.vote.weight as int
        } else {
            0
        },
        Measure::Voted => if e.vote.has_voted {
            e.vote.weight as int
        } else {
            0
        },
    }
}

/// The sum of quantity `m` over `s`.
pub open spec fn sum_of(s: Seq<LedgerEntry>, m: Measure) -> int
    decreases s.len(),
{
    if s.len() == 0 {
        0
    } else {
        sum_of(s.drop_last(), m) + measure(s.last(), m)
    }
}

pub proof fn lemma_sum_push(s: Seq<LedgerEntry>, e: LedgerEntry, m: Measure)
    ensures
        sum_of(s.push(e), m) == sum_of(s, m) + measure(e, m),
{
    assert(s.push(e).drop_last() =~= s);
}

pub proof fn lemma_sum_update(s: Seq<LedgerEntry>, i: int, e: LedgerEntry, m: Measure)
    requires
        0 <= i < s.len(),
    ensures
        sum_of(s.update(i, e), m) == sum_of(s, m) - measure(s[i], m) + measure(e, m),
    decreases s.len(),
{
    if i == s.len() - 1 {
        assert(s.update(i, e).drop_last() =~= s.drop_last());
    } else {
        assert(s.update(i, e).drop_last() =~= s.drop_last().update(i, e));
        lemma_sum_update(s.drop_last(), i, e, m);
    }
}

/// Sums keep a pointwise bound `a + b <= c`.
pub proof fn lemma_sum_bound(s: Seq<LedgerEntry>, a: Measure, b: Measure, c: Measure)
    requires
        forall|k: int| 0 <= k < s.len() ==> measure(#[trigger] s[k], a) + measure(s[k], b) <= measure(s[k], c),
    ensures
        sum_of(s, a) + sum_of(s, b) <= sum_of(s, c),
    decreases s.len(),
{
    if s.len() > 0 {
        let t = s.drop_last();
        assert forall|k: int| 0 <= k < t.len() implies measure(#[trigger] t[k], a) + measure(t[k], b) <= measure(t[k], c) by {
            assert(t[k] == s[k]);
        }
        lemma_sum_bound(t, a, b, c);
    }
}

pub proof fn lemma_sums_after_update(s: Seq<LedgerEntry>, i: int, e: LedgerEntry)
    requires
        0 <= i < s.len(),
    ensures
        forall|m: Measure|
            #[trigger] sum_of(s.update(i, e), m) == sum_of(s, m) - measure(s[i], m) + measure(e, m),
{
    assert forall|m: Measure|
        #[trigger] sum_of(s.update(i, e), m) == sum_of(s, m) - measure(s[i], m) + measure(e, m) by {
        lemma_sum_update(s, i, e, m);
    }
}

pub proof fn lemma_sums_after_push(s: Seq<LedgerEntry>, e: LedgerEntry)
    ensures
        forall|m: Measure| #[trigger] sum_of(s.push(e), m) == sum_of(s, m) + measure(e, m),
{
    assert forall|m: Measure| #[trigger] sum_of(s.push(e), m) == sum_of(s, m) + measure(e, m) by {
        lemma_sum_push(s, e, m);
    }
}

/// A pointwise bound `a <= c`, with one entry where `a` is zero, bounds the
/// sum of `a` plus that entry's `c` by the sum of `c`.
pub proof fn lemma_sum_bound_one(s: Seq<LedgerEntry>, a: Measure, c: Measure, i: int)
    requires
        0 <= i < s.len(),
        forall|k: int| 0 <= k < s.len() ==> measure(#[trigger] s[k], a) <= measure(s[k], c),
        measure(s[i], a) == 0,
    ensures
        sum_of(s, a) + measure(s[i], c) <= sum_of(s, c),
    decreases s.len(),
{
    let t = s.drop_last();
    assert forall|k: int| 0 <= k < t.len() implies measure(#[trigger] t[k], a) <= measure(t[k], c) by {
        assert(t[k] == s[k]);
    }
    if i == s.len() - 1 {
        lemma_sum_le(t, a, c);
    } else {
        assert(t[i] == s[i]);
        lemma_sum_bound_one(t, a, c, i);
    }
}

/// Sums keep a pointwise bound `a <= c`.
pub proof fn lemma_sum_le(s: Seq<LedgerEntry>, a: Measure, c: Measure)
    requires
        forall|k: int| 0 <= k < s.len() ==> measure(#[trigger] s[k], a) <= measure(s[k], c),
    ensures
        sum_of(s, a) <= sum_of(s, c),
    decreases s.len(),
{
    if s.len() > 0 {
        let t = s.drop_last();
        assert forall|k: int| 0 <= k < t.len() implies measure(#[trigger] t[k], a) <= measure(t[k], c) by {
            assert(t[k] == s[k]);
        }
        lemma_sum_le(t, a, c);
    }
}

/// No two entries belong to the same contributor.
pub open spec fn unique_contributors(s: Seq<LedgerEntry>) -> bool {
    forall|i: int, j: int|
        0 <= i < s.len() && 0 <= j < s.len() && i != j ==> (#[trigger] s[i]).contribution.contributor
            != (#[trigger] s[j]).contribution.contributor
}

pub proof fn lemma_update_keeps_unique(s: Seq<LedgerEntry>, i: int, e: LedgerEntry)
    requires
        unique_contributors(s),
        0 <= i < s.len(),
        e.contribution.contributor == s[i].contribution.contributor,
    ensures
        unique_contributors(s.update(i, e)),
{
    let t = s.update(i, e);
    assert forall|a: int, b: int|
        0 <= a < t.len() && 0 <= b < t.len() && a != b implies (#[trigger] t[a]).contribution.contributor
        != (#[trigger] t[b]).contribution.contributor by {
        assert(s[a].contribution.contributor == t[a].contribution.contributor);
        assert(s[b].contribution.contributor == t[b].contribution.contributor);
    }
}

pub proof fn lemma_push_keeps_unique(s: Seq<LedgerEntry>, e: LedgerEntry)
    requires
        unique_contributors(s),
        forall|k: int| 0 <= k < s.len() ==> (#[trigger] s[k]).contribution.contributor
            != e.contribution.contributor,
    ensures
        unique_contributors(s.push(e)),
{
    let t = s.push(e);
    assert forall|a: int, b: int|
        0 <= a < t.len() && 0 <= b < t.len() && a != b implies (#[trigger] t[a]).contribution.contributor
        != (#[trigger] t[b]).contribution.contributor by {
        if a < s.len() && b < s.len() {
            assert(t[a] == s[a]);
            assert(t[b] == s[b]);
        } else if a < s.len() {
            assert(t[a] == s[a]);
        } else {
            assert(t[b] == s[b]);
        }
    }
}

pub proof fn lemma_sum_zero(s: Seq<LedgerEntry>, m: Measure)
    requires
        forall|k: int| 0 <= k < s.len() ==> measure(#[trigger] s[k], m) == 0,
    ensures
        sum_of(s, m) == 0,
    decreases s.len(),
{
    if s.len() > 0 {
        let t = s.drop_last();
        assert forall|k: int| 0 <= k < t.len() implies measure(#[trigger] t[k], m) == 0 by {
            assert(t[k] == s[k]);
        }
        lemma_sum_zero(t, m);
    }
}

pub proof fn lemma_sum_nonnegative(s: Seq<LedgerEntry>, m: Measure)
    ensures
        sum_of(s, m) >= 0,
    decreases s.len(),
{
    if s.len() > 0 {
        lemma_sum_nonnegative(s.drop_last(), m);
    }
}

/// The pool has distributed: the reward token is minted and claims are open.
pub open spec fn distributed(status: PoolStatus) -> bool {
    status == PoolStatus::Distributing || status == PoolStatus::Complete
}

/// A proposal has been made and not cancelled.
pub open spec fn proposed(status: PoolStatus) -> bool {
    status == PoolStatus::Confirming || distributed(status)
}

/// One pool together with every contributor's records and the balances that
/// the pool's operations move: its escrowed value and its reward tokens.
#[derive(Debug)]
pub struct PoolLedger {
    /// The pool's own identity.
    pub key: Address,
    pub pool: LaunchPool,
    pub entries: Vec<LedgerEntry>,
    /// Native value the pool holds.
    pub escrow_lamports: u64,
    /// Native value paid to the winner.
    pub winner_paid: u64,
    /// Reward tokens minted; zero until distribution.
    pub minted_tokens: u64,
    /// Reward tokens the pool holds for claims.
    pub pool_tokens: u64,
    /// Reward tokens sent to the platform wallet.
    pub platform_received: u64,
    /// The authority to mint the reward token is gone for good.
    pub mint_revoked: bool,
    /// The pool's current amount when finalization was proposed; zero before.
    pub proposal_lamports: u64,
}

impl PoolLedger {
    pub open spec fn entry_ok(&self, e: LedgerEntry) -> bool {
        &&& e.contribution.pool == self.key
        &&& e.contribution.amount_lamports > 0
        &&& e.contribution.claimed <==> !(e.payout is Unpaid)
        &&& e.vote.has_voted ==> {
            &&& e.vote.weight == e.contribution.amount_lamports
            &&& e.vote.contributor == e.contribution.contributor
            &&& e.vote.pool == self.key
        }
        &&& self.pool.status == PoolStatus::Funding ==> !e.vote.has_voted
        &&& e.vote.has_voted && e.payout is Refunded ==> self.pool.status == PoolStatus::Cancelled
        &&& e.payout matches Payout::Refunded(x) ==> x <= e.contribution.amount_lamports
        &&& e.payout is Tokens ==> distributed(self.pool.status)
        &&& e.payout matches Payout::Tokens(t) ==> t == entitlement(
            e.contribution.amount_lamports as int,
            self.pool.current_lamports as int,
        )
    }

    /// The ledger's invariant.
    pub open spec fn wf(&self) -> bool {
        let s = self.entries@;
        &&& forall|i: int| 0 <= i < s.len() ==> self.entry_ok(#[trigger] s[i])
        &&& unique_contributors(s)
        &&& self.pool.contributor_count == s.len()
        &&& self.pool.current_lamports + sum_of(s, Measure::Refunded) == sum_of(s, Measure::Amount)
        &&& self.escrow_lamports + self.winner_paid == self.pool.current_lamports
        &&& self.pool.approve_lamports == sum_of(s, Measure::Approve)
        &&& self.pool.reject_lamports == sum_of(s, Measure::Reject)
        &&& proposed(self.pool.status) ==> self.pool.current_lamports > 0
        &&& proposed(self.pool.status) ==> self.pool.current_lamports == self.proposal_lamports
        &&& self.pool.status == PoolStatus::Funding ==> self.pool.approve_lamports == 0
            && self.pool.reject_lamports == 0
        &&& self.pool.approve_lamports + self.pool.reject_lamports <= self.proposal_lamports
        &&& distributed(self.pool.status) ==> {
            &&& self.winner_paid == winner_share(self.pool.current_lamports as int)
            &&& self.minted_tokens == minted_supply()
            &&& self.platform_received == platform_share(minted_supply())
            &&& self.pool_tokens + sum_of(s, Measure::Tokens) == minted_supply()
                - platform_share(minted_supply())
            &&& sum_of(s, Measure::Tokens) * self.pool.current_lamports <= contributor_share(
                minted_supply(),
            ) * sum_of(s, Measure::TokenClaimed)
        }
        &&& !distributed(self.pool.status) ==> {
            &&& self.winner_paid == 0
            &&& self.minted_tokens == 0
            &&& self.platform_received == 0
            &&& self.pool_tokens == 0
            &&& sum_of(s, Measure::Tokens) == 0
        }
        &&& self.mint_revoked <==> self.pool.status == PoolStatus::Complete
    }

    /// `contributor` has an entry.
    pub open spec fn has_entry(&self, contributor: Address) -> bool {
        exists|i: int|
            0 <= i < self.entries@.len() && (#[trigger] self.entries@[i]).contribution.contributor
                == contributor
    }

    /// The position of `contributor`'s entry.
    pub open spec fn index_of(&self, contributor: Address) -> int {
        choose|i: int|
            0 <= i < self.entries@.len() && (#[trigger] self.entries@[i]).contribution.contributor
                == contributor
    }

    /// `contributor`'s contribution record; one that holds nothing if they have none.
    pub open spec fn record_of(&self, contributor: Address) -> ContributionRecord {
        if self.has_entry(contributor) {
            self.entries@[self.index_of(contributor)].contribution
        } else {
            ContributionRecord {
                pool: self.key,
                contributor,
                amount_lamports: 0,
                claimed: false,
            }
        }
    }

    /// `contributor`'s vote record; one not cast if they have none.
    pub open spec fn vote_of(&self, contributor: Address) -> ConfirmationVoteRecord {
        if self.has_entry(contributor) {
            self.entries@[self.index_of(contributor)].vote
        } else {
            ConfirmationVoteRecord {
                pool: self.key,
                contributor,
                approve: false,
                weight: 0,
                has_voted: false,
            }
        }
    }

    /// `contributor`'s payout; nothing if they have no entry.
    pub open spec fn payout_of(&self, contributor: Address) -> Payout {
        if self.has_entry(contributor) {
            self.entries@[self.index_of(contributor)].payout
        } else {
            Payout::Unpaid
        }
    }

    /// `contributor`'s entry and its position, or an entry that holds nothing.
    fn entry_for(&self, contributor: &Address) -> (r: (Option<usize>, LedgerEntry))
        requires
            self.wf(),
        ensures
            r.0 is None <==> !self.has_entry(*contributor),
            r.0 matches Some(i) ==> i == self.index_of(*contributor) && i < self.entries@.len(),
            r.1 == self.entry_of(*contributor),
    {
        let found = self.find(contributor);
        let entry = match found {
            Some(i) => self.entries[i],
            None => LedgerEntry {
                contribution: ContributionRecord {
                    pool: self.key,
                    contributor: *contributor,
                    amount_lamports: 0,
                    claimed: false,
                },
                vote: ConfirmationVoteRecord {
                    pool: self.key,
                    contributor: *contributor,
                    approve: false,
                    weight: 0,
                    has_voted: false,
                },
                payout: Payout::Unpaid,
            },
        };
        (found, entry)
    }

    /// Finds `contributor`'s entry.
    fn find(&self, contributor: &Address) -> (r: Option<usize>)
        requires
            self.wf(),
        ensures
            r is None <==> !self.has_entry(*contributor),
            r matches Some(i) ==> i == self.index_of(*contributor) && i < self.entries@.len(),
    {
        let mut i: usize = 0;
        while i < self.entries.len()
            invariant
                self.wf(),
                0 <= i <= self.entries@.len(),
                forall|j: int|
                    0 <= j < i ==> (#[trigger] self.entries@[j]).contribution.contributor
                        != *contributor,
            decreases self.entries@.len() - i,
        {
            if self.entries[i].contribution.contributor.same(contributor) {
                assert(self.has_entry(*contributor));
                proof {
                    let k = self.index_of(*contributor);
                    assert(self.entries@[i as int].contribution.contributor == *contributor);
                    assert(k == i as int);
                }
                return Some(i);
            }
            i = i + 1;
        }
        None
    }

    /// Everything held for `contributor`; an entry that holds nothing if they have none.
    pub open spec fn entry_of(&self, contributor: Address) -> LedgerEntry {
        LedgerEntry {
            contribution: self.record_of(contributor),
            vote: self.vote_of(contributor),
            payout: self.payout_of(contributor),
        }
    }

    /// The entries once `contributor`'s entry is `e`, added at the end if new.
    pub open spec fn with_entry(&self, contributor: Address, e: LedgerEntry) -> Seq<LedgerEntry> {
        if self.has_entry(contributor) {
            self.entries@.update(self.index_of(contributor), e)
        } else {
            self.entries@.push(e)
        }
    }

    /// Writes `e` as `contributor`'s entry.
    fn put_entry(&mut self, found: Option<usize>, contributor: Address, e: LedgerEntry)
        requires
            found is None <==> !old(self).has_entry(contributor),
            found matches Some(i) ==> i == old(self).index_of(contributor) && i
                < old(self).entries@.len(),
            e.contribution.contributor == contributor,
        ensures
            final(self).entries@ == old(self).with_entry(contributor, e),
            final(self).key == old(self).key,
            final(self).pool == old(self).pool,
            final(self).escrow_lamports == old(self).escrow_lamports,
            final(self).winner_paid == old(self).winner_paid,
            final(self).minted_tokens == old(self).minted_tokens,
            final(self).pool_tokens == old(self).pool_tokens,
            final(self).platform_received == old(self).platform_received,
            final(self).mint_revoked == old(self).mint_revoked,
            final(self).proposal_lamports == old(self).proposal_lamports,
    {
        match found {
            Some(i) => {
                self.entries.set(i, e);
            },
            None => {
                self.entries.push(e);
            },
        }
    }

    /// Opens a ledger for a new pool stored at `key`.
    pub fn open(
        gate: &Multisig,
        gate_key: Address,
        key: Address,
        payer: Address,
        platform_wallet: Address,
        target_lamports: u64,
        deadline: i64,
        pool_id: String,
        confirm_duration_secs: i64,
        now: i64,
    ) -> (r: Result<PoolLedger, LaunchError>)
        ensures
            match lifecycle::create_pool_error(
                *gate,
                payer,
                target_lamports,
                deadline,
                lifecycle::id_len(pool_id@),
                confirm_duration_secs,
                now,
            ) {
                Some(e) => r == Err::<PoolLedger, LaunchError>(e),
                None => r matches Ok(l) && {
                    &&& l.wf()
                    &&& l.key == key
                    &&& l.entries@.len() == 0
                    &&& l.escrow_lamports == 0
                    &&& lifecycle::is_new_pool(
                        l.pool,
                        gate_key,
                        platform_wallet,
                        target_lamports,
                        deadline,
                        pool_id,
                        confirm_duration_secs,
                    )
                },
            },
    {
        let pool = lifecycle::create_pool(
            gate,
            gate_key,
            payer,
            platform_wallet,
            target_lamports,
            deadline,
            pool_id,
            confirm_duration_secs,
            now,
        )?;
        let l = PoolLedger {
            key,
            pool,
            entries: Vec::new(),
            escrow_lamports: 0,
            winner_paid: 0,
            minted_tokens: 0,
            pool_tokens: 0,
            platform_received: 0,
            mint_revoked: false,
            proposal_lamports: 0,
        };
        assert(l.entries@.len() == 0);
        Ok(l)
    }

    /// Takes `amount` from `contributor` into escrow.
    pub fn contribute(&mut self, contributor: Address, amount: u64, now: i64) -> (r: Result<
        ContributionMade,
        LaunchError,
    >)
        requires
            old(self).wf(),
        ensures
            final(self).wf(),
            match contribute_error(old(self).pool, old(self).record_of(contributor), amount, now) {
                Some(e) => r == Err::<ContributionMade, LaunchError>(e) && *final(self) == *old(
                    self,
                ),
                None => {
                    &&& final(self).pool == contributed_pool(
                        old(self).pool,
                        old(self).record_of(contributor),
                        amount,
                    )
                    &&& final(self).entries@ == old(self).with_entry(
                        contributor,
                        LedgerEntry {
                            contribution: contributed_record(
                                old(self).record_of(contributor),
                                old(self).key,
                                contributor,
                                amount,
                            ),
                            ..old(self).entry_of(contributor)
                        },
                    )
                    &&& final(self).escrow_lamports == old(self).escrow_lamports + amount
                    &&& r matches Ok(ev) && ev.contributor == contributor && ev.amount_lamports
                        == amount && ev.total_lamports == final(self).pool.current_lamports
                },
            },
    {
        let (found, mut entry) = self.entry_for(&contributor);
        let ghost before = *self;
        let key = self.key;
        let ev = lifecycle::contribute(
            &mut self.pool,
            &mut entry.contribution,
            key,
            contributor,
            amount,
            now,
        )?;
        self.put_entry(found, contributor, entry);
        self.escrow_lamports = self.escrow_lamports + amount;
        proof {
            self.lemma_contribute_keeps_wf(before, contributor, entry, amount, now);
        }
        Ok(ev)
    }

    proof fn lemma_contribute_keeps_wf(
        &self,
        before: PoolLedger,
        contributor: Address,
        e: LedgerEntry,
        amount: u64,
        now: i64,
    )
        requires
            before.wf(),
            contribute_error(before.pool, before.record_of(contributor), amount, now) is None,
            self.pool == contributed_pool(before.pool, before.record_of(contributor), amount),
            e == (LedgerEntry {
                contribution: contributed_record(
                    before.record_of(contributor),
                    before.key,
                    contributor,
                    amount,
                ),
                ..before.entry_of(contributor)
            }),
            self.entries@ == before.with_entry(contributor, e),
            self.key == before.key,
            self.escrow_lamports == before.escrow_lamports + amount,
            self.winner_paid == before.winner_paid,
            self.minted_tokens == before.minted_tokens,
            self.pool_tokens == before.pool_tokens,
            self.platform_received == before.platform_received,
            self.mint_revoked == before.mint_revoked,
            self.proposal_lamports == before.proposal_lamports,
        ensures
            self.wf(),
    {
        let s = before.entries@;
        let t = self.entries@;
        if before.has_entry(contributor) {
            let i = before.index_of(contributor);
            let old_e = s[i];
            assert(before.entry_ok(old_e));
            lemma_sums_after_update(s, i, e);
            assert forall|k: int| 0 <= k < t.len() implies self.entry_ok(#[trigger] t[k]) by {
                if k != i {
                    assert(t[k] == s[k]);
                    assert(before.entry_ok(s[k]));
                }
            }
            lemma_update_keeps_unique(s, i, e);
        } else {
            lemma_sums_after_push(s, e);
            assert forall|k: int| 0 <= k < t.len() implies self.entry_ok(#[trigger] t[k]) by {
                if k < s.len() {
                    assert(t[k] == s[k]);
                    assert(before.entry_ok(s[k]));
                }
            }
            lemma_push_keeps_unique(s, e);
        }
    }

    /// Declares the winner and the commitment, opening the confirmation window.
    pub fn propose_finalize(
        &mut self,
        gate: &Multisig,
        gate_key: Address,
        signer: Address,
        winner: Address,
        token_mint: Address,
        merkle_root: [u8; 32],
        now: i64,
    ) -> (r: Result<FinalizeProposed, LaunchError>)
        requires
            old(self).wf(),
        ensures
            final(self).wf(),
            match propose_finalize_error(old(self).pool, *gate, gate_key, signer, now) {
                Some(e) => r == Err::<FinalizeProposed, LaunchError>(e) && *final(self) == *old(
                    self,
                ),
                None => {
                    &&& *final(self) == (PoolLedger {
                        pool: proposed_pool(old(self).pool, winner, token_mint, merkle_root, now),
                        proposal_lamports: old(self).pool.current_lamports,
                        ..*old(self)
                    })
                    &&& r matches Ok(ev) && ev.winner == winner && ev.merkle_root == merkle_root
                },
            },
    {
        let key = self.key;
        let ev = lifecycle::propose_finalize(
            &mut self.pool,
            gate,
            gate_key,
            signer,
            key,
            winner,
            token_mint,
            merkle_root,
            now,
        )?;
        self.proposal_lamports = self.pool.current_lamports;
        proof {
            let s = self.entries@;
            assert forall|k: int| 0 <= k < s.len() implies measure(#[trigger] s[k], Measure::Approve)
                == 0 && measure(s[k], Measure::Reject) == 0 by {
                assert(self.entry_ok(s[k]));
            }
            lemma_sum_zero(s, Measure::Approve);
            lemma_sum_zero(s, Measure::Reject);
        }
        Ok(ev)
    }

    /// Casts `contributor`'s one vote, weighted by their contribution.
    pub fn confirm_vote(&mut self, contributor: Address, approve: bool, now: i64) -> (r: Result<
        ConfirmationVoteCast,
        LaunchError,
    >)
        requires
            old(self).wf(),
        ensures
            final(self).wf(),
            match confirm_vote_error(
                old(self).pool,
                old(self).record_of(contributor),
                old(self).vote_of(contributor),
                approve,
                now,
            ) {
                Some(e) => r == Err::<ConfirmationVoteCast, LaunchError>(e) && *final(self)
                    == *old(self),
                None => {
                    &&& final(self).pool == voted_pool(
                        old(self).pool,
                        approve,
                        old(self).record_of(contributor).amount_lamports,
                    )
                    &&& final(self).entries@ == old(self).with_entry(
                        contributor,
                        LedgerEntry {
                            vote: cast_vote(
                                old(self).key,
                                contributor,
                                approve,
                                old(self).record_of(contributor).amount_lamports,
                            ),
                            ..old(self).entry_of(contributor)
                        },
                    )
                    &&& final(self).escrow_lamports == old(self).escrow_lamports
                    &&& r matches Ok(ev) && ev.weight == old(self).record_of(
                        contributor,
                    ).amount_lamports && ev.approve == approve
                },
            },
    {
        let (found, mut entry) = self.entry_for(&contributor);
        let ghost before = *self;
        let key = self.key;
        let ev = lifecycle::confirm_vote(
            &mut self.pool,
            &entry.contribution,
            &mut entry.vote,
            key,
            contributor,
            approve,
            now,
        )?;
        self.put_entry(found, contributor, entry);
        proof {
            let s = before.entries@;
            let t = self.entries@;
            let i = before.index_of(contributor);
            assert(before.entry_ok(s[i]));
            lemma_sums_after_update(s, i, entry);
            assert forall|k: int| 0 <= k < t.len() implies self.entry_ok(#[trigger] t[k]) by {
                if k != i {
                    assert(t[k] == s[k]);
                    assert(before.entry_ok(s[k]));
                }
            }
            lemma_update_keeps_unique(s, i, entry);
            Self::lemma_tallies_within_current(*self);
        }
        Ok(ev)
    }

    /// While a proposal stands every vote was cast on an unrefunded
    /// contribution, so the tallies fit in the current amount.
    proof fn lemma_tallies_within_current(l: PoolLedger)
        requires
            proposed(l.pool.status),
            forall|i: int| 0 <= i < l.entries@.len() ==> l.entry_ok(#[trigger] l.entries@[i]),
            l.pool.current_lamports + sum_of(l.entries@, Measure::Refunded) == sum_of(
                l.entries@,
                Measure::Amount,
            ),
        ensures
            sum_of(l.entries@, Measure::Approve) + sum_of(l.entries@, Measure::Reject)
                <= l.pool.current_lamports,
    {
        let s = l.entries@;
        assert forall|k: int| 0 <= k < s.len() implies measure(#[trigger] s[k], Measure::Approve)
            + measure(s[k], Measure::Reject) <= measure(s[k], Measure::Voted) by {}
        assert forall|k: int| 0 <= k < s.len() implies measure(#[trigger] s[k], Measure::Voted)
            + measure(s[k], Measure::Refunded) <= measure(s[k], Measure::Amount) by {
            assert(l.entry_ok(s[k]));
        }
        lemma_sum_bound(s, Measure::Approve, Measure::Reject, Measure::Voted);
        lemma_sum_bound(s, Measure::Voted, Measure::Refunded, Measure::Amount);
    }

    /// Runs the distribution of an approved pool: pays the winner out of
    /// escrow, mints the reward supply, sends the platform its share and keeps
    /// the rest for claims. `platform_owner` owns the token account that
    /// receives the platform's share.
    pub fn execute_distribution(&mut self, platform_owner: Address) -> (r: Result<
        PoolFinalized,
        LaunchError,
    >)
        requires
            old(self).wf(),
        ensures
            final(self).wf(),
            match execute_distribution_error(old(self).pool, platform_owner) {
                Some(e) => r == Err::<PoolFinalized, LaunchError>(e) && *final(self) == *old(self),
                None => {
                    &&& final(self).pool == (LaunchPool {
                        status: PoolStatus::Distributing,
                        ..old(self).pool
                    })
                    &&& final(self).entries@ == old(self).entries@
                    &&& final(self).winner_paid == winner_share(
                        old(self).pool.current_lamports as int,
                    )
                    &&& final(self).escrow_lamports == old(self).escrow_lamports - winner_share(
                        old(self).pool.current_lamports as int,
                    )
                    &&& final(self).minted_tokens == minted_supply()
                    &&& final(self).platform_received == platform_share(minted_supply())
                    &&& final(self).pool_tokens == minted_supply() - platform_share(
                        minted_supply(),
                    )
                    &&& r matches Ok(ev) && ev.winner_sol == final(self).winner_paid
                },
            },
    {
        let key = self.key;
        let ev = lifecycle::execute_distribution(&mut self.pool, key, platform_owner)?;
        let supply = total_token_supply();
        let platform = platform_tokens(supply);
        self.escrow_lamports = self.escrow_lamports - ev.winner_sol;
        self.winner_paid = ev.winner_sol;
        self.minted_tokens = supply;
        self.platform_received = platform;
        self.pool_tokens = supply - platform;
        proof {
            lemma_sum_nonnegative(self.entries@, Measure::TokenClaimed);
        }
        Ok(ev)
    }

    /// Closes the confirmation window after its deadline, cancelling the pool
    /// unless approval won.
    pub fn expire_confirmation(&mut self, now: i64) -> (r: Result<Option<PoolCancelled>, LaunchError>)
        requires
            old(self).wf(),
        ensures
            final(self).wf(),
            match expire_confirmation_error(old(self).pool, now) {
                Some(e) => r == Err::<Option<PoolCancelled>, LaunchError>(e) && *final(self)
                    == *old(self),
                None => if old(self).pool.approve_lamports <= old(self).pool.reject_lamports {
                    &&& *final(self) == (PoolLedger {
                        pool: LaunchPool { status: PoolStatus::Cancelled, ..old(self).pool },
                        ..*old(self)
                    })
                    &&& r matches Ok(Some(_))
                } else {
                    &&& *final(self) == *old(self)
                    &&& r matches Ok(None)
                },
            },
    {
        let key = self.key;
        lifecycle::expire_confirmation(&mut self.pool, key, now)
    }

    /// Pays `contributor` their share of the contributors' tokens, once.
    pub fn claim(&mut self, contributor: Address) -> (r: Result<TokensClaimed, LaunchError>)
        requires
            old(self).wf(),
        ensures
            final(self).wf(),
            match claim_error(old(self).pool, old(self).record_of(contributor)) {
                Some(e) => r == Err::<TokensClaimed, LaunchError>(e) && *final(self) == *old(self),
                None => {
                    let tokens = entitlement(
                        old(self).record_of(contributor).amount_lamports as int,
                        old(self).pool.current_lamports as int,
                    );
                    &&& final(self).pool == old(self).pool
                    &&& final(self).entries@ == old(self).with_entry(
                        contributor,
                        LedgerEntry {
                            contribution: ContributionRecord {
                                claimed: true,
                                ..old(self).record_of(contributor)
                            },
                            payout: Payout::Tokens(tokens as u64),
                            ..old(self).entry_of(contributor)
                        },
                    )
                    &&& final(self).pool_tokens == old(self).pool_tokens - tokens
                    &&& r matches Ok(ev) && ev.contributor == contributor && ev.tokens == tokens
                },
            },
    {
        let (found, mut entry) = self.entry_for(&contributor);
        let ghost before = *self;
        let key = self.key;
        let ev = lifecycle::claim(&self.pool, &mut entry.contribution, key, contributor)?;
        entry.payout = Payout::Tokens(ev.tokens);
        proof {
            let s = before.entries@;
            let i = before.index_of(contributor);
            let t = s.update(i, entry);
            assert(before.entry_ok(s[i]));
            lemma_sums_after_update(s, i, entry);
            assert forall|k: int| 0 <= k < t.len() implies measure(
                #[trigger] t[k],
                Measure::TokenClaimed,
            ) + measure(t[k], Measure::Refunded) <= measure(t[k], Measure::Amount) by {
                if k != i {
                    assert(t[k] == s[k]);
                    assert(before.entry_ok(s[k]));
                }
            }
            lemma_sum_bound(t, Measure::TokenClaimed, Measure::Refunded, Measure::Amount);
            let c = contributor_share(minted_supply());
            let v = before.pool.current_lamports as int;
            let tt = sum_of(t, Measure::Tokens);
            let aa = sum_of(t, Measure::TokenClaimed);
            let a = entry.contribution.amount_lamports as int;
            let x = ev.tokens as int;
            assert(v > 0);
            assert(x == c * a / v);
            assert(x * v <= c * a) by (nonlinear_arith)
                requires x == c * a / v, v > 0, c >= 0, a >= 0;
            assert(tt == sum_of(s, Measure::Tokens) + x);
            assert(aa == sum_of(s, Measure::TokenClaimed) + a);
            assert(tt * v <= c * aa) by (nonlinear_arith)
                requires
                    tt == sum_of(s, Measure::Tokens) + x,
                    aa == sum_of(s, Measure::TokenClaimed) + a,
                    sum_of(s, Measure::Tokens) * v <= c * sum_of(s, Measure::TokenClaimed),
                    x * v <= c * a,
            ;
            assert(aa <= v);
            assert(tt <= c) by (nonlinear_arith)
                requires tt * v <= c * aa, aa <= v, 0 < v, 0 <= c;
            lemma_supply_shares();
        }
        self.pool_tokens = self.pool_tokens - ev.tokens;
        self.put_entry(found, contributor, entry);
        proof {
            let s = before.entries@;
            let t = self.entries@;
            let i = before.index_of(contributor);
            assert forall|k: int| 0 <= k < t.len() implies self.entry_ok(#[trigger] t[k]) by {
                if k != i {
                    assert(t[k] == s[k]);
                    assert(before.entry_ok(s[k]));
                }
            }
            lemma_update_keeps_unique(s, i, entry);
        }
        Ok(ev)
    }

    /// Returns `contributor`'s whole contribution out of escrow.
    pub fn refund(&mut self, contributor: Address, now: i64) -> (r: Result<
        ContributionRefunded,
        LaunchError,
    >)
        requires
            old(self).wf(),
        ensures
            final(self).wf(),
            match refund_error(old(self).pool, old(self).record_of(contributor), now) {
                Some(e) => r == Err::<ContributionRefunded, LaunchError>(e) && *final(self)
                    == *old(self),
                None => {
                    let amount = old(self).record_of(contributor).amount_lamports;
                    &&& final(self).pool == (LaunchPool {
                        current_lamports: (old(self).pool.current_lamports - amount) as u64,
                        ..old(self).pool
                    })
                    &&& final(self).entries@ == old(self).with_entry(
                        contributor,
                        LedgerEntry {
                            contribution: ContributionRecord {
                                claimed: true,
                                ..old(self).record_of(contributor)
                            },
                            payout: Payout::Refunded(amount),
                            ..old(self).entry_of(contributor)
                        },
                    )
                    &&& final(self).escrow_lamports == old(self).escrow_lamports - amount
                    &&& r matches Ok(ev) && ev.contributor == contributor && ev.amount_lamports
                        == amount
                },
            },
    {
        let (found, mut entry) = self.entry_for(&contributor);
        let ghost before = *self;
        let key = self.key;
        let ev = lifecycle::refund(&mut self.pool, &mut entry.contribution, key, contributor, now)?;
        entry.payout = Payout::Refunded(ev.amount_lamports);
        self.escrow_lamports = self.escrow_lamports - ev.amount_lamports;
        self.put_entry(found, contributor, entry);
        proof {
            let s = before.entries@;
            let t = self.entries@;
            let i = before.index_of(contributor);
            assert(before.entry_ok(s[i]));
            lemma_sums_after_update(s, i, entry);
            assert forall|k: int| 0 <= k < t.len() implies self.entry_ok(#[trigger] t[k]) by {
                if k != i {
                    assert(t[k] == s[k]);
                    assert(before.entry_ok(s[k]));
                }
            }
            lemma_update_keeps_unique(s, i, entry);
        }
        Ok(ev)
    }

    /// Pauses the pool; refunds stay open.
    pub fn pause_pool(&mut self, gate: &Multisig, gate_key: Address, signer: Address) -> (r: Result<
        PoolPaused,
        LaunchError,
    >)
        requires
            old(self).wf(),
        ensures
            final(self).wf(),
            match pause_error(old(self).pool, *gate, gate_key, signer) {
                Some(e) => r == Err::<PoolPaused, LaunchError>(e) && *final(self) == *old(self),
                None => r is Ok && *final(self) == (PoolLedger {
                    pool: LaunchPool { paused: true, ..old(self).pool },
                    ..*old(self)
                }),
            },
    {
        let key = self.key;
        lifecycle::pause_pool(&mut self.pool, gate, gate_key, signer, key)
    }

    /// Lifts a pause.
    pub fn unpause_pool(&mut self, gate: &Multisig, gate_key: Address, signer: Address) -> (r: Result<
        PoolUnpaused,
        LaunchError,
    >)
        requires
            old(self).wf(),
        ensures
            final(self).wf(),
            match unpause_error(old(self).pool, *gate, gate_key, signer) {
                Some(e) => r == Err::<PoolUnpaused, LaunchError>(e) && *final(self) == *old(self),
                None => r is Ok && *final(self) == (PoolLedger {
                    pool: LaunchPool { paused: false, ..old(self).pool },
                    ..*old(self)
                }),
            },
    {
        let key = self.key;
        lifecycle::unpause_pool(&mut self.pool, gate, gate_key, signer, key)
    }

    /// Cancels a pool that is still funding or confirming.
    pub fn cancel_pool(&mut self, gate: &Multisig, gate_key: Address, signer: Address) -> (r: Result<
        PoolCancelled,
        LaunchError,
    >)
        requires
            old(self).wf(),
        ensures
            final(self).wf(),
            match cancel_error(old(self).pool, *gate, gate_key, signer) {
                Some(e) => r == Err::<PoolCancelled, LaunchError>(e) && *final(self) == *old(self),
                None => r is Ok && *final(self) == (PoolLedger {
                    pool: LaunchPool { status: PoolStatus::Cancelled, ..old(self).pool },
                    ..*old(self)
                }),
            },
    {
        let key = self.key;
        lifecycle::cancel_pool(&mut self.pool, gate, gate_key, signer, key)
    }

    /// Completes a distributing pool and revokes minting for good.
    pub fn complete_pool(&mut self, gate: &Multisig, gate_key: Address, signer: Address) -> (r: Result<
        PoolCompleted,
        LaunchError,
    >)
        requires
            old(self).wf(),
        ensures
            final(self).wf(),
            match complete_error(old(self).pool, *gate, gate_key, signer) {
                Some(e) => r == Err::<PoolCompleted, LaunchError>(e) && *final(self) == *old(self),
                None => r is Ok && *final(self) == (PoolLedger {
                    pool: LaunchPool { status: PoolStatus::Complete, ..old(self).pool },
                    mint_revoked: true,
                    ..*old(self)
                }),
            },
    {
        let key = self.key;
        let ev = lifecycle::complete_pool(&mut self.pool, gate, gate_key, signer, key)?;
        self.mint_revoked = true;
        Ok(ev)
    }
}

} // verus!
