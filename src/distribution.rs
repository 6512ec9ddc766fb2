use vstd::prelude::*;

verus! {

/// Shares are expressed in basis points out of this denominator.
pub const BPS_DENOMINATOR: u64 = 10000;

/// Share of the minted supply kept for contributors (94%).
pub const CONTRIBUTOR_SHARE_BPS: u64 = 9400;

/// Share of the pooled value paid to the winner (5%).
pub const WINNER_SHARE_BPS: u64 = 500;

/// Share of the minted supply sent to the platform wallet (1%).
pub const PLATFORM_SHARE_BPS: u64 = 100;

/// Whole reward tokens minted when a pool distributes.
pub const TOKEN_SUPPLY: u64 = 1_000_000_000;

/// Decimal places of the reward token.
pub const TOKEN_DECIMALS: u8 = 6;

/// The minted supply in smallest units: whole tokens times ten to the decimals.
pub open spec fn minted_supply() -> int {
    TOKEN_SUPPLY as int * pow10(TOKEN_DECIMALS as nat)
}

pub open spec fn pow10(n: nat) -> int
    decreases n,
{
    if n == 0 {
        1
    } else {
        10 * pow10((n - 1) as nat)
    }
}

/// The winner's cut of the pooled value, rounded down.
pub open spec fn winner_share(total: int) -> int {
    total * WINNER_SHARE_BPS as int / BPS_DENOMINATOR as int
}

/// The platform's cut of the minted supply, rounded down.
pub open spec fn platform_share(supply: int) -> int {
    supply * PLATFORM_SHARE_BPS as int / BPS_DENOMINATOR as int
}

/// The contributors' part of the minted supply, rounded down.
pub open spec fn contributor_share(supply: int) -> int {
    supply * CONTRIBUTOR_SHARE_BPS as int / BPS_DENOMINATOR as int
}

/// One contributor's part of the contributors' tokens, in proportion to
/// what they put in, rounded down.
pub open spec fn user_share(contributor_tokens: int, amount: int, total: int) -> int {
    contributor_tokens * amount / total
}

/// The full reward-token supply in smallest units.
pub fn total_token_supply() -> (r: u64)
    ensures
        r == minted_supply(),
        r == 1_000_000_000_000_000u64,
{
    let mut scale: u64 = 1;
    let mut i: u8 = 0;
    while i < TOKEN_DECIMALS
        invariant
            0 <= i <= TOKEN_DECIMALS,
            scale == pow10(i as nat),
            scale <= 1_000_000,
        decreases TOKEN_DECIMALS - i,
    {
        assert(pow10((i + 1) as nat) == 10 * pow10(i as nat));
        scale = scale * 10;
        i = i + 1;
        assert(scale <= 1_000_000) by {
            reveal_with_fuel(pow10, 7);
        }
    }
    assert(scale == 1_000_000) by {
        reveal_with_fuel(pow10, 7);
    }
    TOKEN_SUPPLY * scale
}

/// The winner's payout for a pool holding `total`.
pub fn winner_payout(total: u64) -> (r: u64)
    ensures
        r == winner_share(total as int),
        r <= total,
{
    let wide = (total as u128) * (WINNER_SHARE_BPS as u128) / (BPS_DENOMINATOR as u128);
    wide as u64
}

/// The platform's tokens out of `supply`.
pub fn platform_tokens(supply: u64) -> (r: u64)
    ensures
        r == platform_share(supply as int),
        r <= supply,
{
    let wide = (supply as u128) * (PLATFORM_SHARE_BPS as u128) / (BPS_DENOMINATOR as u128);
    wide as u64
}

/// The tokens kept for contributors out of `supply`.
pub fn contributor_tokens(supply: u64) -> (r: u64)
    ensures
        r == contributor_share(supply as int),
        r <= supply,
{
    let wide = (supply as u128) * (CONTRIBUTOR_SHARE_BPS as u128) / (BPS_DENOMINATOR as u128);
    wide as u64
}

/// A contributor's tokens: `contributor_tokens * amount / total`, with the
/// product taken at double width.
pub fn user_tokens(contributor_tokens: u64, amount: u64, total: u64) -> (r: u64)
    requires
        0 < total,
        amount <= total,
    ensures
        r == user_share(contributor_tokens as int, amount as int, total as int),
        r <= contributor_tokens,
        r * total <= contributor_tokens * amount,
{
    assert((contributor_tokens as u128) * (amount as u128) <= u64::MAX as u128 * u64::MAX as u128)
        by (nonlinear_arith)
        requires contributor_tokens <= u64::MAX, amount <= u64::MAX;
    let product = (contributor_tokens as u128) * (amount as u128);
    let q = product / (total as u128);
    proof {
        let c = contributor_tokens as int;
        let a = amount as int;
        let t = total as int;
        assert(c * a <= c * t) by (nonlinear_arith)
            requires 0 <= c, 0 <= a <= t;
        assert((c * a) / t <= (c * t) / t) by (nonlinear_arith)
            requires c * a <= c * t, 0 < t, 0 <= c * a;
        assert((c * t) / t == c) by (nonlinear_arith)
            requires 0 < t;
        assert(((c * a) / t) * t <= c * a) by (nonlinear_arith)
            requires 0 < t, 0 <= c * a;
    }
    q as u64
}

/// The minted supply and its two fixed shares, as numbers.
pub proof fn lemma_supply_shares()
    ensures
        minted_supply() == 1_000_000_000_000_000,
        platform_share(minted_supply()) == 10_000_000_000_000,
        contributor_share(minted_supply()) == 940_000_000_000_000,
{
    reveal_with_fuel(pow10, 7);
    assert(pow10(6) == 1_000_000);
}

} // verus!
