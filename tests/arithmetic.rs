use launch_pool::distribution::{
    contributor_tokens, platform_tokens, total_token_supply, user_tokens, winner_payout,
};
use launch_pool::records::LaunchPool;

#[test]
fn winner_gets_five_percent_of_a_billion() {
    assert_eq!(winner_payout(1_000_000_000), 50_000_000);
}

#[test]
fn winner_payout_rounds_down() {
    assert_eq!(winner_payout(3), 0);
    assert_eq!(winner_payout(19), 0);
    assert_eq!(winner_payout(20), 1);
    assert_eq!(winner_payout(100), 5);
    assert_eq!(winner_payout(12_345), 617);
}

#[test]
fn winner_payout_of_largest_total_does_not_overflow() {
    assert_eq!(winner_payout(u64::MAX), 922_337_203_685_477_580);
}

#[test]
fn minted_supply_is_a_billion_tokens_with_six_decimals() {
    assert_eq!(total_token_supply(), 1_000_000_000_000_000);
}

#[test]
fn platform_and_contributor_shares_of_supply() {
    let supply = total_token_supply();
    assert_eq!(platform_tokens(supply), 10_000_000_000_000);
    assert_eq!(contributor_tokens(supply), 940_000_000_000_000);
}

#[test]
fn shares_round_down_on_uneven_supply() {
    assert_eq!(platform_tokens(199), 1);
    assert_eq!(platform_tokens(99), 0);
    assert_eq!(contributor_tokens(3), 2);
    assert_eq!(contributor_tokens(1), 0);
}

#[test]
fn user_tokens_are_proportional() {
    let c = 940_000_000_000_000;
    assert_eq!(user_tokens(c, 60, 100), 564_000_000_000_000);
    assert_eq!(user_tokens(c, 40, 100), 376_000_000_000_000);
    assert_eq!(user_tokens(c, 1, 3), 313_333_333_333_333);
    assert_eq!(user_tokens(c, 100, 100), c);
}

#[test]
fn user_tokens_with_large_operands_use_wide_product() {
    assert_eq!(user_tokens(u64::MAX, u64::MAX, u64::MAX), u64::MAX);
    assert_eq!(user_tokens(940_000_000_000_000, 1 << 40, 1 << 41), 470_000_000_000_000);
}

#[test]
fn pool_space_counts_identifier_bytes() {
    assert_eq!(LaunchPool::space(""), 235);
    assert_eq!(LaunchPool::space("abc"), 238);
    assert_eq!(LaunchPool::space("é"), 237);
}
