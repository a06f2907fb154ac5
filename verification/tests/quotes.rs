//! Tests for the three quote calculators.

use valhalla_amm::deposit::{estimate_lp_tokens_amount, get_pool_deposit_amounts};
use valhalla_amm::error::AmmError;
use valhalla_amm::math::checked_as_u64;
use valhalla_amm::swap::get_pool_swap_amounts;
use valhalla_amm::withdrawal::get_pool_withdrawal_amounts;

#[test]
fn deposit_initial_uses_both_maxima_verbatim() {
    let quote = get_pool_deposit_amounts(0, 0, 0, 1000, 2000);
    assert_eq!(quote, Ok((1, 1000, 2000)));
}

#[test]
fn deposit_initial_requires_both_amounts() {
    let quote = get_pool_deposit_amounts(0, 0, 0, 0, 2000);
    assert_eq!(quote, Err(AmmError::InvalidIntent));
    let quote = get_pool_deposit_amounts(0, 0, 0, 1000, 0);
    assert_eq!(quote, Err(AmmError::InvalidIntent));
}

#[test]
fn deposit_rejects_empty_intent() {
    let quote = get_pool_deposit_amounts(1000, 5000, 300, 0, 0);
    assert_eq!(quote, Err(AmmError::InvalidIntent));
}

#[test]
fn deposit_one_sided_reserve_counts_as_initial() {
    let quote = get_pool_deposit_amounts(1000, 0, 300, 1000, 2000);
    assert_eq!(quote, Ok((1, 1000, 2000)));
}

#[test]
fn deposit_two_sided_takes_amounts_as_given() {
    let quote = get_pool_deposit_amounts(1000, 5000, 300, 100, 500);
    assert_eq!(quote, Ok((30, 100, 501)));
}

#[test]
fn deposit_derives_token_b_proportionally_rounding_up() {
    let quote = get_pool_deposit_amounts(1000, 5000, 300, 100, 0);
    assert_eq!(quote, Ok((30, 100, 501)));
}

#[test]
fn deposit_derives_token_a_proportionally_rounding_down() {
    let quote = get_pool_deposit_amounts(1000, 5000, 300, 0, 500);
    assert_eq!(quote, Ok((29, 99, 501)));
}

#[test]
fn deposit_proportional_estimate_overflow_fails() {
    let quote = get_pool_deposit_amounts(u64::MAX, 1, 0, 0, u64::MAX);
    assert_eq!(quote, Err(AmmError::ArithmeticOverflow));
}

#[test]
fn deposit_token_b_rounding_overflow_fails() {
    let quote = get_pool_deposit_amounts(1, 1, 0, 1, u64::MAX);
    assert_eq!(quote, Err(AmmError::ArithmeticOverflow));
}

#[test]
fn lp_estimate_takes_binding_share() {
    assert_eq!(estimate_lp_tokens_amount(300, 100, 500, 1000, 5000), Ok(30));
    assert_eq!(estimate_lp_tokens_amount(300, 100, 9999, 1000, 5000), Ok(30));
    assert_eq!(estimate_lp_tokens_amount(300, 50, 500, 1000, 5000), Ok(15));
}

#[test]
fn lp_estimate_uses_defined_side_of_empty_pool() {
    assert_eq!(estimate_lp_tokens_amount(300, 100, 77, 1000, 0), Ok(30));
    assert_eq!(estimate_lp_tokens_amount(300, 77, 500, 0, 5000), Ok(30));
    assert_eq!(estimate_lp_tokens_amount(300, 77, 88, 0, 0), Ok(0));
}

#[test]
fn withdrawal_half_the_supply_returns_half_the_reserves() {
    let quote = get_pool_withdrawal_amounts(1_000_000, 2_000_000, 1_000_000, 500_000);
    assert_eq!(quote, Ok((500_000, 1_000_000)));
}

#[test]
fn withdrawal_rejects_zero_amount() {
    let quote = get_pool_withdrawal_amounts(1_000_000, 2_000_000, 1_000_000, 0);
    assert_eq!(quote, Err(AmmError::InvalidIntent));
}

#[test]
fn withdrawal_on_empty_pool_is_a_no_op() {
    assert_eq!(get_pool_withdrawal_amounts(0, 0, 0, 123), Ok((0, 0)));
    assert_eq!(get_pool_withdrawal_amounts(0, 0, 0, 1), Ok((0, 0)));
    assert_eq!(get_pool_withdrawal_amounts(0, 0, 0, u64::MAX), Ok((0, 0)));
}

#[test]
fn withdrawal_on_supply_less_pool_is_a_no_op() {
    assert_eq!(get_pool_withdrawal_amounts(500, 600, 0, 123), Ok((0, 0)));
}

#[test]
fn withdrawal_near_full_stake_of_huge_reserves_stays_exact() {
    let quote = get_pool_withdrawal_amounts(u64::MAX, u64::MAX, 1000, 999);
    assert_eq!(quote, Ok((18428297329635842063, 18428297329635842063)));
}

#[test]
fn withdrawal_past_the_64_bit_domain_fails() {
    let quote = get_pool_withdrawal_amounts(u64::MAX, u64::MAX, 1000, 2000);
    assert_eq!(quote, Err(AmmError::ArithmeticOverflow));
    let quote = get_pool_withdrawal_amounts(10, u64::MAX, 1000, 2000);
    assert_eq!(quote, Err(AmmError::ArithmeticOverflow));
}

#[test]
fn swap_fee_strictly_reduces_output() {
    let quote = get_pool_swap_amounts(1_000_000, 1_000_000, 1000, 0);
    assert_eq!(quote, Ok((1000, 997)));
    let (amount_in, amount_out) = quote.unwrap();
    assert_eq!(amount_in, 1000);
    // The no-fee constant-product output for the same offer is 1000.
    assert!(amount_out < 1000);
    assert!(amount_out > 0);
}

#[test]
fn swap_other_direction_uses_other_reserve() {
    let quote = get_pool_swap_amounts(1_000_000, 1_000_000, 0, 1000);
    assert_eq!(quote, Ok((1000, 997)));
}

#[test]
fn swap_on_empty_pool_fails() {
    let quote = get_pool_swap_amounts(0, 500, 100, 0);
    assert_eq!(quote, Err(AmmError::EmptyPool));
}

#[test]
fn swap_rejects_no_offer_and_double_offer() {
    let quote = get_pool_swap_amounts(1_000_000, 1_000_000, 0, 0);
    assert_eq!(quote, Err(AmmError::InvalidIntent));
    let quote = get_pool_swap_amounts(1_000_000, 1_000_000, 10, 10);
    assert_eq!(quote, Err(AmmError::InvalidIntent));
}

#[test]
fn calculators_are_idempotent() {
    let first = get_pool_deposit_amounts(1000, 5000, 300, 100, 500);
    let second = get_pool_deposit_amounts(1000, 5000, 300, 100, 500);
    assert_eq!(first, second);
    let first = get_pool_withdrawal_amounts(1_000_000, 2_000_000, 1_000_000, 500_000);
    let second = get_pool_withdrawal_amounts(1_000_000, 2_000_000, 1_000_000, 500_000);
    assert_eq!(first, second);
    let first = get_pool_swap_amounts(1_000_000, 1_000_000, 1000, 0);
    let second = get_pool_swap_amounts(1_000_000, 1_000_000, 1000, 0);
    assert_eq!(first, second);
}

#[test]
fn checked_cast_accepts_the_64_bit_domain_exactly() {
    assert_eq!(checked_as_u64(0), Ok(0));
    assert_eq!(checked_as_u64(u64::MAX as u128), Ok(u64::MAX));
    assert_eq!(
        checked_as_u64(u64::MAX as u128 + 1),
        Err(AmmError::ArithmeticOverflow)
    );
}
