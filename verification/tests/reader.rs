//! Tests for the reserve reader on raw account data.

use valhalla_amm::error::AmmError;
use valhalla_amm::reader::{get_pool_token_balances, get_token_balance, get_token_supply};

fn token_account_data(amount: u64, state: u8) -> Vec<u8> {
    let mut data = vec![0u8; 165];
    data[64..72].copy_from_slice(&amount.to_le_bytes());
    data[108] = state;
    data
}

fn mint_data(supply: u64, initialized: u8) -> Vec<u8> {
    let mut data = vec![0u8; 82];
    data[36..44].copy_from_slice(&supply.to_le_bytes());
    data[45] = initialized;
    data
}

#[test]
fn token_balance_reads_little_endian_amount() {
    let data = token_account_data(0x0102030405060708, 1);
    assert_eq!(get_token_balance(&data), Ok(0x0102030405060708));
    let data = token_account_data(u64::MAX, 2);
    assert_eq!(get_token_balance(&data), Ok(u64::MAX));
}

#[test]
fn token_balance_rejects_wrong_length() {
    assert_eq!(get_token_balance(&[0u8; 10]), Err(AmmError::AccountReadError));
    assert_eq!(get_token_balance(&[0u8; 82]), Err(AmmError::AccountReadError));
}

#[test]
fn token_balance_rejects_uninitialized_account() {
    let data = token_account_data(5, 0);
    assert_eq!(get_token_balance(&data), Err(AmmError::AccountReadError));
    let data = token_account_data(5, 3);
    assert_eq!(get_token_balance(&data), Err(AmmError::AccountReadError));
}

#[test]
fn token_supply_reads_little_endian_supply() {
    let data = mint_data(1_000_000, 1);
    assert_eq!(get_token_supply(&data), Ok(1_000_000));
}

#[test]
fn token_supply_rejects_invalid_mint() {
    assert_eq!(get_token_supply(&[0u8; 165]), Err(AmmError::AccountReadError));
    let data = mint_data(1_000_000, 0);
    assert_eq!(get_token_supply(&data), Err(AmmError::AccountReadError));
}

#[test]
fn pool_balances_read_both_sides_in_order() {
    let a = token_account_data(111, 1);
    let b = token_account_data(222, 1);
    assert_eq!(get_pool_token_balances(&a, &b), Ok((111, 222)));
    let bad = token_account_data(222, 0);
    assert_eq!(get_pool_token_balances(&a, &bad), Err(AmmError::AccountReadError));
    assert_eq!(get_pool_token_balances(&bad, &a), Err(AmmError::AccountReadError));
}
