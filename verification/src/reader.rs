//! Reserve reader: the balance of a pool token account and the supply of
//! the liquidity-token mint, read from the accounts' raw data.
//!
//! A token account is 165 bytes with its amount stored little-endian at
//! offset 64 and its state byte at offset 108 (1 initialized, 2 frozen); a
//! mint is 82 bytes with its supply little-endian at offset 36 and its
//! initialized flag at offset 45.  Anything else is not a valid token
//! account or mint and is reported as a read failure.

use vstd::prelude::*;
use crate::error::AmmError;
use vstd::slice::slice_index_get;

verus! {

/// The unsigned 64-bit value stored little-endian at offset `i` of `data`.
pub open spec fn u64_le_at(data: Seq<u8>, i: int) -> int {
    data[i] + 0x100 * (data[i + 1] + 0x100 * (data[i + 2] + 0x100 * (data[i + 3] + 0x100 * (
    data[i + 4] + 0x100 * (data[i + 5] + 0x100 * (data[i + 6] + 0x100 * data[i + 7]))))))
}

/// Whether `data` is the raw data of a token account that holds a balance:
/// the expected length, and a state byte that marks it initialized or
/// frozen.
pub open spec fn valid_token_account(data: Seq<u8>) -> bool {
    data.len() == 165 && 1 <= data[108] <= 2
}

/// Whether `data` is the raw data of an initialized mint.
pub open spec fn valid_mint(data: Seq<u8>) -> bool {
    data.len() == 82 && data[45] == 1
}

/// The exact outcome of reading a token account's balance.
pub open spec fn token_balance_quote(data: Seq<u8>) -> Result<u64, AmmError> {
    if valid_token_account(data) {
        Ok(u64_le_at(data, 64) as u64)
    } else {
        Err(AmmError::AccountReadError)
    }
}

/// The exact outcome of reading a mint's total supply.
pub open spec fn token_supply_quote(data: Seq<u8>) -> Result<u64, AmmError> {
    if valid_mint(data) {
        Ok(u64_le_at(data, 36) as u64)
    } else {
        Err(AmmError::AccountReadError)
    }
}

/// Reads the little-endian 64-bit value at `offset`.
fn read_u64_le(data: &[u8], offset: usize) -> (r: u64)
    requires
        offset + 8 <= data@.len(),
    ensures
        r == u64_le_at(data@, offset as int),
{
    let len: usize = data.len();
    proof {
        assert(offset + 8 <= len);
    }
    let b0 = *slice_index_get(data, offset);
    let b1 = *slice_index_get(data, offset + 1);
    let b2 = *slice_index_get(data, offset + 2);
    let b3 = *slice_index_get(data, offset + 3);
    let b4 = *slice_index_get(data, offset + 4);
    let b5 = *slice_index_get(data, offset + 5);
    let b6 = *slice_index_get(data, offset + 6);
    let b7 = *slice_index_get(data, offset + 7);
    let x7: u64 = b7 as u64;
    let x6: u64 = (b6 as u64) + 0x100 * x7;
    let x5: u64 = (b5 as u64) + 0x100 * x6;
    let x4: u64 = (b4 as u64) + 0x100 * x5;
    let x3: u64 = (b3 as u64) + 0x100 * x4;
    let x2: u64 = (b2 as u64) + 0x100 * x3;
    let x1: u64 = (b1 as u64) + 0x100 * x2;
    let x0: u64 = (b0 as u64) + 0x100 * x1;
    x0
}

/// Reads the balance held by a token account from its raw data, failing
/// when the data is not a valid token account.
pub fn get_token_balance(data: &[u8]) -> (r: Result<u64, AmmError>)
    ensures
        r == token_balance_quote(data@),
{
    if data.len() != 165 {
        return Err(AmmError::AccountReadError);
    }
    let state = *slice_index_get(data, 108);
    if state < 1 || state > 2 {
        return Err(AmmError::AccountReadError);
    }
    Ok(read_u64_le(data, 64))
}

/// Reads the total supply of a mint from its raw data, failing when the
/// data is not a valid initialized mint.
pub fn get_token_supply(data: &[u8]) -> (r: Result<u64, AmmError>)
    ensures
        r == token_supply_quote(data@),
{
    if data.len() != 82 {
        return Err(AmmError::AccountReadError);
    }
    let initialized = *slice_index_get(data, 45);
    if initialized != 1 {
        return Err(AmmError::AccountReadError);
    }
    Ok(read_u64_le(data, 36))
}

/// The exact outcome of reading both pool reserve balances, the token-A
/// account first.
pub open spec fn pool_balances_quote(
    token_a_data: Seq<u8>,
    token_b_data: Seq<u8>,
) -> Result<(u64, u64), AmmError> {
    match token_balance_quote(token_a_data) {
        Err(e) => Err(e),
        Ok(token_a_balance) => match token_balance_quote(token_b_data) {
            Err(e) => Err(e),
            Ok(token_b_balance) => Ok((token_a_balance, token_b_balance)),
        },
    }
}

/// Reads the pool's two reserve balances from the raw data of its token
/// accounts.
pub fn get_pool_token_balances(
    token_a_data: &[u8],
    token_b_data: &[u8],
) -> (r: Result<(u64, u64), AmmError>)
    ensures
        r == pool_balances_quote(token_a_data@, token_b_data@),
{
    let token_a_balance = get_token_balance(token_a_data)?;
    let token_b_balance = get_token_balance(token_b_data)?;
    Ok((token_a_balance, token_b_balance))
}

} // verus!
