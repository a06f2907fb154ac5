//! Deposit calculator: the amounts to contribute on each side and the
//! minimum liquidity-token amount expected in return.

use vstd::prelude::*;
use crate::error::AmmError;
use crate::math::{checked_add, mul_div};
use vstd::arithmetic::div_mod::lemma_div_non_zero;

verus! {

/// The exact liquidity-token estimate for a deposit.
///
/// Each defined reserve side contributes `floor(deposit * supply / balance)`,
/// the deposit's share of the pool scaled to the outstanding supply; when
/// both sides are defined the smaller — binding — share wins, and a side
/// whose share leaves the 64-bit domain fails the estimate.  A pool with
/// both reserves zero owes no estimate at all.
pub open spec fn lp_estimate_quote(
    lp_token_supply: u64,
    token_a_deposit: u64,
    token_b_deposit: u64,
    pool_token_a_balance: u64,
    pool_token_b_balance: u64,
) -> Result<u64, AmmError> {
    if pool_token_a_balance != 0 && pool_token_b_balance != 0 {
        let share_a = token_a_deposit * lp_token_supply / (pool_token_a_balance as int);
        let share_b = token_b_deposit * lp_token_supply / (pool_token_b_balance as int);
        if share_a > u64::MAX {
            Err(AmmError::ArithmeticOverflow)
        } else if share_b > u64::MAX {
            Err(AmmError::ArithmeticOverflow)
        } else if share_a <= share_b {
            Ok(share_a as u64)
        } else {
            Ok(share_b as u64)
        }
    } else if pool_token_a_balance != 0 {
        let share_a = token_a_deposit * lp_token_supply / (pool_token_a_balance as int);
        if share_a > u64::MAX {
            Err(AmmError::ArithmeticOverflow)
        } else {
            Ok(share_a as u64)
        }
    } else if pool_token_b_balance != 0 {
        let share_b = token_b_deposit * lp_token_supply / (pool_token_b_balance as int);
        if share_b > u64::MAX {
            Err(AmmError::ArithmeticOverflow)
        } else {
            Ok(share_b as u64)
        }
    } else {
        Ok(0u64)
    }
}

/// Estimates the liquidity tokens minted for depositing the given amounts
/// against the given reserve balances, with the outstanding supply scaled by
/// the binding deposit share.
pub fn estimate_lp_tokens_amount(
    lp_token_supply: u64,
    token_a_deposit: u64,
    token_b_deposit: u64,
    pool_token_a_balance: u64,
    pool_token_b_balance: u64,
) -> (r: Result<u64, AmmError>)
    ensures
        r == lp_estimate_quote(
            lp_token_supply,
            token_a_deposit,
            token_b_deposit,
            pool_token_a_balance,
            pool_token_b_balance,
        ),
{
    if pool_token_a_balance != 0 && pool_token_b_balance != 0 {
        let share_a = mul_div(token_a_deposit, lp_token_supply, pool_token_a_balance)?;
        let share_b = mul_div(token_b_deposit, lp_token_supply, pool_token_b_balance)?;
        if share_a <= share_b {
            Ok(share_a)
        } else {
            Ok(share_b)
        }
    } else if pool_token_a_balance != 0 {
        mul_div(token_a_deposit, lp_token_supply, pool_token_a_balance)
    } else if pool_token_b_balance != 0 {
        mul_div(token_b_deposit, lp_token_supply, pool_token_b_balance)
    } else {
        Ok(0)
    }
}

/// The tail every non-empty-pool deposit shares: estimate the liquidity
/// tokens for the settled amounts, then round the token-B contribution up by
/// one so the pool receives at least the proportional share.
pub open spec fn deposit_finish(
    token_a_balance: u64,
    token_b_balance: u64,
    lp_token_supply: u64,
    token_a_amount: u64,
    token_b_amount: u64,
) -> Result<(u64, u64, u64), AmmError> {
    match lp_estimate_quote(
        lp_token_supply,
        token_a_amount,
        token_b_amount,
        token_a_balance,
        token_b_balance,
    ) {
        Err(e) => Err(e),
        Ok(min_lp_tokens_out) => {
            if token_b_amount + 1 > u64::MAX {
                Err(AmmError::ArithmeticOverflow)
            } else {
                Ok((min_lp_tokens_out, token_a_amount, (token_b_amount + 1) as u64))
            }
        },
    }
}

/// The exact outcome of a deposit quote.
///
/// At least one requested maximum must be nonzero.  On an empty pool — a
/// zero reserve on either side — both maxima are required and are used
/// verbatim, with the smallest positive liquidity-token guard.  On a
/// non-empty pool a single-sided request derives the missing side from the
/// reserve ratio: the token-A side rounds the proportional estimate down by
/// one (when it exceeds one), the token-B side keeps the floor estimate and
/// is then rounded up by one on return, as every non-empty-pool deposit is.
pub open spec fn deposit_quote(
    token_a_balance: u64,
    token_b_balance: u64,
    lp_token_supply: u64,
    max_token_a_amount: u64,
    max_token_b_amount: u64,
) -> Result<(u64, u64, u64), AmmError> {
    if max_token_a_amount == 0 && max_token_b_amount == 0 {
        Err(AmmError::InvalidIntent)
    } else if token_a_balance == 0 || token_b_balance == 0 {
        if max_token_a_amount == 0 || max_token_b_amount == 0 {
            Err(AmmError::InvalidIntent)
        } else {
            Ok((1u64, max_token_a_amount, max_token_b_amount))
        }
    } else if max_token_a_amount == 0 {
        let estimate = token_a_balance * max_token_b_amount / (token_b_balance as int);
        if estimate > u64::MAX {
            Err(AmmError::ArithmeticOverflow)
        } else {
            let adjusted = if estimate > 1 { (estimate - 1) as u64 } else { 0u64 };
            deposit_finish(
                token_a_balance,
                token_b_balance,
                lp_token_supply,
                adjusted,
                max_token_b_amount,
            )
        }
    } else if max_token_b_amount == 0 {
        let proportional = token_b_balance * max_token_a_amount / (token_a_balance as int);
        if proportional > u64::MAX {
            Err(AmmError::ArithmeticOverflow)
        } else {
            deposit_finish(
                token_a_balance,
                token_b_balance,
                lp_token_supply,
                max_token_a_amount,
                proportional as u64,
            )
        }
    } else {
        deposit_finish(
            token_a_balance,
            token_b_balance,
            lp_token_supply,
            max_token_a_amount,
            max_token_b_amount,
        )
    }
}

/// Quotes a deposit: given the reserve balances, the liquidity-token supply
/// and the caller's maxima, returns the minimum liquidity-token amount
/// expected and the amounts to contribute on each side.
pub fn get_pool_deposit_amounts(
    token_a_balance: u64,
    token_b_balance: u64,
    lp_token_supply: u64,
    max_token_a_amount: u64,
    max_token_b_amount: u64,
) -> (r: Result<(u64, u64, u64), AmmError>)
    ensures
        r == deposit_quote(
            token_a_balance,
            token_b_balance,
            lp_token_supply,
            max_token_a_amount,
            max_token_b_amount,
        ),
{
    if max_token_a_amount == 0 && max_token_b_amount == 0 {
        return Err(AmmError::InvalidIntent);
    }
    if token_a_balance == 0 || token_b_balance == 0 {
        if max_token_a_amount == 0 || max_token_b_amount == 0 {
            return Err(AmmError::InvalidIntent);
        }
        return Ok((1, max_token_a_amount, max_token_b_amount));
    }
    let mut token_a_amount = max_token_a_amount;
    let mut token_b_amount = max_token_b_amount;
    if max_token_a_amount == 0 {
        let estimate = mul_div(token_a_balance, max_token_b_amount, token_b_balance)?;
        token_a_amount = if estimate > 1 {
            estimate - 1
        } else {
            0
        };
    } else if max_token_b_amount == 0 {
        token_b_amount = mul_div(token_b_balance, max_token_a_amount, token_a_balance)?;
    }
    let min_lp_tokens_out = estimate_lp_tokens_amount(
        lp_token_supply,
        token_a_amount,
        token_b_amount,
        token_a_balance,
        token_b_balance,
    )?;
    let final_token_b_amount = checked_add(token_b_amount, 1)?;
    Ok((min_lp_tokens_out, token_a_amount, final_token_b_amount))
}

/// Two deposit quotes over identical inputs are identical: each call's
/// result equals `deposit_quote`, a function of the inputs alone, so the
/// calculator holds no hidden state.
pub proof fn lemma_deposit_deterministic(
    token_a_balance: u64,
    token_b_balance: u64,
    lp_token_supply: u64,
    max_token_a_amount: u64,
    max_token_b_amount: u64,
    r1: Result<(u64, u64, u64), AmmError>,
    r2: Result<(u64, u64, u64), AmmError>,
)
    requires
        r1 == deposit_quote(
            token_a_balance,
            token_b_balance,
            lp_token_supply,
            max_token_a_amount,
            max_token_b_amount,
        ),
        r2 == deposit_quote(
            token_a_balance,
            token_b_balance,
            lp_token_supply,
            max_token_a_amount,
            max_token_b_amount,
        ),
    ensures
        r1 == r2,
{
}

/// A two-sided deposit against a non-empty pool never asks for more than the
/// caller offered: the token-A amount stays within the requested maximum,
/// the token-B amount within the maximum plus the one-unit rounding
/// allowance, and — when each side's offer is large enough to carry at least
/// one unit of the outstanding supply — the liquidity-token guard is at
/// least one.
pub proof fn lemma_deposit_bounds(
    token_a_balance: u64,
    token_b_balance: u64,
    lp_token_supply: u64,
    max_token_a_amount: u64,
    max_token_b_amount: u64,
)
    requires
        token_a_balance > 0,
        token_b_balance > 0,
        max_token_a_amount > 0,
        max_token_b_amount > 0,
        max_token_a_amount * lp_token_supply >= token_a_balance,
        max_token_b_amount * lp_token_supply >= token_b_balance,
    ensures
        (deposit_quote(
            token_a_balance,
            token_b_balance,
            lp_token_supply,
            max_token_a_amount,
            max_token_b_amount,
        ) matches Ok(quote) ==> quote.1 <= max_token_a_amount
            && quote.2 <= max_token_b_amount + 1
            && quote.0 >= 1),
{
    lemma_div_non_zero(
        max_token_a_amount * lp_token_supply,
        token_a_balance as int,
    );
    lemma_div_non_zero(
        max_token_b_amount * lp_token_supply,
        token_b_balance as int,
    );
}

} // verus!
