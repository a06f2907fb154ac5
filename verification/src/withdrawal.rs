//! Withdrawal calculator: the minimum token amounts owed for burning a given
//! amount of liquidity tokens.

use vstd::prelude::*;
use crate::error::AmmError;
use crate::math::mul_div;

verus! {

/// The exact outcome of a withdrawal quote.
///
/// A zero `lp_token_amount` is malformed (resolving "withdraw all" is the
/// caller's responsibility).  An empty pool — both reserves zero, or no
/// liquidity tokens outstanding — yields `(0, 0)` as a defined no-op.
/// Otherwise each side returns `floor(balance * lp_token_amount / supply)`,
/// the burned stake applied exactly to each reserve, and the quote fails
/// when either amount leaves the 64-bit domain.
pub open spec fn withdrawal_quote(
    token_a_balance: u64,
    token_b_balance: u64,
    lp_token_supply: u64,
    lp_token_amount: u64,
) -> Result<(u64, u64), AmmError> {
    if lp_token_amount == 0 {
        Err(AmmError::InvalidIntent)
    } else if token_a_balance == 0 && token_b_balance == 0 {
        Ok((0u64, 0u64))
    } else if lp_token_supply == 0 {
        Ok((0u64, 0u64))
    } else {
        let amount_a = token_a_balance * lp_token_amount / (lp_token_supply as int);
        let amount_b = token_b_balance * lp_token_amount / (lp_token_supply as int);
        if amount_a > u64::MAX {
            Err(AmmError::ArithmeticOverflow)
        } else if amount_b > u64::MAX {
            Err(AmmError::ArithmeticOverflow)
        } else {
            Ok((amount_a as u64, amount_b as u64))
        }
    }
}

/// Quotes the minimum amounts of token A and token B expected in return for
/// burning `lp_token_amount` liquidity tokens, given the pool's reserve
/// balances and the outstanding liquidity-token supply.
pub fn get_pool_withdrawal_amounts(
    token_a_balance: u64,
    token_b_balance: u64,
    lp_token_supply: u64,
    lp_token_amount: u64,
) -> (r: Result<(u64, u64), AmmError>)
    ensures
        r == withdrawal_quote(token_a_balance, token_b_balance, lp_token_supply, lp_token_amount),
{
    if lp_token_amount == 0 {
        return Err(AmmError::InvalidIntent);
    }
    if token_a_balance == 0 && token_b_balance == 0 {
        return Ok((0, 0));
    }
    if lp_token_supply == 0 {
        return Ok((0, 0));
    }
    let amount_a = mul_div(token_a_balance, lp_token_amount, lp_token_supply)?;
    let amount_b = mul_div(token_b_balance, lp_token_amount, lp_token_supply)?;
    Ok((amount_a, amount_b))
}

/// Two withdrawal quotes over identical inputs are identical: each call's
/// result equals `withdrawal_quote`, a function of the inputs alone, so the
/// calculator holds no hidden state.
pub proof fn lemma_withdrawal_deterministic(
    token_a_balance: u64,
    token_b_balance: u64,
    lp_token_supply: u64,
    lp_token_amount: u64,
    r1: Result<(u64, u64), AmmError>,
    r2: Result<(u64, u64), AmmError>,
)
    requires
        r1 == withdrawal_quote(token_a_balance, token_b_balance, lp_token_supply, lp_token_amount),
        r2 == withdrawal_quote(token_a_balance, token_b_balance, lp_token_supply, lp_token_amount),
    ensures
        r1 == r2,
{
}

/// A withdrawal never wraps or truncates: on a non-empty pool, whenever the
/// exact stake applied to either reserve leaves the 64-bit domain the quote
/// is an overflow failure, and otherwise the returned amounts are exactly the
/// mathematical values.
pub proof fn lemma_withdrawal_overflow_guard(
    token_a_balance: u64,
    token_b_balance: u64,
    lp_token_supply: u64,
    lp_token_amount: u64,
)
    requires
        lp_token_amount > 0,
        lp_token_supply > 0,
        !(token_a_balance == 0 && token_b_balance == 0),
    ensures
        token_a_balance * lp_token_amount / (lp_token_supply as int) > u64::MAX
            || token_b_balance * lp_token_amount / (lp_token_supply as int) > u64::MAX
            ==> withdrawal_quote(token_a_balance, token_b_balance, lp_token_supply, lp_token_amount)
                == Err::<(u64, u64), AmmError>(AmmError::ArithmeticOverflow),
        token_a_balance * lp_token_amount / (lp_token_supply as int) <= u64::MAX
            && token_b_balance * lp_token_amount / (lp_token_supply as int) <= u64::MAX
            ==> withdrawal_quote(token_a_balance, token_b_balance, lp_token_supply, lp_token_amount)
                == Ok::<(u64, u64), AmmError>((
                    (token_a_balance * lp_token_amount / (lp_token_supply as int)) as u64,
                    (token_b_balance * lp_token_amount / (lp_token_supply as int)) as u64,
                )),
{
}

} // verus!
