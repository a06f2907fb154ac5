//! Swap calculator: the input amount to forward and the minimum output owed
//! by the constant-product rule after the fee deduction.

use vstd::prelude::*;
use crate::error::AmmError;
use vstd::arithmetic::div_mod::{
    lemma_div_by_multiple, lemma_div_is_ordered, lemma_div_is_ordered_by_denominator,
    lemma_div_multiples_vanish, lemma_div_nonincreasing, lemma_div_pos_is_pos,
};
use vstd::arithmetic::mul::lemma_mul_nonnegative;

verus! {

/// Numerator of the share of an offered amount kept after the fixed 0.3%
/// proportional fee.
pub const FEE_NUMERATOR: u64 = 997;

/// Denominator of the fee share.
pub const FEE_DENOMINATOR: u64 = 1000;

/// The part of an offered amount that enters the constant-product formula:
/// the offer less the fixed proportional fee, rounded toward zero.
pub open spec fn effective_swap_in(amount_in: int) -> int {
    amount_in * FEE_NUMERATOR / (FEE_DENOMINATOR as int)
}

/// The constant-product output for a swap that offers `amount_in` against
/// the input-side reserve `in_balance` and the output-side reserve
/// `out_balance`, with the product taken exactly before the division.
pub open spec fn swap_output(in_balance: int, out_balance: int, amount_in: int) -> int {
    out_balance - in_balance * out_balance / (in_balance + effective_swap_in(amount_in))
}

/// The exact outcome of a swap quote.
///
/// Exactly one of the two offered amounts must be nonzero; a pool with a
/// zero reserve on either side rejects every swap.  The nonzero offer is
/// forwarded unchanged as the input amount, and the constant-product output
/// after the fee becomes the minimum acceptable output.
pub open spec fn swap_quote(
    token_a_balance: u64,
    token_b_balance: u64,
    token_a_amount_in: u64,
    token_b_amount_in: u64,
) -> Result<(u64, u64), AmmError> {
    if (token_a_amount_in == 0 && token_b_amount_in == 0)
        || (token_a_amount_in > 0 && token_b_amount_in > 0) {
        Err(AmmError::InvalidIntent)
    } else if token_a_balance == 0 || token_b_balance == 0 {
        Err(AmmError::EmptyPool)
    } else if token_a_amount_in == 0 {
        Ok((
            token_b_amount_in,
            swap_output(token_b_balance as int, token_a_balance as int, token_b_amount_in as int)
                as u64,
        ))
    } else {
        Ok((
            token_a_amount_in,
            swap_output(token_a_balance as int, token_b_balance as int, token_a_amount_in as int)
                as u64,
        ))
    }
}

/// Applies the fee and the constant-product rule to one offered amount.
/// The output never exceeds the output-side reserve, so it always fits the
/// 64-bit domain.
fn swap_out_amount(in_balance: u64, out_balance: u64, amount_in: u64) -> (r: u64)
    requires
        in_balance > 0,
        out_balance > 0,
    ensures
        r == swap_output(in_balance as int, out_balance as int, amount_in as int),
{
    proof {
        assert((amount_in as int) * (FEE_NUMERATOR as int) <= u128::MAX as int)
            by (nonlinear_arith)
            requires
                amount_in <= u64::MAX;
    }
    let effective_in: u128 =
        (amount_in as u128) * (FEE_NUMERATOR as u128) / (FEE_DENOMINATOR as u128);
    proof {
        assert((in_balance as int) * (out_balance as int) <= u128::MAX as int)
            by (nonlinear_arith)
            requires
                in_balance <= u64::MAX,
                out_balance <= u64::MAX;
        lemma_div_nonincreasing((amount_in as int) * (FEE_NUMERATOR as int),
            FEE_DENOMINATOR as int);
        assert(effective_in <= u64::MAX as u128 * 997);
    }
    let numerator: u128 = (in_balance as u128) * (out_balance as u128);
    let denominator: u128 = (in_balance as u128) + effective_in;
    let quotient: u128 = numerator / denominator;
    proof {
        lemma_div_pos_is_pos((amount_in as int) * (FEE_NUMERATOR as int),
            FEE_DENOMINATOR as int);
        lemma_div_is_ordered_by_denominator(
            (in_balance as int) * (out_balance as int),
            in_balance as int,
            denominator as int,
        );
        lemma_div_multiples_vanish(out_balance as int, in_balance as int);
        assert(quotient <= out_balance);
    }
    out_balance - (quotient as u64)
}

/// Quotes a swap: given the two reserve balances and exactly one nonzero
/// offered amount, returns the amount to forward downstream and the minimum
/// output after the fee deduction.
pub fn get_pool_swap_amounts(
    token_a_balance: u64,
    token_b_balance: u64,
    token_a_amount_in: u64,
    token_b_amount_in: u64,
) -> (r: Result<(u64, u64), AmmError>)
    ensures
        r == swap_quote(token_a_balance, token_b_balance, token_a_amount_in, token_b_amount_in),
{
    if (token_a_amount_in == 0 && token_b_amount_in == 0)
        || (token_a_amount_in > 0 && token_b_amount_in > 0) {
        return Err(AmmError::InvalidIntent);
    }
    if token_a_balance == 0 || token_b_balance == 0 {
        return Err(AmmError::EmptyPool);
    }
    if token_a_amount_in == 0 {
        let amount_out = swap_out_amount(token_b_balance, token_a_balance, token_b_amount_in);
        Ok((token_b_amount_in, amount_out))
    } else {
        let amount_out = swap_out_amount(token_a_balance, token_b_balance, token_a_amount_in);
        Ok((token_a_amount_in, amount_out))
    }
}

/// The fee never increases the swap output: against any pool with two
/// nonzero reserves, the constant-product output for an offer after the fee
/// deduction is at most the output the same offer would buy with no fee.
pub proof fn lemma_fee_never_increases_output(
    in_balance: u64,
    out_balance: u64,
    amount_in: u64,
)
    requires
        in_balance > 0,
        out_balance > 0,
    ensures
        swap_output(in_balance as int, out_balance as int, amount_in as int)
            <= out_balance - in_balance * out_balance / (in_balance + amount_in),
{
    let effective = effective_swap_in(amount_in as int);
    lemma_div_pos_is_pos(amount_in * FEE_NUMERATOR, FEE_DENOMINATOR as int);
    lemma_div_is_ordered(
        amount_in * FEE_NUMERATOR,
        amount_in * FEE_DENOMINATOR,
        FEE_DENOMINATOR as int,
    );
    lemma_div_by_multiple(amount_in as int, FEE_DENOMINATOR as int);
    lemma_mul_nonnegative(in_balance as int, out_balance as int);
    lemma_div_is_ordered_by_denominator(
        in_balance * out_balance,
        in_balance + effective,
        in_balance + amount_in,
    );
}

/// Two swap quotes over identical inputs are identical: each call's result
/// equals `swap_quote`, a function of the inputs alone, so the calculator
/// holds no hidden state.
pub proof fn lemma_swap_deterministic(
    token_a_balance: u64,
    token_b_balance: u64,
    token_a_amount_in: u64,
    token_b_amount_in: u64,
    r1: Result<(u64, u64), AmmError>,
    r2: Result<(u64, u64), AmmError>,
)
    requires
        r1 == swap_quote(token_a_balance, token_b_balance, token_a_amount_in, token_b_amount_in),
        r2 == swap_quote(token_a_balance, token_b_balance, token_a_amount_in, token_b_amount_in),
    ensures
        r1 == r2,
{
}

} // verus!
