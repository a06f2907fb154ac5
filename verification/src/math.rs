//! Checked integer arithmetic: the cast back to the 64-bit domain and the
//! multiply-before-divide primitive every ratio is built from.

use vstd::prelude::*;
use crate::error::AmmError;

verus! {

/// Converts a non-negative intermediate result to `u64`, failing when the
/// value does not fit the unsigned 64-bit domain.
pub fn checked_as_u64(value: u128) -> (r: Result<u64, AmmError>)
    ensures
        value <= u64::MAX ==> r == Ok::<u64, AmmError>(value as u64),
        value > u64::MAX ==> r == Err::<u64, AmmError>(AmmError::ArithmeticOverflow),
{
    if value > u64::MAX as u128 {
        Err(AmmError::ArithmeticOverflow)
    } else {
        Ok(value as u64)
    }
}

/// Adds two amounts, failing when the sum leaves the 64-bit domain.
pub fn checked_add(a: u64, b: u64) -> (r: Result<u64, AmmError>)
    ensures
        a + b <= u64::MAX ==> r == Ok::<u64, AmmError>((a + b) as u64),
        a + b > u64::MAX ==> r == Err::<u64, AmmError>(AmmError::ArithmeticOverflow),
{
    if a <= u64::MAX - b {
        Ok(a + b)
    } else {
        Err(AmmError::ArithmeticOverflow)
    }
}

/// `floor(x * y / d)`, with the product taken exactly (128-bit wide) before
/// the division, failing only when the quotient leaves the 64-bit domain.
pub fn mul_div(x: u64, y: u64, d: u64) -> (r: Result<u64, AmmError>)
    requires
        d > 0,
    ensures
        x * y / (d as int) <= u64::MAX ==> r == Ok::<u64, AmmError>((x * y / (d as int)) as u64),
        x * y / (d as int) > u64::MAX ==> r == Err::<u64, AmmError>(AmmError::ArithmeticOverflow),
{
    proof {
        assert((x as int) * (y as int) <= u128::MAX as int) by (nonlinear_arith)
            requires
                x <= u64::MAX,
                y <= u64::MAX;
    }
    let prod: u128 = (x as u128) * (y as u128);
    let q: u128 = prod / (d as u128);
    checked_as_u64(q)
}

} // verus!
