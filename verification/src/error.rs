//! Error kinds shared by all calculators.

use vstd::prelude::*;

verus! {

/// Why a quote could not be produced.
#[derive(Clone, Copy, Debug, PartialEq, Eq, Structural)]
pub enum AmmError {
    /// Malformed caller input: both or neither amount specified, or a zero
    /// withdrawal.
    InvalidIntent,
    /// The operation is undefined against a pool with a zero reserve.
    EmptyPool,
    /// A computed quantity does not fit the unsigned 64-bit domain.
    ArithmeticOverflow,
    /// A referenced account is not a valid token account or mint.
    AccountReadError,
}

} // verus!
