//! Verified quoting engine for a constant-product liquidity pool.
//!
//! Three calculators — deposit, withdrawal and swap — turn a snapshot of the
//! pool's reserves, its liquidity-token supply and the caller's intent into
//! the exact amounts to forward to the pool program.  Every ratio is computed
//! with integer multiply-before-divide arithmetic so that the result is
//! reproducible bit for bit, and every computed amount is either exactly
//! representable in 64 bits or reported as an overflow.

pub mod deposit;
pub mod error;
pub mod math;
pub mod reader;
pub mod swap;
pub mod withdrawal;

pub use deposit::estimate_lp_tokens_amount;
pub use deposit::get_pool_deposit_amounts;
pub use error::AmmError;
pub use math::checked_as_u64;
pub use reader::get_pool_token_balances;
pub use reader::get_token_balance;
pub use reader::get_token_supply;
pub use swap::get_pool_swap_amounts;
pub use withdrawal::get_pool_withdrawal_amounts;
