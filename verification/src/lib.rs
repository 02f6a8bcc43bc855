//! Off-chain pricing for a two-asset StableSwap pool, with the accounts and
//! instructions of the program that settles its trades.
//!
//! The crate computes, in unsigned fixed-width integers only, what the pool's
//! settlement logic computes: the curve invariant, the balance that restores
//! it after a trade, swap quotes with fees, liquidity-token amounts, and the
//! amplification coefficient during a ramp. Every executable function carries
//! a contract over the mathematical definitions in [`math::curve`]; what holds
//! beyond the contracts is proved in [`math::laws`].
pub mod constants;
pub mod error;
pub mod instruction;
pub mod math;
pub mod pubkey;
pub mod state;

pub use constants::{
    TwapWindow, ADMIN_FEE_PCT, COMMIT_DELAY, DEFAULT_FEE_BPS, MAX_AMP, MAX_TOKENS,
    MIGRATION_FEE_BPS, MIN_AMP, MIN_DEPOSIT, MIN_SWAP, NEWTON_ITERATIONS, NPOOL_SIZE, OHLCV_24H,
    OHLCV_7D, POOL_SIZE, PROGRAM_ID, RAMP_MIN_DURATION, SYSTEM_PROGRAM_ID, TOKEN_2022_PROGRAM_ID,
    TOKEN_PROGRAM_ID,
};
pub use error::{AeX402Error, StableSwapError};
pub use math::curve::MathError;
pub use pubkey::Pubkey;
