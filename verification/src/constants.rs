//! Program addresses, pool parameters and discriminators.
use vstd::prelude::*;

pub mod account_disc;
pub mod disc;

use crate::pubkey::Pubkey;

verus! {

/// The address of the pool program.
pub const PROGRAM_ID: Pubkey = [
    32, 28, 155, 65, 31, 4, 196, 101, 155, 48, 199, 207, 164, 63, 151, 131, 72, 30, 240, 16,
    170, 240, 145, 176, 53, 207, 60, 226, 18, 242, 64, 129,
];

/// The address of the token program.
pub const TOKEN_PROGRAM_ID: Pubkey = [
    6, 221, 246, 225, 215, 101, 161, 147, 217, 203, 225, 70, 206, 235, 121, 172, 28, 180, 133,
    237, 95, 91, 55, 145, 58, 140, 245, 133, 126, 255, 0, 169,
];

/// The address of the token program with extensions.
pub const TOKEN_2022_PROGRAM_ID: Pubkey = [
    6, 221, 246, 225, 238, 117, 143, 222, 24, 66, 93, 188, 228, 108, 205, 218, 182, 26, 252,
    77, 131, 185, 13, 39, 254, 189, 249, 40, 216, 161, 139, 252,
];

/// The address of the system program: thirty-two zero bytes.
pub const SYSTEM_PROGRAM_ID: Pubkey = [
    0, 0, 0, 0, 0, 0, 0, 0, 0, 0, 0, 0, 0, 0, 0, 0, 0, 0, 0, 0, 0, 0, 0, 0, 0, 0, 0, 0, 0, 0,
    0, 0,
];

pub const MIN_AMP: u64 = 1;

pub const MAX_AMP: u64 = 100_000;

pub const DEFAULT_FEE_BPS: u64 = 30;

pub const ADMIN_FEE_PCT: u64 = 50;

pub const MIN_SWAP: u64 = 100_000;

pub const MIN_DEPOSIT: u64 = 100_000_000;

/// The ceiling on the Newton steps that either solver takes.
pub const NEWTON_ITERATIONS: u8 = 255;

/// The shortest ramp, in seconds: one day.
pub const RAMP_MIN_DURATION: i64 = 86_400;

/// The delay between committing an amplification and ramping to it, in
/// seconds: one hour.
pub const COMMIT_DELAY: i64 = 3_600;

pub const MIGRATION_FEE_BPS: u64 = 1337;

pub const MAX_TOKENS: usize = 8;

pub const POOL_SIZE: usize = 1024;

pub const NPOOL_SIZE: usize = 2048;

pub const OHLCV_24H: usize = 24;

pub const OHLCV_7D: usize = 7;

/// The window over which a time-weighted average price is taken.
#[derive(Debug, Clone, Copy, PartialEq, Eq, Structural)]
pub enum TwapWindow {
    Hour1,
    Hour4,
    Hour24,
    Day7,
}

impl TwapWindow {
    /// The byte that stands for the window in an instruction.
    pub open spec fn code(self) -> u8 {
        match self {
            TwapWindow::Hour1 => 0,
            TwapWindow::Hour4 => 1,
            TwapWindow::Hour24 => 2,
            TwapWindow::Day7 => 3,
        }
    }

    /// Returns the byte that stands for the window in an instruction.
    pub fn to_u8(self) -> (b: u8)
        ensures
            b == self.code(),
    {
        match self {
            TwapWindow::Hour1 => 0,
            TwapWindow::Hour4 => 1,
            TwapWindow::Hour24 => 2,
            TwapWindow::Day7 => 3,
        }
    }
}

} // verus!
