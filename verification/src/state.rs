//! The accounts of the pool program, as plain values, and what is read off
//! them.
use vstd::prelude::*;

use crate::constants::account_disc;
use crate::constants::{MAX_TOKENS, OHLCV_24H, OHLCV_7D};
use crate::math::curve::effective_amp;
use crate::math::get_current_amp;
use crate::pubkey::Pubkey;

verus! {

/// Whether two discriminators hold the same bytes.
fn same_disc(a: &[u8; 8], b: &[u8; 8]) -> (r: bool)
    ensures
        r == (a@ == b@),
{
    let mut i: usize = 0;
    while i < 8
        invariant
            i <= 8,
            forall|j: int| 0 <= j < i ==> a@[j] == b@[j],
        decreases 8 - i,
    {
        if a[i] != b[i] {
            return false;
        }
        i += 1;
    }
    assert(a@ =~= b@);
    true
}

/// A candle of open, high, low, close and volume, with the high, the low and
/// the close stored as differences from the opening price.
#[derive(Debug, Clone, Copy, Default)]
pub struct Candle {
    /// The opening price, scaled by `10^6`.
    pub open: u32,
    /// How far the high lies above the open.
    pub high_d: u16,
    /// How far the low lies below the open.
    pub low_d: u16,
    /// How far the close lies from the open, either way.
    pub close_d: i16,
    /// The volume, in units of `10^9`.
    pub volume: u16,
}

impl Candle {
    /// The highest price: the open plus its difference, held at the top of
    /// the type.
    pub open spec fn high_of(&self) -> int {
        if self.open + self.high_d > u32::MAX {
            u32::MAX as int
        } else {
            self.open + self.high_d
        }
    }

    /// The lowest price: the open less its difference, held at zero.
    pub open spec fn low_of(&self) -> int {
        if self.open < self.low_d {
            0
        } else {
            self.open - self.low_d
        }
    }

    /// The closing price.
    pub open spec fn close_of(&self) -> int {
        self.open + self.close_d
    }

    /// Returns the highest price.
    pub fn high(&self) -> (r: u32)
        ensures
            r == self.high_of(),
            r >= self.open,
    {
        self.open.saturating_add(self.high_d as u32)
    }

    /// Returns the lowest price.
    pub fn low(&self) -> (r: u32)
        ensures
            r == self.low_of(),
            r <= self.open,
    {
        self.open.saturating_sub(self.low_d as u32)
    }

    /// Returns the closing price, which has to fit the signed type: the open
    /// and its difference may not add up past `i32::MAX`.
    pub fn close(&self) -> (r: i32)
        requires
            self.close_of() <= i32::MAX,
        ensures
            r == self.close_of(),
    {
        (self.open as i64 + self.close_d as i64) as i32
    }
}

/// The state of a pool of two tokens.
#[derive(Debug, Clone)]
pub struct Pool {
    pub disc: [u8; 8],
    pub bump: u8,
    pub paused: u8,
    pub _padding: [u8; 6],
    pub authority: Pubkey,
    pub pending_auth: Pubkey,
    pub auth_time: i64,
    pub mint0: Pubkey,
    pub mint1: Pubkey,
    pub vault0: Pubkey,
    pub vault1: Pubkey,
    pub lp_mint: Pubkey,
    pub bal0: u64,
    pub bal1: u64,
    pub lp_supply: u64,
    pub amp: u64,
    pub target_amp: u64,
    pub ramp_start: i64,
    pub ramp_end: i64,
    pub pending_amp: u64,
    pub commit_time: i64,
    pub fee_bps: u64,
    pub admin_fee0: u64,
    pub admin_fee1: u64,
    pub total_swaps: u64,
    pub total_volume: u64,
    pub last_slot: u64,
    pub hourly_idx: u8,
    pub daily_idx: u8,
    pub _padding2: [u8; 6],
    pub hourly_candles: [Candle; OHLCV_24H],
    pub daily_candles: [Candle; OHLCV_7D],
    pub trade_count: u32,
    pub trade_sum: u64,
    pub max_price: u32,
    pub min_price: u32,
    pub bloom: [u8; 128],
}

impl Pool {
    /// Whether the account opens with the discriminator of a pool.
    pub fn is_valid(&self) -> (r: bool)
        ensures
            r == (self.disc@ == account_disc::POOL@),
    {
        same_disc(&self.disc, &account_disc::POOL)
    }

    /// Whether trading is paused.
    pub fn is_paused(&self) -> (r: bool)
        ensures
            r == (self.paused != 0),
    {
        self.paused != 0
    }

    /// Returns the amplification coefficient in force at `now`, on the ramp
    /// that the pool records.
    pub fn get_amp(&self, now: i64) -> (r: u64)
        ensures
            r == effective_amp(self.amp, self.target_amp, self.ramp_start, self.ramp_end, now),
    {
        get_current_amp(self.amp, self.target_amp, self.ramp_start, self.ramp_end, now)
    }
}

/// The state of a pool of up to [`MAX_TOKENS`] tokens.
#[derive(Debug, Clone)]
pub struct NPool {
    pub disc: [u8; 8],
    pub bump: u8,
    pub paused: u8,
    pub n_tokens: u8,
    pub _padding: [u8; 5],
    pub authority: Pubkey,
    pub pending_auth: Pubkey,
    pub auth_time: i64,
    pub mints: [Pubkey; MAX_TOKENS],
    pub vaults: [Pubkey; MAX_TOKENS],
    pub lp_mint: Pubkey,
    pub balances: [u64; MAX_TOKENS],
    pub lp_supply: u64,
    pub amp: u64,
    pub target_amp: u64,
    pub ramp_start: i64,
    pub ramp_end: i64,
    pub pending_amp: u64,
    pub commit_time: i64,
    pub fee_bps: u64,
    pub admin_fees: [u64; MAX_TOKENS],
    pub total_swaps: u64,
    pub total_volume: u64,
}

impl NPool {
    /// Whether the account opens with the discriminator of a pool of many
    /// tokens.
    pub fn is_valid(&self) -> (r: bool)
        ensures
            r == (self.disc@ == account_disc::NPOOL@),
    {
        same_disc(&self.disc, &account_disc::NPOOL)
    }

    /// Whether trading is paused.
    pub fn is_paused(&self) -> (r: bool)
        ensures
            r == (self.paused != 0),
    {
        self.paused != 0
    }
}

/// The state of a farm.
#[derive(Debug, Clone)]
pub struct Farm {
    pub disc: [u8; 8],
    pub bump: u8,
    pub _padding: [u8; 7],
    pub authority: Pubkey,
    pub pool: Pubkey,
    pub reward_mint: Pubkey,
    pub reward_vault: Pubkey,
    pub lp_vault: Pubkey,
    pub reward_rate: u64,
    pub start_time: i64,
    pub end_time: i64,
    pub last_update: i64,
    /// The reward accrued per staked token, scaled by `10^12`.
    pub acc_reward: u128,
    pub total_staked: u64,
}

impl Farm {
    /// Whether the account opens with the discriminator of a farm.
    pub fn is_valid(&self) -> (r: bool)
        ensures
            r == (self.disc@ == account_disc::FARM@),
    {
        same_disc(&self.disc, &account_disc::FARM)
    }
}

/// A user's position in a farm.
#[derive(Debug, Clone)]
pub struct UserFarm {
    pub disc: [u8; 8],
    pub bump: u8,
    pub _padding: [u8; 7],
    pub owner: Pubkey,
    pub farm: Pubkey,
    pub staked: u64,
    pub reward_debt: u128,
    pub locked_amount: u64,
    pub unlock_time: i64,
}

impl UserFarm {
    /// Whether the account opens with the discriminator of a position in a
    /// farm.
    pub fn is_valid(&self) -> (r: bool)
        ensures
            r == (self.disc@ == account_disc::UFARM@),
    {
        same_disc(&self.disc, &account_disc::UFARM)
    }
}

/// The state of a lottery.
#[derive(Debug, Clone)]
pub struct Lottery {
    pub disc: [u8; 8],
    pub bump: u8,
    pub drawn: u8,
    pub _padding: [u8; 6],
    pub authority: Pubkey,
    pub pool: Pubkey,
    pub lp_vault: Pubkey,
    pub ticket_price: u64,
    pub total_tickets: u64,
    pub start_time: i64,
    pub end_time: i64,
    pub winner: Pubkey,
    pub winning_ticket: u64,
}

impl Lottery {
    /// Whether the account opens with the discriminator of a lottery.
    pub fn is_valid(&self) -> (r: bool)
        ensures
            r == (self.disc@ == account_disc::LOTTERY@),
    {
        same_disc(&self.disc, &account_disc::LOTTERY)
    }

    /// Whether the winner has been drawn.
    pub fn is_drawn(&self) -> (r: bool)
        ensures
            r == (self.drawn != 0),
    {
        self.drawn != 0
    }
}

/// An entry in a lottery: a run of tickets.
#[derive(Debug, Clone)]
pub struct LotteryEntry {
    pub disc: [u8; 8],
    pub bump: u8,
    pub claimed: u8,
    pub _padding: [u8; 6],
    pub owner: Pubkey,
    pub lottery: Pubkey,
    pub ticket_start: u64,
    pub ticket_count: u64,
}

impl LotteryEntry {
    /// Whether the account opens with the discriminator of an entry.
    pub fn is_valid(&self) -> (r: bool)
        ensures
            r == (self.disc@ == account_disc::LOTENTRY@),
    {
        same_disc(&self.disc, &account_disc::LOTENTRY)
    }

    /// Whether the winning ticket lies in the entry's run, which starts at
    /// `ticket_start` and holds `ticket_count` tickets.
    pub fn is_winner(&self, winning_ticket: u64) -> (r: bool)
        ensures
            r == (self.ticket_start <= winning_ticket < self.ticket_start + self.ticket_count),
    {
        winning_ticket >= self.ticket_start && winning_ticket - self.ticket_start
            < self.ticket_count
    }
}

/// A time-weighted average price, as the oracle returns it.
#[derive(Debug, Clone, Copy)]
pub struct TwapResult {
    /// The price, scaled by `10^6`.
    pub price: u32,
    /// The number of candles that went into it.
    pub samples: u16,
    /// The confidence, from 0 to 10000 hundredths of a percent.
    pub confidence: u16,
}

impl TwapResult {
    /// The value in which the oracle packs the result: the price in the low
    /// thirty-two bits, then the samples and the confidence in sixteen bits
    /// each.
    pub open spec fn encoded(&self) -> int {
        self.price + self.samples * 0x1_0000_0000 + self.confidence * 0x1_0000_0000_0000
    }

    /// Unpacks a result from the value that the oracle returns.
    pub fn decode(encoded: u64) -> (r: Self)
        ensures
            r.price == encoded % 0x1_0000_0000,
            r.samples == (encoded / 0x1_0000_0000) % 0x1_0000,
            r.confidence == encoded / 0x1_0000_0000_0000,
            r.encoded() == encoded,
    {
        assert(encoded & 0xFFFFFFFF == encoded % 0x1_0000_0000) by (bit_vector);
        assert((encoded >> 32) & 0xFFFF == (encoded / 0x1_0000_0000) % 0x1_0000) by (bit_vector);
        assert((encoded >> 48) & 0xFFFF == encoded / 0x1_0000_0000_0000) by (bit_vector);
        TwapResult {
            price: (encoded & 0xFFFFFFFF) as u32,
            samples: ((encoded >> 32) & 0xFFFF) as u16,
            confidence: ((encoded >> 48) & 0xFFFF) as u16,
        }
    }
}

} // verus!
