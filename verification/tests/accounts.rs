use aex402_sdk::constants::account_disc;
use aex402_sdk::state::{Candle, Farm, Lottery, LotteryEntry, NPool, Pool, TwapResult, UserFarm};

fn pool_with(disc: [u8; 8], paused: u8) -> Pool {
    Pool {
        disc,
        bump: 254,
        paused,
        _padding: [0; 6],
        authority: [1; 32],
        pending_auth: [0; 32],
        auth_time: 0,
        mint0: [2; 32],
        mint1: [3; 32],
        vault0: [4; 32],
        vault1: [5; 32],
        lp_mint: [6; 32],
        bal0: 1_000_000,
        bal1: 1_000_000,
        lp_supply: 1_000_000,
        amp: 100,
        target_amp: 500,
        ramp_start: 1000,
        ramp_end: 2000,
        pending_amp: 0,
        commit_time: 0,
        fee_bps: 30,
        admin_fee0: 0,
        admin_fee1: 0,
        total_swaps: 0,
        total_volume: 0,
        last_slot: 0,
        hourly_idx: 0,
        daily_idx: 0,
        _padding2: [0; 6],
        hourly_candles: [Candle::default(); 24],
        daily_candles: [Candle::default(); 7],
        trade_count: 0,
        trade_sum: 0,
        max_price: 0,
        min_price: 0,
        bloom: [0; 128],
    }
}

fn entry(disc: [u8; 8], ticket_start: u64, ticket_count: u64) -> LotteryEntry {
    LotteryEntry {
        disc,
        bump: 1,
        claimed: 0,
        _padding: [0; 6],
        owner: [1; 32],
        lottery: [2; 32],
        ticket_start,
        ticket_count,
    }
}

#[test]
fn candle_high_low_close() {
    let c = Candle { open: 1_000_000, high_d: 500, low_d: 300, close_d: -200, volume: 7 };
    assert_eq!(c.high(), 1_000_500);
    assert_eq!(c.low(), 999_700);
    assert_eq!(c.close(), 999_800);
}

#[test]
fn candle_saturates() {
    let c = Candle { open: u32::MAX - 1, high_d: 500, low_d: 0, close_d: 0, volume: 0 };
    assert_eq!(c.high(), u32::MAX);
    let c = Candle { open: 100, high_d: 0, low_d: 300, close_d: -300, volume: 0 };
    assert_eq!(c.low(), 0);
    assert_eq!(c.close(), -200);
}

#[test]
fn candle_close_at_the_bounds() {
    let c = Candle { open: i32::MAX as u32, high_d: 0, low_d: 0, close_d: 0, volume: 0 };
    assert_eq!(c.close(), i32::MAX);
    let c = Candle { open: 0, high_d: 0, low_d: 0, close_d: i16::MIN, volume: 0 };
    assert_eq!(c.close(), -32768);
    let c =
        Candle { open: i32::MAX as u32 + 10, high_d: 0, low_d: 0, close_d: -10, volume: 0 };
    assert_eq!(c.close(), i32::MAX);
}

#[test]
fn candle_default_is_zero() {
    let c = Candle::default();
    assert_eq!((c.open, c.high_d, c.low_d, c.close_d, c.volume), (0, 0, 0, 0, 0));
}

#[test]
fn pool_validity_and_pause() {
    let p = pool_with(*b"POOLSWAP", 0);
    assert!(p.is_valid());
    assert!(!p.is_paused());
    let p = pool_with(*b"NPOOLSWA", 1);
    assert!(!p.is_valid());
    assert!(p.is_paused());
    let p = pool_with(*b"POOLSWAQ", 255);
    assert!(!p.is_valid());
    assert!(p.is_paused());
}

#[test]
fn pool_amp_follows_ramp() {
    let p = pool_with(account_disc::POOL, 0);
    assert_eq!(p.get_amp(1000), 100);
    assert_eq!(p.get_amp(1500), 300);
    assert_eq!(p.get_amp(2000), 500);
    assert_eq!(p.get_amp(1250), 200);
}

#[test]
fn npool_validity_and_pause() {
    let mut p = NPool {
        disc: *b"NPOOLSWA",
        bump: 1,
        paused: 0,
        n_tokens: 3,
        _padding: [0; 5],
        authority: [0; 32],
        pending_auth: [0; 32],
        auth_time: 0,
        mints: [[0; 32]; 8],
        vaults: [[0; 32]; 8],
        lp_mint: [0; 32],
        balances: [0; 8],
        lp_supply: 0,
        amp: 0,
        target_amp: 0,
        ramp_start: 0,
        ramp_end: 0,
        pending_amp: 0,
        commit_time: 0,
        fee_bps: 0,
        admin_fees: [0; 8],
        total_swaps: 0,
        total_volume: 0,
    };
    assert!(p.is_valid());
    assert!(!p.is_paused());
    p.paused = 2;
    p.disc = *b"POOLSWAP";
    assert!(!p.is_valid());
    assert!(p.is_paused());
}

#[test]
fn farm_validity() {
    let mut f = Farm {
        disc: *b"FARMSWAP",
        bump: 0,
        _padding: [0; 7],
        authority: [0; 32],
        pool: [0; 32],
        reward_mint: [0; 32],
        reward_vault: [0; 32],
        lp_vault: [0; 32],
        reward_rate: 0,
        start_time: 0,
        end_time: 0,
        last_update: 0,
        acc_reward: 0,
        total_staked: 0,
    };
    assert!(f.is_valid());
    f.disc = *b"UFARMSWA";
    assert!(!f.is_valid());
}

#[test]
fn user_farm_validity() {
    let mut f = UserFarm {
        disc: *b"UFARMSWA",
        bump: 0,
        _padding: [0; 7],
        owner: [0; 32],
        farm: [0; 32],
        staked: 0,
        reward_debt: 0,
        locked_amount: 0,
        unlock_time: 0,
    };
    assert!(f.is_valid());
    f.disc = *b"FARMSWAP";
    assert!(!f.is_valid());
}

#[test]
fn lottery_validity_and_draw() {
    let mut l = Lottery {
        disc: *b"LOTTERY!",
        bump: 0,
        drawn: 0,
        _padding: [0; 6],
        authority: [0; 32],
        pool: [0; 32],
        lp_vault: [0; 32],
        ticket_price: 0,
        total_tickets: 0,
        start_time: 0,
        end_time: 0,
        winner: [0; 32],
        winning_ticket: 0,
    };
    assert!(l.is_valid());
    assert!(!l.is_drawn());
    l.drawn = 1;
    l.disc = *b"LOTENTRY";
    assert!(!l.is_valid());
    assert!(l.is_drawn());
}

#[test]
fn lottery_entry_validity() {
    assert!(entry(*b"LOTENTRY", 0, 0).is_valid());
    assert!(!entry(*b"LOTTERY!", 0, 0).is_valid());
    assert!(!entry(*b"LOTENTRy", 0, 0).is_valid());
}

#[test]
fn lottery_entry_winner() {
    let e = entry(account_disc::LOTENTRY, 10, 5);
    assert!(!e.is_winner(9));
    assert!(e.is_winner(10));
    assert!(e.is_winner(14));
    assert!(!e.is_winner(15));
    assert!(!entry(account_disc::LOTENTRY, 10, 0).is_winner(10));
}

#[test]
fn lottery_entry_winner_near_the_top_of_the_type() {
    let e = entry(account_disc::LOTENTRY, u64::MAX - 1, 5);
    assert!(e.is_winner(u64::MAX));
    assert!(e.is_winner(u64::MAX - 1));
    assert!(!e.is_winner(u64::MAX - 2));
    assert!(!e.is_winner(0));
}

#[test]
fn account_discriminators() {
    assert_eq!(&account_disc::POOL, b"POOLSWAP");
    assert_eq!(&account_disc::NPOOL, b"NPOOLSWA");
    assert_eq!(&account_disc::FARM, b"FARMSWAP");
    assert_eq!(&account_disc::UFARM, b"UFARMSWA");
    assert_eq!(&account_disc::LOTTERY, b"LOTTERY!");
    assert_eq!(&account_disc::LOTENTRY, b"LOTENTRY");
    assert_eq!(&account_disc::REGISTRY, b"REGISTRY");
}

#[test]
fn twap_decode() {
    let r = TwapResult::decode(0x2710_0018_000F_4240);
    assert_eq!(r.price, 1_000_000);
    assert_eq!(r.samples, 24);
    assert_eq!(r.confidence, 10000);
}

#[test]
fn twap_decode_extremes() {
    let r = TwapResult::decode(0);
    assert_eq!((r.price, r.samples, r.confidence), (0, 0, 0));
    let r = TwapResult::decode(u64::MAX);
    assert_eq!((r.price, r.samples, r.confidence), (u32::MAX, u16::MAX, u16::MAX));
    let r = TwapResult::decode(0x0001_0002_0000_0003);
    assert_eq!((r.price, r.samples, r.confidence), (3, 2, 1));
}
