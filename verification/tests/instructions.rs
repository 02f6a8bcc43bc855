use aex402_sdk::constants::disc;
use aex402_sdk::instruction::{
    add_liquidity, cancel_auth_transfer, claim_farm, commit_amp, complete_auth_transfer,
    create_pool, get_twap, init_auth_transfer, init_lp_mint, init_t0_vault, init_t1_vault,
    ramp_amp, remove_liquidity, set_pause, stake_lp, stop_ramp, swap, swap_t0_t1, swap_t1_t0,
    unstake_lp, update_fee, AccountMeta, Instruction,
};
use aex402_sdk::{Pubkey, TwapWindow, PROGRAM_ID, SYSTEM_PROGRAM_ID, TOKEN_2022_PROGRAM_ID, TOKEN_PROGRAM_ID};

fn key(n: u8) -> Pubkey {
    [n; 32]
}

fn w(n: u8) -> AccountMeta {
    AccountMeta { pubkey: key(n), is_signer: false, is_writable: true }
}

fn r(n: u8) -> AccountMeta {
    AccountMeta { pubkey: key(n), is_signer: false, is_writable: false }
}

fn signer(n: u8) -> AccountMeta {
    AccountMeta { pubkey: key(n), is_signer: true, is_writable: false }
}

fn program(k: Pubkey) -> AccountMeta {
    AccountMeta { pubkey: k, is_signer: false, is_writable: false }
}

fn check(ix: &Instruction, accounts: Vec<AccountMeta>, data: Vec<u8>) {
    assert_eq!(ix.program_id, PROGRAM_ID);
    assert_eq!(ix.accounts, accounts);
    assert_eq!(ix.data, data);
}

fn bytes(disc: u64, rest: &[u8]) -> Vec<u8> {
    let mut v = disc.to_le_bytes().to_vec();
    v.extend_from_slice(rest);
    v
}

fn cat(parts: &[&[u8]]) -> Vec<u8> {
    let mut v = Vec::new();
    for p in parts {
        v.extend_from_slice(p);
    }
    v
}

#[test]
fn account_meta_constructors() {
    assert_eq!(
        AccountMeta::new(key(9), true),
        AccountMeta { pubkey: key(9), is_signer: true, is_writable: true }
    );
    assert_eq!(AccountMeta::new(key(9), false), w(9));
    assert_eq!(AccountMeta::new_readonly(key(9), true), signer(9));
    assert_eq!(AccountMeta::new_readonly(key(9), false), r(9));
}

#[test]
fn create_pool_layout() {
    let ix = create_pool(&key(1), &key(2), &key(3), &key(4), 1000, 254);
    let authority = AccountMeta { pubkey: key(4), is_signer: true, is_writable: true };
    check(
        &ix,
        vec![w(1), r(2), r(3), authority, program(SYSTEM_PROGRAM_ID)],
        cat(&[&disc::CREATEPOOL.to_le_bytes(), &1000u64.to_le_bytes(), &[254]]),
    );
    assert_eq!(ix.data.len(), 17);
    assert_eq!(
        ix.data,
        vec![0xf9, 0xe3, 0xa7, 0xc8, 0xd1, 0xe4, 0xb9, 0xf2, 0xe8, 0x03, 0, 0, 0, 0, 0, 0, 254]
    );
}

#[test]
fn init_vault_and_mint_layout() {
    let accounts = vec![w(1), r(2), signer(3), program(SYSTEM_PROGRAM_ID)];
    check(&init_t0_vault(&key(1), &key(2), &key(3)), accounts.clone(), bytes(disc::INITT0V, &[]));
    check(&init_t1_vault(&key(1), &key(2), &key(3)), accounts.clone(), bytes(disc::INITT1V, &[]));
    check(&init_lp_mint(&key(1), &key(2), &key(3)), accounts, bytes(disc::INITLPM, &[]));
}

#[test]
fn swap_layout() {
    let ix = swap(&key(1), &key(2), &key(3), &key(4), &key(5), &key(6), 0, 1, 1_000_000, 990_000, -7, None);
    check(
        &ix,
        vec![w(1), w(2), w(3), w(4), w(5), signer(6), program(TOKEN_PROGRAM_ID)],
        cat(&[
            &disc::SWAP.to_le_bytes(),
            &[0, 1],
            &1_000_000u64.to_le_bytes(),
            &990_000u64.to_le_bytes(),
            &(-7i64).to_le_bytes(),
        ]),
    );
    assert_eq!(ix.data.len(), 34);
    assert_eq!(&ix.data[26..], &[0xf9, 0xff, 0xff, 0xff, 0xff, 0xff, 0xff, 0xff]);
}

#[test]
fn swap_deadline_extremes() {
    for deadline in [i64::MIN, -1, 0, 1, 1_700_000_000, i64::MAX] {
        let ix = swap(&key(1), &key(2), &key(3), &key(4), &key(5), &key(6), 1, 0, 5, 4, deadline, None);
        assert_eq!(&ix.data[26..], &deadline.to_le_bytes());
    }
}

#[test]
fn swap_directions_layout() {
    let accounts = vec![w(1), w(2), w(3), w(4), w(5), signer(6), program(TOKEN_2022_PROGRAM_ID)];
    let args = cat(&[&1_000_000u64.to_le_bytes(), &990_000u64.to_le_bytes()]);
    let tp = TOKEN_2022_PROGRAM_ID;
    let ix = swap_t0_t1(&key(1), &key(2), &key(3), &key(4), &key(5), &key(6), 1_000_000, 990_000, Some(&tp));
    check(&ix, accounts.clone(), bytes(disc::SWAPT0T1, &args));
    assert_eq!(ix.data.len(), 24);
    let ix = swap_t1_t0(&key(1), &key(2), &key(3), &key(4), &key(5), &key(6), 1_000_000, 990_000, Some(&tp));
    check(&ix, accounts, bytes(disc::SWAPT1T0, &args));
}

#[test]
fn token_program_defaults() {
    let ix = swap_t0_t1(&key(1), &key(2), &key(3), &key(4), &key(5), &key(6), 1, 1, None);
    assert_eq!(ix.accounts[6], program(TOKEN_PROGRAM_ID));
    let custom = key(77);
    let ix = swap_t0_t1(&key(1), &key(2), &key(3), &key(4), &key(5), &key(6), 1, 1, Some(&custom));
    assert_eq!(ix.accounts[6], r(77));
}

#[test]
fn liquidity_layout() {
    let accounts =
        vec![w(1), w(2), w(3), w(4), w(5), w(6), w(7), signer(8), program(TOKEN_PROGRAM_ID)];
    let args = cat(&[&11u64.to_le_bytes(), &22u64.to_le_bytes(), &u64::MAX.to_le_bytes()]);
    let ix = add_liquidity(
        &key(1), &key(2), &key(3), &key(4), &key(5), &key(6), &key(7), &key(8), 11, 22, u64::MAX,
        None,
    );
    check(&ix, accounts.clone(), bytes(disc::ADDLIQ, &args));
    assert_eq!(ix.data.len(), 32);
    let ix = remove_liquidity(
        &key(1), &key(2), &key(3), &key(4), &key(5), &key(6), &key(7), &key(8), 11, 22, u64::MAX,
        None,
    );
    check(&ix, accounts, bytes(disc::REMLIQ, &args));
}

#[test]
fn admin_layout() {
    let accounts = vec![w(1), signer(2)];
    check(&set_pause(&key(1), &key(2), true), accounts.clone(), bytes(disc::SETPAUSE, &[1]));
    check(&set_pause(&key(1), &key(2), false), accounts.clone(), bytes(disc::SETPAUSE, &[0]));
    check(
        &update_fee(&key(1), &key(2), 30),
        accounts.clone(),
        bytes(disc::UPDFEE, &30u64.to_le_bytes()),
    );
    check(
        &commit_amp(&key(1), &key(2), 500),
        accounts.clone(),
        bytes(disc::COMMITAMP, &500u64.to_le_bytes()),
    );
    check(
        &ramp_amp(&key(1), &key(2), 500, 86_400),
        accounts.clone(),
        bytes(disc::RAMPAMP, &cat(&[&500u64.to_le_bytes(), &86_400i64.to_le_bytes()])),
    );
    check(
        &ramp_amp(&key(1), &key(2), 500, -1),
        accounts.clone(),
        bytes(disc::RAMPAMP, &cat(&[&500u64.to_le_bytes(), &[0xff; 8]])),
    );
    check(&stop_ramp(&key(1), &key(2)), accounts.clone(), bytes(disc::STOPRAMP, &[]));
    check(&cancel_auth_transfer(&key(1), &key(2)), accounts, bytes(disc::CANCELAUTH, &[]));
}

#[test]
fn authority_transfer_layout() {
    check(
        &init_auth_transfer(&key(1), &key(2), &key(3)),
        vec![w(1), signer(2), r(3)],
        bytes(disc::INITAUTH, &[]),
    );
    check(
        &complete_auth_transfer(&key(1), &key(3)),
        vec![w(1), signer(3)],
        bytes(disc::COMPLAUTH, &[]),
    );
}

#[test]
fn farming_layout() {
    let accounts = vec![w(1), w(2), w(3), w(4), signer(5), program(TOKEN_PROGRAM_ID)];
    check(
        &stake_lp(&key(1), &key(2), &key(3), &key(4), &key(5), 123, None),
        accounts.clone(),
        bytes(disc::STAKELP, &123u64.to_le_bytes()),
    );
    check(
        &unstake_lp(&key(1), &key(2), &key(3), &key(4), &key(5), 123, None),
        accounts,
        bytes(disc::UNSTAKELP, &123u64.to_le_bytes()),
    );
    check(
        &claim_farm(&key(1), &key(2), &key(3), &key(4), &key(5), &key(6), None),
        vec![w(1), w(2), r(3), w(4), w(5), signer(6), program(TOKEN_PROGRAM_ID)],
        bytes(disc::CLAIMFARM, &[]),
    );
}

#[test]
fn oracle_layout() {
    check(&get_twap(&key(1), TwapWindow::Hour1), vec![r(1)], bytes(disc::GETTWAP, &[0]));
    check(&get_twap(&key(1), TwapWindow::Hour4), vec![r(1)], bytes(disc::GETTWAP, &[1]));
    check(&get_twap(&key(1), TwapWindow::Hour24), vec![r(1)], bytes(disc::GETTWAP, &[2]));
    check(&get_twap(&key(1), TwapWindow::Day7), vec![r(1)], bytes(disc::GETTWAP, &[3]));
}

#[test]
fn discriminator_values() {
    assert_eq!(disc::CREATEPOOL, 0xf2b9e4d1c8a7e3f9);
    assert_eq!(disc::SWAP, 0x82c69e91e17587c8);
    assert_eq!(disc::SWAPT0T1, 0x642af2b7e0f14e2a);
    assert_eq!(disc::ADDLIQ, 0xa2e7c4f8b3d1e5a9);
    assert_eq!(disc::REMLIQ, 0x2e54bc2c75c9f902);
    assert_eq!(disc::GETTWAP, 0x7477617067657401);
    assert_eq!(disc::TH_INIT, 0xebeb58a7310d222b);
}
