//! Builders for the instructions of the pool program.
//!
//! An instruction is modelled by plain values: the program's address, the
//! accounts it touches, and its data. The data opens with the instruction's
//! discriminator and goes on with its arguments in the order given, every
//! integer little-endian.
use vstd::bytes::{lemma_auto_spec_u64_to_from_le_bytes, spec_u64_to_le_bytes, u64_to_le_bytes};
use vstd::prelude::*;

use crate::constants::disc;
use crate::constants::{TwapWindow, PROGRAM_ID, SYSTEM_PROGRAM_ID, TOKEN_PROGRAM_ID};
use crate::pubkey::Pubkey;

verus! {

/// An account that an instruction touches, and how.
#[derive(Debug, Clone, Copy, PartialEq, Eq)]
pub struct AccountMeta {
    /// The address of the account.
    pub pubkey: Pubkey,
    /// Whether the account has to sign the transaction.
    pub is_signer: bool,
    /// Whether the instruction may write to the account.
    pub is_writable: bool,
}

/// An account that the instruction may write to.
pub open spec fn writable(pubkey: Pubkey, is_signer: bool) -> AccountMeta {
    AccountMeta { pubkey, is_signer, is_writable: true }
}

/// An account that the instruction only reads.
pub open spec fn readonly(pubkey: Pubkey, is_signer: bool) -> AccountMeta {
    AccountMeta { pubkey, is_signer, is_writable: false }
}

impl AccountMeta {
    /// Makes the entry of an account that the instruction may write to.
    pub fn new(pubkey: Pubkey, is_signer: bool) -> (m: Self)
        ensures
            m == writable(pubkey, is_signer),
    {
        AccountMeta { pubkey, is_signer, is_writable: true }
    }

    /// Makes the entry of an account that the instruction only reads.
    pub fn new_readonly(pubkey: Pubkey, is_signer: bool) -> (m: Self)
        ensures
            m == readonly(pubkey, is_signer),
    {
        AccountMeta { pubkey, is_signer, is_writable: false }
    }
}

/// An instruction to a program.
#[derive(Debug, Clone, PartialEq, Eq)]
pub struct Instruction {
    /// The address of the program that runs the instruction.
    pub program_id: Pubkey,
    /// The accounts that the instruction touches, in the order in which the
    /// program expects them.
    pub accounts: Vec<AccountMeta>,
    /// The bytes handed to the program.
    pub data: Vec<u8>,
}

/// The token program that an instruction names: the one given, else
/// [`TOKEN_PROGRAM_ID`].
pub open spec fn token_program_or_default(token_program: Option<&Pubkey>) -> Pubkey {
    match token_program {
        Some(p) => *p,
        None => TOKEN_PROGRAM_ID,
    }
}

fn token_program_or_default_of(token_program: Option<&Pubkey>) -> (p: Pubkey)
    ensures
        p == token_program_or_default(token_program),
{
    match token_program {
        Some(p) => *p,
        None => TOKEN_PROGRAM_ID,
    }
}

/// A 64-bit integer is written in eight bytes.
pub broadcast proof fn lemma_u64_le_len(v: u64)
    ensures
        #[trigger] spec_u64_to_le_bytes(v).len() == 8,
{
    lemma_auto_spec_u64_to_from_le_bytes();
}

/// Appends one byte.
fn write_u8(buf: &mut Vec<u8>, v: u8)
    ensures
        final(buf)@ == old(buf)@ + seq![v],
{
    buf.push(v);
    assert(buf@ =~= old(buf)@ + seq![v]);
}

/// Appends the eight bytes of `v`, the lowest first.
fn write_u64(buf: &mut Vec<u8>, v: u64)
    ensures
        final(buf)@ == old(buf)@ + spec_u64_to_le_bytes(v),
{
    let mut bytes: Vec<u8> = u64_to_le_bytes(v);
    buf.append(&mut bytes);
}

/// Appends the eight bytes of `v` in two's complement, the lowest first.
fn write_i64(buf: &mut Vec<u8>, v: i64)
    ensures
        final(buf)@ == old(buf)@ + spec_u64_to_le_bytes(v as u64),
{
    write_u64(buf, v as u64);
}

/// Builds the instruction that creates a pool of `mint0` and `mint1` with the
/// amplification `amp`.
pub fn create_pool(
    pool: &Pubkey,
    mint0: &Pubkey,
    mint1: &Pubkey,
    authority: &Pubkey,
    amp: u64,
    bump: u8,
) -> (ix: Instruction)
    ensures
        ix.program_id == PROGRAM_ID,
        ix.accounts@ == seq![
            writable(*pool, false),
            readonly(*mint0, false),
            readonly(*mint1, false),
            writable(*authority, true),
            readonly(SYSTEM_PROGRAM_ID, false),
        ],
        ix.data@ == spec_u64_to_le_bytes(disc::CREATEPOOL)
            + spec_u64_to_le_bytes(amp)
            + seq![bump],
        ix.data@.len() == 17,
{
    broadcast use lemma_u64_le_len;
    let mut data: Vec<u8> = Vec::with_capacity(17);
    write_u64(&mut data, disc::CREATEPOOL);
    write_u64(&mut data, amp);
    write_u8(&mut data, bump);
    let accounts: Vec<AccountMeta> = vec![
        AccountMeta::new(*pool, false),
        AccountMeta::new_readonly(*mint0, false),
        AccountMeta::new_readonly(*mint1, false),
        AccountMeta::new(*authority, true),
        AccountMeta::new_readonly(SYSTEM_PROGRAM_ID, false),
    ];
    Instruction { program_id: PROGRAM_ID, accounts, data }
}

/// Builds the instruction that initialises the vault of the first token.
pub fn init_t0_vault(pool: &Pubkey, vault: &Pubkey, authority: &Pubkey) -> (ix: Instruction)
    ensures
        ix.program_id == PROGRAM_ID,
        ix.accounts@ == seq![
            writable(*pool, false),
            readonly(*vault, false),
            readonly(*authority, true),
            readonly(SYSTEM_PROGRAM_ID, false),
        ],
        ix.data@ == spec_u64_to_le_bytes(disc::INITT0V),
        ix.data@.len() == 8,
{
    broadcast use lemma_u64_le_len;
    let mut data: Vec<u8> = Vec::with_capacity(8);
    write_u64(&mut data, disc::INITT0V);
    let accounts: Vec<AccountMeta> = vec![
        AccountMeta::new(*pool, false),
        AccountMeta::new_readonly(*vault, false),
        AccountMeta::new_readonly(*authority, true),
        AccountMeta::new_readonly(SYSTEM_PROGRAM_ID, false),
    ];
    Instruction { program_id: PROGRAM_ID, accounts, data }
}

/// Builds the instruction that initialises the vault of the second token.
pub fn init_t1_vault(pool: &Pubkey, vault: &Pubkey, authority: &Pubkey) -> (ix: Instruction)
    ensures
        ix.program_id == PROGRAM_ID,
        ix.accounts@ == seq![
            writable(*pool, false),
            readonly(*vault, false),
            readonly(*authority, true),
            readonly(SYSTEM_PROGRAM_ID, false),
        ],
        ix.data@ == spec_u64_to_le_bytes(disc::INITT1V),
        ix.data@.len() == 8,
{
    broadcast use lemma_u64_le_len;
    let mut data: Vec<u8> = Vec::with_capacity(8);
    write_u64(&mut data, disc::INITT1V);
    let accounts: Vec<AccountMeta> = vec![
        AccountMeta::new(*pool, false),
        AccountMeta::new_readonly(*vault, false),
        AccountMeta::new_readonly(*authority, true),
        AccountMeta::new_readonly(SYSTEM_PROGRAM_ID, false),
    ];
    Instruction { program_id: PROGRAM_ID, accounts, data }
}

/// Builds the instruction that initialises the mint of the liquidity token.
pub fn init_lp_mint(pool: &Pubkey, lp_mint: &Pubkey, authority: &Pubkey) -> (ix: Instruction)
    ensures
        ix.program_id == PROGRAM_ID,
        ix.accounts@ == seq![
            writable(*pool, false),
            readonly(*lp_mint, false),
            readonly(*authority, true),
            readonly(SYSTEM_PROGRAM_ID, false),
        ],
        ix.data@ == spec_u64_to_le_bytes(disc::INITLPM),
        ix.data@.len() == 8,
{
    broadcast use lemma_u64_le_len;
    let mut data: Vec<u8> = Vec::with_capacity(8);
    write_u64(&mut data, disc::INITLPM);
    let accounts: Vec<AccountMeta> = vec![
        AccountMeta::new(*pool, false),
        AccountMeta::new_readonly(*lp_mint, false),
        AccountMeta::new_readonly(*authority, true),
        AccountMeta::new_readonly(SYSTEM_PROGRAM_ID, false),
    ];
    Instruction { program_id: PROGRAM_ID, accounts, data }
}

/// Builds the instruction that swaps `amount_in` of the token at index `from`
/// for at least `min_out` of the token at index `to`, no later than `deadline`.
pub fn swap(
    pool: &Pubkey,
    vault0: &Pubkey,
    vault1: &Pubkey,
    user_token0: &Pubkey,
    user_token1: &Pubkey,
    user: &Pubkey,
    from: u8,
    to: u8,
    amount_in: u64,
    min_out: u64,
    deadline: i64,
    token_program: Option<&Pubkey>,
) -> (ix: Instruction)
    ensures
        ix.program_id == PROGRAM_ID,
        ix.accounts@ == seq![
            writable(*pool, false),
            writable(*vault0, false),
            writable(*vault1, false),
            writable(*user_token0, false),
            writable(*user_token1, false),
            readonly(*user, true),
            readonly(token_program_or_default(token_program), false),
        ],
        ix.data@ == spec_u64_to_le_bytes(disc::SWAP)
            + seq![from]
            + seq![to]
            + spec_u64_to_le_bytes(amount_in)
            + spec_u64_to_le_bytes(min_out)
            + spec_u64_to_le_bytes(deadline as u64),
        ix.data@.len() == 34,
{
    broadcast use lemma_u64_le_len;
    let mut data: Vec<u8> = Vec::with_capacity(34);
    write_u64(&mut data, disc::SWAP);
    write_u8(&mut data, from);
    write_u8(&mut data, to);
    write_u64(&mut data, amount_in);
    write_u64(&mut data, min_out);
    write_i64(&mut data, deadline);
    let accounts: Vec<AccountMeta> = vec![
        AccountMeta::new(*pool, false),
        AccountMeta::new(*vault0, false),
        AccountMeta::new(*vault1, false),
        AccountMeta::new(*user_token0, false),
        AccountMeta::new(*user_token1, false),
        AccountMeta::new_readonly(*user, true),
        AccountMeta::new_readonly(token_program_or_default_of(token_program), false),
    ];
    Instruction { program_id: PROGRAM_ID, accounts, data }
}

/// Builds the instruction that swaps `amount_in` of the first token for at
/// least `min_out` of the second.
pub fn swap_t0_t1(
    pool: &Pubkey,
    vault0: &Pubkey,
    vault1: &Pubkey,
    user_token0: &Pubkey,
    user_token1: &Pubkey,
    user: &Pubkey,
    amount_in: u64,
    min_out: u64,
    token_program: Option<&Pubkey>,
) -> (ix: Instruction)
    ensures
        ix.program_id == PROGRAM_ID,
        ix.accounts@ == seq![
            writable(*pool, false),
            writable(*vault0, false),
            writable(*vault1, false),
            writable(*user_token0, false),
            writable(*user_token1, false),
            readonly(*user, true),
            readonly(token_program_or_default(token_program), false),
        ],
        ix.data@ == spec_u64_to_le_bytes(disc::SWAPT0T1)
            + spec_u64_to_le_bytes(amount_in)
            + spec_u64_to_le_bytes(min_out),
        ix.data@.len() == 24,
{
    broadcast use lemma_u64_le_len;
    let mut data: Vec<u8> = Vec::with_capacity(24);
    write_u64(&mut data, disc::SWAPT0T1);
    write_u64(&mut data, amount_in);
    write_u64(&mut data, min_out);
    let accounts: Vec<AccountMeta> = vec![
        AccountMeta::new(*pool, false),
        AccountMeta::new(*vault0, false),
        AccountMeta::new(*vault1, false),
        AccountMeta::new(*user_token0, false),
        AccountMeta::new(*user_token1, false),
        AccountMeta::new_readonly(*user, true),
        AccountMeta::new_readonly(token_program_or_default_of(token_program), false),
    ];
    Instruction { program_id: PROGRAM_ID, accounts, data }
}

/// Builds the instruction that swaps `amount_in` of the second token for at
/// least `min_out` of the first.
pub fn swap_t1_t0(
    pool: &Pubkey,
    vault0: &Pubkey,
    vault1: &Pubkey,
    user_token0: &Pubkey,
    user_token1: &Pubkey,
    user: &Pubkey,
    amount_in: u64,
    min_out: u64,
    token_program: Option<&Pubkey>,
) -> (ix: Instruction)
    ensures
        ix.program_id == PROGRAM_ID,
        ix.accounts@ == seq![
            writable(*pool, false),
            writable(*vault0, false),
            writable(*vault1, false),
            writable(*user_token0, false),
            writable(*user_token1, false),
            readonly(*user, true),
            readonly(token_program_or_default(token_program), false),
        ],
        ix.data@ == spec_u64_to_le_bytes(disc::SWAPT1T0)
            + spec_u64_to_le_bytes(amount_in)
            + spec_u64_to_le_bytes(min_out),
        ix.data@.len() == 24,
{
    broadcast use lemma_u64_le_len;
    let mut data: Vec<u8> = Vec::with_capacity(24);
    write_u64(&mut data, disc::SWAPT1T0);
    write_u64(&mut data, amount_in);
    write_u64(&mut data, min_out);
    let accounts: Vec<AccountMeta> = vec![
        AccountMeta::new(*pool, false),
        AccountMeta::new(*vault0, false),
        AccountMeta::new(*vault1, false),
        AccountMeta::new(*user_token0, false),
        AccountMeta::new(*user_token1, false),
        AccountMeta::new_readonly(*user, true),
        AccountMeta::new_readonly(token_program_or_default_of(token_program), false),
    ];
    Instruction { program_id: PROGRAM_ID, accounts, data }
}

/// Builds the instruction that deposits `amount0` and `amount1` for at least
/// `min_lp` liquidity tokens.
pub fn add_liquidity(
    pool: &Pubkey,
    vault0: &Pubkey,
    vault1: &Pubkey,
    lp_mint: &Pubkey,
    user_token0: &Pubkey,
    user_token1: &Pubkey,
    user_lp: &Pubkey,
    user: &Pubkey,
    amount0: u64,
    amount1: u64,
    min_lp: u64,
    token_program: Option<&Pubkey>,
) -> (ix: Instruction)
    ensures
        ix.program_id == PROGRAM_ID,
        ix.accounts@ == seq![
            writable(*pool, false),
            writable(*vault0, false),
            writable(*vault1, false),
            writable(*lp_mint, false),
            writable(*user_token0, false),
            writable(*user_token1, false),
            writable(*user_lp, false),
            readonly(*user, true),
            readonly(token_program_or_default(token_program), false),
        ],
        ix.data@ == spec_u64_to_le_bytes(disc::ADDLIQ)
            + spec_u64_to_le_bytes(amount0)
            + spec_u64_to_le_bytes(amount1)
            + spec_u64_to_le_bytes(min_lp),
        ix.data@.len() == 32,
{
    broadcast use lemma_u64_le_len;
    let mut data: Vec<u8> = Vec::with_capacity(32);
    write_u64(&mut data, disc::ADDLIQ);
    write_u64(&mut data, amount0);
    write_u64(&mut data, amount1);
    write_u64(&mut data, min_lp);
    let accounts: Vec<AccountMeta> = vec![
        AccountMeta::new(*pool, false),
        AccountMeta::new(*vault0, false),
        AccountMeta::new(*vault1, false),
        AccountMeta::new(*lp_mint, false),
        AccountMeta::new(*user_token0, false),
        AccountMeta::new(*user_token1, false),
        AccountMeta::new(*user_lp, false),
        AccountMeta::new_readonly(*user, true),
        AccountMeta::new_readonly(token_program_or_default_of(token_program), false),
    ];
    Instruction { program_id: PROGRAM_ID, accounts, data }
}

/// Builds the instruction that burns `lp_amount` liquidity tokens for at least
/// `min0` and `min1` of the two tokens.
pub fn remove_liquidity(
    pool: &Pubkey,
    vault0: &Pubkey,
    vault1: &Pubkey,
    lp_mint: &Pubkey,
    user_token0: &Pubkey,
    user_token1: &Pubkey,
    user_lp: &Pubkey,
    user: &Pubkey,
    lp_amount: u64,
    min0: u64,
    min1: u64,
    token_program: Option<&Pubkey>,
) -> (ix: Instruction)
    ensures
        ix.program_id == PROGRAM_ID,
        ix.accounts@ == seq![
            writable(*pool, false),
            writable(*vault0, false),
            writable(*vault1, false),
            writable(*lp_mint, false),
            writable(*user_token0, false),
            writable(*user_token1, false),
            writable(*user_lp, false),
            readonly(*user, true),
            readonly(token_program_or_default(token_program), false),
        ],
        ix.data@ == spec_u64_to_le_bytes(disc::REMLIQ)
            + spec_u64_to_le_bytes(lp_amount)
            + spec_u64_to_le_bytes(min0)
            + spec_u64_to_le_bytes(min1),
        ix.data@.len() == 32,
{
    broadcast use lemma_u64_le_len;
    let mut data: Vec<u8> = Vec::with_capacity(32);
    write_u64(&mut data, disc::REMLIQ);
    write_u64(&mut data, lp_amount);
    write_u64(&mut data, min0);
    write_u64(&mut data, min1);
    let accounts: Vec<AccountMeta> = vec![
        AccountMeta::new(*pool, false),
        AccountMeta::new(*vault0, false),
        AccountMeta::new(*vault1, false),
        AccountMeta::new(*lp_mint, false),
        AccountMeta::new(*user_token0, false),
        AccountMeta::new(*user_token1, false),
        AccountMeta::new(*user_lp, false),
        AccountMeta::new_readonly(*user, true),
        AccountMeta::new_readonly(token_program_or_default_of(token_program), false),
    ];
    Instruction { program_id: PROGRAM_ID, accounts, data }
}

/// Builds the instruction that pauses or resumes trading.
pub fn set_pause(pool: &Pubkey, authority: &Pubkey, paused: bool) -> (ix: Instruction)
    ensures
        ix.program_id == PROGRAM_ID,
        ix.accounts@ == seq![
            writable(*pool, false),
            readonly(*authority, true),
        ],
        ix.data@ == spec_u64_to_le_bytes(disc::SETPAUSE)
            + seq![if paused { 1u8 } else { 0u8 }],
        ix.data@.len() == 9,
{
    broadcast use lemma_u64_le_len;
    let mut data: Vec<u8> = Vec::with_capacity(9);
    write_u64(&mut data, disc::SETPAUSE);
    write_u8(&mut data, if paused { 1 } else { 0 });
    let accounts: Vec<AccountMeta> = vec![
        AccountMeta::new(*pool, false),
        AccountMeta::new_readonly(*authority, true),
    ];
    Instruction { program_id: PROGRAM_ID, accounts, data }
}

/// Builds the instruction that sets the fee to `fee_bps` basis points.
pub fn update_fee(pool: &Pubkey, authority: &Pubkey, fee_bps: u64) -> (ix: Instruction)
    ensures
        ix.program_id == PROGRAM_ID,
        ix.accounts@ == seq![
            writable(*pool, false),
            readonly(*authority, true),
        ],
        ix.data@ == spec_u64_to_le_bytes(disc::UPDFEE)
            + spec_u64_to_le_bytes(fee_bps),
        ix.data@.len() == 16,
{
    broadcast use lemma_u64_le_len;
    let mut data: Vec<u8> = Vec::with_capacity(16);
    write_u64(&mut data, disc::UPDFEE);
    write_u64(&mut data, fee_bps);
    let accounts: Vec<AccountMeta> = vec![
        AccountMeta::new(*pool, false),
        AccountMeta::new_readonly(*authority, true),
    ];
    Instruction { program_id: PROGRAM_ID, accounts, data }
}

/// Builds the instruction that commits the pool to a coming amplification of
/// `target_amp`.
pub fn commit_amp(pool: &Pubkey, authority: &Pubkey, target_amp: u64) -> (ix: Instruction)
    ensures
        ix.program_id == PROGRAM_ID,
        ix.accounts@ == seq![
            writable(*pool, false),
            readonly(*authority, true),
        ],
        ix.data@ == spec_u64_to_le_bytes(disc::COMMITAMP)
            + spec_u64_to_le_bytes(target_amp),
        ix.data@.len() == 16,
{
    broadcast use lemma_u64_le_len;
    let mut data: Vec<u8> = Vec::with_capacity(16);
    write_u64(&mut data, disc::COMMITAMP);
    write_u64(&mut data, target_amp);
    let accounts: Vec<AccountMeta> = vec![
        AccountMeta::new(*pool, false),
        AccountMeta::new_readonly(*authority, true),
    ];
    Instruction { program_id: PROGRAM_ID, accounts, data }
}

/// Builds the instruction that ramps the amplification to `target_amp` over
/// `duration` seconds.
pub fn ramp_amp(
    pool: &Pubkey,
    authority: &Pubkey,
    target_amp: u64,
    duration: i64,
) -> (ix: Instruction)
    ensures
        ix.program_id == PROGRAM_ID,
        ix.accounts@ == seq![
            writable(*pool, false),
            readonly(*authority, true),
        ],
        ix.data@ == spec_u64_to_le_bytes(disc::RAMPAMP)
            + spec_u64_to_le_bytes(target_amp)
            + spec_u64_to_le_bytes(duration as u64),
        ix.data@.len() == 24,
{
    broadcast use lemma_u64_le_len;
    let mut data: Vec<u8> = Vec::with_capacity(24);
    write_u64(&mut data, disc::RAMPAMP);
    write_u64(&mut data, target_amp);
    write_i64(&mut data, duration);
    let accounts: Vec<AccountMeta> = vec![
        AccountMeta::new(*pool, false),
        AccountMeta::new_readonly(*authority, true),
    ];
    Instruction { program_id: PROGRAM_ID, accounts, data }
}

/// Builds the instruction that stops a ramp where it stands.
pub fn stop_ramp(pool: &Pubkey, authority: &Pubkey) -> (ix: Instruction)
    ensures
        ix.program_id == PROGRAM_ID,
        ix.accounts@ == seq![
            writable(*pool, false),
            readonly(*authority, true),
        ],
        ix.data@ == spec_u64_to_le_bytes(disc::STOPRAMP),
        ix.data@.len() == 8,
{
    broadcast use lemma_u64_le_len;
    let mut data: Vec<u8> = Vec::with_capacity(8);
    write_u64(&mut data, disc::STOPRAMP);
    let accounts: Vec<AccountMeta> = vec![
        AccountMeta::new(*pool, false),
        AccountMeta::new_readonly(*authority, true),
    ];
    Instruction { program_id: PROGRAM_ID, accounts, data }
}

/// Builds the instruction that offers the authority over the pool to
/// `new_authority`.
pub fn init_auth_transfer(
    pool: &Pubkey,
    authority: &Pubkey,
    new_authority: &Pubkey,
) -> (ix: Instruction)
    ensures
        ix.program_id == PROGRAM_ID,
        ix.accounts@ == seq![
            writable(*pool, false),
            readonly(*authority, true),
            readonly(*new_authority, false),
        ],
        ix.data@ == spec_u64_to_le_bytes(disc::INITAUTH),
        ix.data@.len() == 8,
{
    broadcast use lemma_u64_le_len;
    let mut data: Vec<u8> = Vec::with_capacity(8);
    write_u64(&mut data, disc::INITAUTH);
    let accounts: Vec<AccountMeta> = vec![
        AccountMeta::new(*pool, false),
        AccountMeta::new_readonly(*authority, true),
        AccountMeta::new_readonly(*new_authority, false),
    ];
    Instruction { program_id: PROGRAM_ID, accounts, data }
}

/// Builds the instruction by which `new_authority` accepts the authority over
/// the pool.
pub fn complete_auth_transfer(pool: &Pubkey, new_authority: &Pubkey) -> (ix: Instruction)
    ensures
        ix.program_id == PROGRAM_ID,
        ix.accounts@ == seq![
            writable(*pool, false),
            readonly(*new_authority, true),
        ],
        ix.data@ == spec_u64_to_le_bytes(disc::COMPLAUTH),
        ix.data@.len() == 8,
{
    broadcast use lemma_u64_le_len;
    let mut data: Vec<u8> = Vec::with_capacity(8);
    write_u64(&mut data, disc::COMPLAUTH);
    let accounts: Vec<AccountMeta> = vec![
        AccountMeta::new(*pool, false),
        AccountMeta::new_readonly(*new_authority, true),
    ];
    Instruction { program_id: PROGRAM_ID, accounts, data }
}

/// Builds the instruction that withdraws an offer of the authority.
pub fn cancel_auth_transfer(pool: &Pubkey, authority: &Pubkey) -> (ix: Instruction)
    ensures
        ix.program_id == PROGRAM_ID,
        ix.accounts@ == seq![
            writable(*pool, false),
            readonly(*authority, true),
        ],
        ix.data@ == spec_u64_to_le_bytes(disc::CANCELAUTH),
        ix.data@.len() == 8,
{
    broadcast use lemma_u64_le_len;
    let mut data: Vec<u8> = Vec::with_capacity(8);
    write_u64(&mut data, disc::CANCELAUTH);
    let accounts: Vec<AccountMeta> = vec![
        AccountMeta::new(*pool, false),
        AccountMeta::new_readonly(*authority, true),
    ];
    Instruction { program_id: PROGRAM_ID, accounts, data }
}

/// Builds the instruction that stakes `amount` liquidity tokens in a farm.
pub fn stake_lp(
    user_position: &Pubkey,
    farm: &Pubkey,
    user_lp: &Pubkey,
    lp_vault: &Pubkey,
    user: &Pubkey,
    amount: u64,
    token_program: Option<&Pubkey>,
) -> (ix: Instruction)
    ensures
        ix.program_id == PROGRAM_ID,
        ix.accounts@ == seq![
            writable(*user_position, false),
            writable(*farm, false),
            writable(*user_lp, false),
            writable(*lp_vault, false),
            readonly(*user, true),
            readonly(token_program_or_default(token_program), false),
        ],
        ix.data@ == spec_u64_to_le_bytes(disc::STAKELP)
            + spec_u64_to_le_bytes(amount),
        ix.data@.len() == 16,
{
    broadcast use lemma_u64_le_len;
    let mut data: Vec<u8> = Vec::with_capacity(16);
    write_u64(&mut data, disc::STAKELP);
    write_u64(&mut data, amount);
    let accounts: Vec<AccountMeta> = vec![
        AccountMeta::new(*user_position, false),
        AccountMeta::new(*farm, false),
        AccountMeta::new(*user_lp, false),
        AccountMeta::new(*lp_vault, false),
        AccountMeta::new_readonly(*user, true),
        AccountMeta::new_readonly(token_program_or_default_of(token_program), false),
    ];
    Instruction { program_id: PROGRAM_ID, accounts, data }
}

/// Builds the instruction that takes `amount` liquidity tokens out of a farm.
pub fn unstake_lp(
    user_position: &Pubkey,
    farm: &Pubkey,
    user_lp: &Pubkey,
    lp_vault: &Pubkey,
    user: &Pubkey,
    amount: u64,
    token_program: Option<&Pubkey>,
) -> (ix: Instruction)
    ensures
        ix.program_id == PROGRAM_ID,
        ix.accounts@ == seq![
            writable(*user_position, false),
            writable(*farm, false),
            writable(*user_lp, false),
            writable(*lp_vault, false),
            readonly(*user, true),
            readonly(token_program_or_default(token_program), false),
        ],
        ix.data@ == spec_u64_to_le_bytes(disc::UNSTAKELP)
            + spec_u64_to_le_bytes(amount),
        ix.data@.len() == 16,
{
    broadcast use lemma_u64_le_len;
    let mut data: Vec<u8> = Vec::with_capacity(16);
    write_u64(&mut data, disc::UNSTAKELP);
    write_u64(&mut data, amount);
    let accounts: Vec<AccountMeta> = vec![
        AccountMeta::new(*user_position, false),
        AccountMeta::new(*farm, false),
        AccountMeta::new(*user_lp, false),
        AccountMeta::new(*lp_vault, false),
        AccountMeta::new_readonly(*user, true),
        AccountMeta::new_readonly(token_program_or_default_of(token_program), false),
    ];
    Instruction { program_id: PROGRAM_ID, accounts, data }
}

/// Builds the instruction that claims the rewards of a position in a farm.
pub fn claim_farm(
    user_position: &Pubkey,
    farm: &Pubkey,
    pool: &Pubkey,
    reward_vault: &Pubkey,
    user_reward: &Pubkey,
    user: &Pubkey,
    token_program: Option<&Pubkey>,
) -> (ix: Instruction)
    ensures
        ix.program_id == PROGRAM_ID,
        ix.accounts@ == seq![
            writable(*user_position, false),
            writable(*farm, false),
            readonly(*pool, false),
            writable(*reward_vault, false),
            writable(*user_reward, false),
            readonly(*user, true),
            readonly(token_program_or_default(token_program), false),
        ],
        ix.data@ == spec_u64_to_le_bytes(disc::CLAIMFARM),
        ix.data@.len() == 8,
{
    broadcast use lemma_u64_le_len;
    let mut data: Vec<u8> = Vec::with_capacity(8);
    write_u64(&mut data, disc::CLAIMFARM);
    let accounts: Vec<AccountMeta> = vec![
        AccountMeta::new(*user_position, false),
        AccountMeta::new(*farm, false),
        AccountMeta::new_readonly(*pool, false),
        AccountMeta::new(*reward_vault, false),
        AccountMeta::new(*user_reward, false),
        AccountMeta::new_readonly(*user, true),
        AccountMeta::new_readonly(token_program_or_default_of(token_program), false),
    ];
    Instruction { program_id: PROGRAM_ID, accounts, data }
}

/// Builds the instruction that asks the oracle for the average price over
/// `window`.
pub fn get_twap(pool: &Pubkey, window: TwapWindow) -> (ix: Instruction)
    ensures
        ix.program_id == PROGRAM_ID,
        ix.accounts@ == seq![
            readonly(*pool, false),
        ],
        ix.data@ == spec_u64_to_le_bytes(disc::GETTWAP)
            + seq![window.code()],
        ix.data@.len() == 9,
{
    broadcast use lemma_u64_le_len;
    let mut data: Vec<u8> = Vec::with_capacity(9);
    write_u64(&mut data, disc::GETTWAP);
    write_u8(&mut data, window.to_u8());
    let accounts: Vec<AccountMeta> = vec![
        AccountMeta::new_readonly(*pool, false),
    ];
    Instruction { program_id: PROGRAM_ID, accounts, data }
}
} // verus!
