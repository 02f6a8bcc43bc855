use std::str::FromStr;

use aex402_sdk::instruction::AccountMeta;
use aex402_sdk::{PROGRAM_ID, SYSTEM_PROGRAM_ID, TOKEN_2022_PROGRAM_ID, TOKEN_PROGRAM_ID};

fn decode(address: &str) -> [u8; 32] {
    solana_program::pubkey::Pubkey::from_str(address).unwrap().to_bytes()
}

#[test]
fn program_addresses_match_their_base58_form() {
    assert_eq!(PROGRAM_ID, decode("3AMM53MsJZy2Jvf7PeHHga3bsGjWV4TSaYz29WUtcdje"));
    assert_eq!(TOKEN_PROGRAM_ID, decode("TokenkegQfeZyiNwAJbNbGKPFXCWuBvf9Ss623VQ5DA"));
    assert_eq!(TOKEN_2022_PROGRAM_ID, decode("TokenzQdBNbLqP5VEhdkAS6EPFLC1PHnBqCXEpPxuEb"));
    assert_eq!(SYSTEM_PROGRAM_ID, decode("11111111111111111111111111111111"));
}

#[test]
fn account_entries_agree_with_the_runtime_types() {
    for is_signer in [false, true] {
        let key = [7u8; 32];
        let theirs = solana_program::instruction::AccountMeta::new(key.into(), is_signer);
        let ours = AccountMeta::new(key, is_signer);
        assert_eq!(
            (theirs.pubkey.to_bytes(), theirs.is_signer, theirs.is_writable),
            (ours.pubkey, ours.is_signer, ours.is_writable)
        );
        let theirs = solana_program::instruction::AccountMeta::new_readonly(key.into(), is_signer);
        let ours = AccountMeta::new_readonly(key, is_signer);
        assert_eq!(
            (theirs.pubkey.to_bytes(), theirs.is_signer, theirs.is_writable),
            (ours.pubkey, ours.is_signer, ours.is_writable)
        );
    }
}
