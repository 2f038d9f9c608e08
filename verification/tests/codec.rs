//! Instruction codec behaviour: round trips, exact wire bytes, rejection of
//! malformed payloads, and the builders' account orders.

use simple_token_pool::addr::Address;
use simple_token_pool::error::PoolError;
use simple_token_pool::instruction::{
    decode_instruction, encode_instruction, initialize, rent_sysvar_id, swap, token_service_id,
    PoolInstruction,
};

fn addr(n: u8) -> Address {
    Address::new([n; 32])
}

#[test]
fn round_trip_initialize() {
    let bytes = encode_instruction(&PoolInstruction::Initialize);
    assert_eq!(bytes, vec![0u8]);
    assert_eq!(decode_instruction(&bytes), Ok(PoolInstruction::Initialize));
}

#[test]
fn round_trip_swap_zero() {
    let bytes = encode_instruction(&PoolInstruction::Swap { amount_in: 0 });
    assert_eq!(bytes, vec![1u8, 0, 0, 0, 0, 0, 0, 0, 0]);
    assert_eq!(decode_instruction(&bytes), Ok(PoolInstruction::Swap { amount_in: 0 }));
}

#[test]
fn round_trip_swap_max() {
    let bytes = encode_instruction(&PoolInstruction::Swap { amount_in: u64::MAX });
    assert_eq!(bytes, vec![1u8, 255, 255, 255, 255, 255, 255, 255, 255]);
    assert_eq!(decode_instruction(&bytes), Ok(PoolInstruction::Swap { amount_in: u64::MAX }));
}

#[test]
fn swap_amount_is_little_endian() {
    let bytes = encode_instruction(&PoolInstruction::Swap { amount_in: 5000 });
    assert_eq!(bytes, vec![1u8, 0x88, 0x13, 0, 0, 0, 0, 0, 0]);
}

#[test]
fn decode_rejects_malformed_payloads() {
    let cases: Vec<Vec<u8>> = vec![
        vec![],
        vec![2],
        vec![0, 0],
        vec![1],
        vec![1, 1, 2, 3],
        vec![1, 0, 0, 0, 0, 0, 0, 0, 0, 0],
    ];
    for data in cases {
        assert_eq!(decode_instruction(&data), Err(PoolError::InvalidInstructionData));
    }
}

#[test]
fn initialize_builder_account_order() {
    let program_id = addr(9);
    let ix = initialize(&program_id, &addr(1), &addr(2), &addr(3), &addr(4), &addr(5));
    assert_eq!(ix.program_id, program_id);
    assert_eq!(ix.data, vec![0u8]);
    assert_eq!(ix.accounts.len(), 7);
    let keys: Vec<Address> = ix.accounts.iter().map(|m| m.pubkey).collect();
    assert_eq!(
        keys,
        vec![addr(1), addr(2), addr(3), addr(4), addr(5), rent_sysvar_id(), token_service_id()]
    );
    assert!(ix.accounts[0].is_signer && ix.accounts[0].is_writable);
    assert!(!ix.accounts[1].is_signer && !ix.accounts[1].is_writable);
    assert!(!ix.accounts[2].is_writable);
    assert!(ix.accounts[3].is_writable && ix.accounts[4].is_writable);
    assert!(!ix.accounts[5].is_writable && !ix.accounts[6].is_writable);
}

#[test]
fn swap_builder_account_order() {
    let program_id = addr(9);
    let ix = swap(
        &program_id,
        &addr(1),
        &addr(2),
        &addr(3),
        &addr(4),
        &addr(5),
        &addr(6),
        &addr(7),
        42,
    );
    assert_eq!(ix.program_id, program_id);
    assert_eq!(ix.data, vec![1u8, 42, 0, 0, 0, 0, 0, 0, 0]);
    assert_eq!(ix.accounts.len(), 8);
    let keys: Vec<Address> = ix.accounts.iter().map(|m| m.pubkey).collect();
    assert_eq!(
        keys,
        vec![addr(1), addr(2), addr(3), addr(4), addr(5), addr(6), addr(7), token_service_id()]
    );
    assert!(!ix.accounts[0].is_signer && !ix.accounts[0].is_writable);
    assert!(ix.accounts[2].is_signer && !ix.accounts[2].is_writable);
    assert!(ix.accounts[3].is_writable && ix.accounts[4].is_writable);
    assert!(ix.accounts[5].is_writable && ix.accounts[6].is_writable);
    assert!(!ix.accounts[7].is_signer && !ix.accounts[7].is_writable);
}

#[test]
fn well_known_addresses_match_host_crates() {
    assert_eq!(token_service_id().bytes, spl_token::id().to_bytes());
    assert_eq!(rent_sysvar_id().bytes, solana_program::sysvar::rent::id().to_bytes());
    let declared: solana_program::pubkey::Pubkey =
        "4fn9mVmVG4kLDi1iacUyGpbGUH9qrisNHHWd9PueJLiw".parse().unwrap();
    assert_eq!(simple_token_pool::id().bytes, declared.to_bytes());
}
