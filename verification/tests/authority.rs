//! Authority derivation against the real host derivation: the found bump
//! re-derives the found address, and any other address fails the check.

use simple_token_pool::addr::Address;
use simple_token_pool::error::PoolError;
use simple_token_pool::pda::find_authority_bump_seed;
use simple_token_pool::state::PoolData;

use solana_program::pubkey::Pubkey;

fn record_with_bump(bump_seed: u8) -> PoolData {
    PoolData {
        version: PoolData::CURRENT_VERSION,
        authority: Address::new([0; 32]),
        bump_seed,
        bank_mint: Address::new([0; 32]),
        pool_mint: Address::new([0; 32]),
        bank: Address::new([0; 32]),
    }
}

#[test]
fn found_authority_matches_host_search() {
    let program_id = simple_token_pool::id();
    let pool = Address::new(Pubkey::new_unique().to_bytes());
    let (authority, bump_seed) = find_authority_bump_seed(&program_id, &pool).unwrap();

    let (expected, expected_bump) = Pubkey::find_program_address(
        &[&pool.bytes[..]],
        &Pubkey::new_from_array(program_id.bytes),
    );
    assert_eq!(authority.bytes, expected.to_bytes());
    assert_eq!(bump_seed, expected_bump);
}

#[test]
fn stored_bump_rederives_found_authority() {
    let program_id = simple_token_pool::id();
    let pool = Address::new(Pubkey::new_unique().to_bytes());
    let (authority, bump_seed) = find_authority_bump_seed(&program_id, &pool).unwrap();

    let record = record_with_bump(bump_seed);
    assert_eq!(record.check_authority(&authority, &program_id, &pool), Ok(()));
}

#[test]
fn other_address_fails_authority_check() {
    let program_id = simple_token_pool::id();
    let pool = Address::new(Pubkey::new_unique().to_bytes());
    let (authority, bump_seed) = find_authority_bump_seed(&program_id, &pool).unwrap();

    let record = record_with_bump(bump_seed);
    let mut other = authority;
    other.bytes[0] = other.bytes[0].wrapping_add(1);
    assert_eq!(
        record.check_authority(&other, &program_id, &pool),
        Err(PoolError::InvalidArgument)
    );
}
