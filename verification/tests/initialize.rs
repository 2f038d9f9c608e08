//! The `Initialize` transition: success, double initialization, an
//! uninitialized incoming mint, and the other precondition failures.

use simple_token_pool::addr::Address;
use simple_token_pool::error::PoolError;
use simple_token_pool::instruction::rent_sysvar_id;
use simple_token_pool::pda::find_authority_bump_seed;
use simple_token_pool::processor::{process_instruction, AccountView, Transition};
use simple_token_pool::state::{encode_record, PoolData, RECORD_LEN};

use solana_program::program_option::COption;
use solana_program::program_pack::Pack;
use solana_program::pubkey::Pubkey;
use spl_token::state::Mint;

fn addr(n: u8) -> Address {
    Address::new([n; 32])
}

fn account(key: Address, owner: Address, data: Vec<u8>) -> AccountView {
    AccountView { key, owner, data, rent_exempt: true }
}

fn packed_mint(is_initialized: bool, decimals: u8) -> Vec<u8> {
    let mint = Mint {
        mint_authority: COption::Some(Pubkey::new_unique()),
        supply: 0,
        decimals,
        is_initialized,
        freeze_authority: COption::None,
    };
    let mut data = vec![0u8; Mint::LEN];
    Mint::pack(mint, &mut data).unwrap();
    data
}

fn initialize_accounts(mint_data: Vec<u8>) -> Vec<AccountView> {
    let program_id = simple_token_pool::id();
    let pool = addr(1);
    let (authority, _) = find_authority_bump_seed(&program_id, &pool).unwrap();
    vec![
        account(pool, program_id, vec![0u8; RECORD_LEN]),
        account(authority, addr(0), vec![]),
        account(addr(3), addr(0), mint_data),
        account(addr(4), addr(0), vec![]),
        account(addr(5), addr(0), vec![]),
        account(rent_sysvar_id(), addr(0), vec![]),
    ]
}

#[test]
fn initialize_success() {
    let program_id = simple_token_pool::id();
    let accounts = initialize_accounts(packed_mint(true, 0));
    let result = process_instruction(&program_id, &accounts, &vec![0u8]);
    match result {
        Ok(Transition::Initialize { init_account, init_mint, pool, record }) => {
            assert_eq!(pool, accounts[0].key);
            assert_eq!(record.version, PoolData::CURRENT_VERSION);
            assert_eq!(record.authority, accounts[1].key);
            assert_eq!(record.bank_mint, accounts[2].key);
            assert_eq!(record.pool_mint, accounts[3].key);
            assert_eq!(record.bank, accounts[4].key);
            assert_eq!(init_account.account, accounts[4].key);
            assert_eq!(init_account.mint, accounts[2].key);
            assert_eq!(init_account.owner, accounts[1].key);
            assert_eq!(init_mint.mint, accounts[3].key);
            assert_eq!(init_mint.mint_authority, accounts[1].key);
            assert_eq!(init_mint.decimals, 0);
        },
        _ => panic!("Wrong result"),
    }
}

#[test]
fn fail_double_initialize() {
    let program_id = simple_token_pool::id();
    let mut accounts = initialize_accounts(packed_mint(true, 0));
    let record = match process_instruction(&program_id, &accounts, &vec![0u8]) {
        Ok(Transition::Initialize { record, .. }) => record,
        _ => panic!("Wrong result"),
    };
    accounts[0].data = encode_record(&record);
    match process_instruction(&program_id, &accounts, &vec![0u8]) {
        Err(error) => assert_eq!(error, PoolError::AccountAlreadyInitialized),
        _ => panic!("Wrong error"),
    }
}

#[test]
fn fail_with_wrong_mint() {
    let program_id = simple_token_pool::id();
    let accounts = initialize_accounts(vec![0u8; Mint::LEN]);
    match process_instruction(&program_id, &accounts, &vec![0u8]) {
        Err(error) => assert_eq!(error, PoolError::UninitializedAccount),
        _ => panic!("Wrong error"),
    }
}

#[test]
fn mint_decimals_flow_into_pool_mint() {
    let program_id = simple_token_pool::id();
    let accounts = initialize_accounts(packed_mint(true, 5));
    match process_instruction(&program_id, &accounts, &vec![0u8]) {
        Ok(Transition::Initialize { init_mint, .. }) => assert_eq!(init_mint.decimals, 5),
        _ => panic!("Wrong result"),
    }
}

#[test]
fn fail_with_malformed_mint_record() {
    let program_id = simple_token_pool::id();
    let mut bad_tag = packed_mint(true, 0);
    bad_tag[0] = 7;
    let accounts = initialize_accounts(bad_tag);
    assert_eq!(
        process_instruction(&program_id, &accounts, &vec![0u8]),
        Err(PoolError::InvalidAccountData)
    );

    let accounts = initialize_accounts(vec![0u8; 50]);
    assert_eq!(
        process_instruction(&program_id, &accounts, &vec![0u8]),
        Err(PoolError::InvalidAccountData)
    );
}

#[test]
fn fail_with_wrong_pool_owner() {
    let program_id = simple_token_pool::id();
    let mut accounts = initialize_accounts(packed_mint(true, 0));
    accounts[0].owner = addr(99);
    assert_eq!(
        process_instruction(&program_id, &accounts, &vec![0u8]),
        Err(PoolError::IncorrectProgramId)
    );
}

#[test]
fn fail_with_wrong_rent_oracle() {
    let program_id = simple_token_pool::id();
    let mut accounts = initialize_accounts(packed_mint(true, 0));
    accounts[5].key = addr(98);
    assert_eq!(
        process_instruction(&program_id, &accounts, &vec![0u8]),
        Err(PoolError::InvalidArgument)
    );
}

#[test]
fn fail_without_rent_exemption() {
    let program_id = simple_token_pool::id();
    let mut accounts = initialize_accounts(packed_mint(true, 0));
    accounts[4].rent_exempt = false;
    assert_eq!(
        process_instruction(&program_id, &accounts, &vec![0u8]),
        Err(PoolError::AccountNotRentExempt)
    );
}

#[test]
fn fail_with_wrong_authority_account() {
    let program_id = simple_token_pool::id();
    let mut accounts = initialize_accounts(packed_mint(true, 0));
    accounts[1].key = addr(97);
    assert_eq!(
        process_instruction(&program_id, &accounts, &vec![0u8]),
        Err(PoolError::InvalidArgument)
    );
}

#[test]
fn fail_with_missing_accounts() {
    let program_id = simple_token_pool::id();
    let mut accounts = initialize_accounts(packed_mint(true, 0));
    accounts.truncate(5);
    assert_eq!(
        process_instruction(&program_id, &accounts, &vec![0u8]),
        Err(PoolError::NotEnoughAccountKeys)
    );
}

#[test]
fn fail_with_undecodable_payload() {
    let program_id = simple_token_pool::id();
    let accounts = initialize_accounts(packed_mint(true, 0));
    assert_eq!(
        process_instruction(&program_id, &accounts, &vec![9u8]),
        Err(PoolError::InvalidInstructionData)
    );
}
