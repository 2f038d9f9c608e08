//! The `Swap` transition run against the token-service model: the
//! end-to-end scenario, insufficient funds, authority forgery, and the
//! model's own error verdicts.

use simple_token_pool::addr::Address;
use simple_token_pool::error::PoolError;
use simple_token_pool::instruction::{encode_instruction, rent_sysvar_id, PoolInstruction};
use simple_token_pool::ledger::TokenLedger;
use simple_token_pool::pda::find_authority_bump_seed;
use simple_token_pool::processor::{
    process_instruction, spl_initialize_account, spl_initialize_mint, spl_token_mint_to,
    spl_token_transfer, AccountView, Transition,
};
use simple_token_pool::state::{encode_record, PoolData, RECORD_LEN};

use solana_program::program_option::COption;
use solana_program::program_pack::Pack;
use solana_program::pubkey::Pubkey;
use spl_token::state::Mint;

const SENDER_MINT_AMOUNT: u64 = 10000;

fn addr(n: u8) -> Address {
    Address::new([n; 32])
}

fn account(key: Address, owner: Address, data: Vec<u8>) -> AccountView {
    AccountView { key, owner, data, rent_exempt: true }
}

fn packed_mint(is_initialized: bool, decimals: u8) -> Vec<u8> {
    let mint = Mint {
        mint_authority: COption::Some(Pubkey::new_unique()),
        supply: 0,
        decimals,
        is_initialized,
        freeze_authority: COption::None,
    };
    let mut data = vec![0u8; Mint::LEN];
    Mint::pack(mint, &mut data).unwrap();
    data
}

/// The pool world after create + initialize, with a funded sender: the
/// service model, the initialized pool account, and the fixed addresses.
struct World {
    ledger: TokenLedger,
    pool_account: AccountView,
    record: PoolData,
    owner: Address,
    token_sender: Address,
    token_recipient: Address,
}

/// Creates the incoming mint, initializes the pool through the transition
/// function, and funds the sender, as the host would.
fn setup() -> World {
    let program_id = simple_token_pool::id();
    let pool = addr(1);
    let (authority, _) = find_authority_bump_seed(&program_id, &pool).unwrap();
    let bank_mint = addr(3);
    let pool_mint = addr(4);
    let bank = addr(5);
    let owner = addr(6);
    let token_sender = addr(7);
    let token_recipient = addr(8);

    let mut ledger = TokenLedger::new();
    ledger.initialize_mint(&spl_initialize_mint(&bank_mint, &owner, 0)).unwrap();

    let accounts = vec![
        account(pool, program_id, vec![0u8; RECORD_LEN]),
        account(authority, addr(0), vec![]),
        account(bank_mint, addr(0), packed_mint(true, 0)),
        account(pool_mint, addr(0), vec![]),
        account(bank, addr(0), vec![]),
        account(rent_sysvar_id(), addr(0), vec![]),
    ];
    let transition = process_instruction(&program_id, &accounts, &vec![0u8]).unwrap();
    ledger.execute_transition(&transition).unwrap();
    let record = match transition {
        Transition::Initialize { record, .. } => record,
        _ => panic!("Wrong result"),
    };
    let mut pool_account = accounts.into_iter().next().unwrap();
    pool_account.data = encode_record(&record);

    ledger.initialize_account(&spl_initialize_account(&token_sender, &bank_mint, &owner)).unwrap();
    ledger
        .initialize_account(&spl_initialize_account(&token_recipient, &pool_mint, &owner))
        .unwrap();
    ledger
        .mint_to(&spl_token_mint_to(&pool, &bank_mint, &token_sender, &owner, 0, SENDER_MINT_AMOUNT))
        .unwrap();

    World { ledger, pool_account, record, owner, token_sender, token_recipient }
}

fn swap_accounts(world: &World) -> Vec<AccountView> {
    vec![
        world.pool_account.clone(),
        account(world.record.authority, addr(0), vec![]),
        account(world.owner, addr(0), vec![]),
        account(world.record.pool_mint, addr(0), vec![]),
        account(world.record.bank, addr(0), vec![]),
        account(world.token_sender, addr(0), vec![]),
        account(world.token_recipient, addr(0), vec![]),
    ]
}

fn swap_payload(amount_in: u64) -> Vec<u8> {
    encode_instruction(&PoolInstruction::Swap { amount_in })
}

#[test]
fn swap_success() {
    let program_id = simple_token_pool::id();
    let mut world = setup();
    assert_eq!(world.ledger.balance_of(&world.token_sender), Some(SENDER_MINT_AMOUNT));

    let accounts = swap_accounts(&world);
    let transition = process_instruction(&program_id, &accounts, &swap_payload(5000)).unwrap();
    world.ledger.execute_transition(&transition).unwrap();

    assert_eq!(world.ledger.balance_of(&world.token_sender), Some(SENDER_MINT_AMOUNT - 5000));
    assert_eq!(world.ledger.balance_of(&world.token_recipient), Some(5000));
    assert_eq!(world.ledger.balance_of(&world.record.bank), Some(5000));
    assert_eq!(world.ledger.supply_of(&world.record.pool_mint), Some(5000));
}

#[test]
fn fail_with_insufficient_tokens() {
    let program_id = simple_token_pool::id();
    let mut world = setup();
    assert_eq!(world.ledger.balance_of(&world.token_sender), Some(SENDER_MINT_AMOUNT));

    let accounts = swap_accounts(&world);
    let transition =
        process_instruction(&program_id, &accounts, &swap_payload(SENDER_MINT_AMOUNT + 1))
            .unwrap();
    match world.ledger.execute_transition(&transition) {
        Err(error) => assert_eq!(error, PoolError::InsufficientFunds),
        _ => panic!("Wrong error"),
    }
    assert_eq!(world.ledger.balance_of(&world.token_sender), Some(SENDER_MINT_AMOUNT));
    assert_eq!(world.ledger.balance_of(&world.record.bank), Some(0));
    assert_eq!(world.ledger.supply_of(&world.record.pool_mint), Some(0));
}

#[test]
fn fail_with_forged_authority() {
    let program_id = simple_token_pool::id();
    let world = setup();

    let mut accounts = swap_accounts(&world);
    let mut forged = world.record.authority;
    forged.bytes[0] = forged.bytes[0].wrapping_add(1);
    accounts[1].key = forged;
    assert_eq!(
        process_instruction(&program_id, &accounts, &swap_payload(5000)),
        Err(PoolError::InvalidArgument)
    );
}

#[test]
fn fail_with_wrong_bank_account() {
    let program_id = simple_token_pool::id();
    let world = setup();

    let mut accounts = swap_accounts(&world);
    accounts[4].key = addr(42);
    assert_eq!(
        process_instruction(&program_id, &accounts, &swap_payload(5000)),
        Err(PoolError::InvalidArgument)
    );
}

#[test]
fn fail_with_uninitialized_pool() {
    let program_id = simple_token_pool::id();
    let world = setup();

    let mut accounts = swap_accounts(&world);
    accounts[0].data = vec![0u8; RECORD_LEN];
    assert_eq!(
        process_instruction(&program_id, &accounts, &swap_payload(5000)),
        Err(PoolError::UninitializedAccount)
    );
}

#[test]
fn transfer_verdicts_match_token_service() {
    let world = setup();
    let mut ledger = world.ledger;
    let pool = addr(1);

    let wrong_owner =
        spl_token_transfer(&pool, &world.token_sender, &world.record.bank, &addr(50), 0, 1);
    assert_eq!(ledger.transfer(&wrong_owner), Err(PoolError::OwnerMismatch));

    let wrong_mint =
        spl_token_transfer(&pool, &world.token_sender, &world.token_recipient, &world.owner, 0, 1);
    assert_eq!(ledger.transfer(&wrong_mint), Err(PoolError::MintMismatch));

    let missing =
        spl_token_transfer(&pool, &addr(51), &world.record.bank, &world.owner, 0, 1);
    assert_eq!(ledger.transfer(&missing), Err(PoolError::InvalidAccountData));

    assert_eq!(ledger.balance_of(&world.token_sender), Some(SENDER_MINT_AMOUNT));
}

#[test]
fn self_transfer_moves_nothing() {
    let world = setup();
    let mut ledger = world.ledger;
    let pool = addr(1);

    let request =
        spl_token_transfer(&pool, &world.token_sender, &world.token_sender, &world.owner, 0, 1);
    assert_eq!(ledger.transfer(&request), Ok(()));
    assert_eq!(ledger.balance_of(&world.token_sender), Some(SENDER_MINT_AMOUNT));
}

#[test]
fn mint_verdicts_match_token_service() {
    let world = setup();
    let mut ledger = world.ledger;
    let pool = addr(1);

    let wrong_authority =
        spl_token_mint_to(&pool, &world.record.pool_mint, &world.token_recipient, &addr(50), 0, 1);
    assert_eq!(ledger.mint_to(&wrong_authority), Err(PoolError::OwnerMismatch));

    let wrong_mint = spl_token_mint_to(
        &pool,
        &simple_token_pool::id(),
        &world.token_sender,
        &world.owner,
        0,
        1,
    );
    assert_eq!(ledger.mint_to(&wrong_mint), Err(PoolError::MintMismatch));

    let overflow = spl_token_mint_to(
        &pool,
        &addr(3),
        &world.token_sender,
        &world.owner,
        0,
        u64::MAX,
    );
    assert_eq!(ledger.mint_to(&overflow), Err(PoolError::Overflow));
}

#[test]
fn creation_verdicts_match_token_service() {
    let world = setup();
    let mut ledger = world.ledger;

    let duplicate_mint = spl_initialize_mint(&addr(3), &world.owner, 0);
    assert_eq!(ledger.initialize_mint(&duplicate_mint), Err(PoolError::AlreadyInUse));

    let duplicate_account = spl_initialize_account(&world.token_sender, &addr(3), &world.owner);
    assert_eq!(ledger.initialize_account(&duplicate_account), Err(PoolError::AlreadyInUse));

    let absent_mint = spl_initialize_account(&addr(60), &addr(61), &world.owner);
    assert_eq!(ledger.initialize_account(&absent_mint), Err(PoolError::InvalidMint));
}
