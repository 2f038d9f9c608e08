//! The state-transition function. Given the program id, the ordered account
//! snapshots the host loaded, and an instruction payload, it validates every
//! precondition and returns the transition to apply: the token-service
//! requests to issue and, for `Initialize`, the pool record to write. A
//! rejection carries no transition, so a failed call changes nothing.

use vstd::prelude::*;

use solana_program::program_pack::Pack;

use crate::addr::{address_eq, Address};
use crate::error::PoolError;
use crate::instruction::{decode_instruction, spec_decode_instruction, spec_rent_sysvar_id, PoolInstruction};
use crate::pda::{derived_address, find_authority_bump_seed, spec_find_bump};
use crate::state::{decode_record, spec_record_fields, PoolData, RECORD_LEN};

verus! {

/// Packed byte length of a token-service mint record.
pub const MINT_RECORD_LEN: usize = 82;

/// Snapshot of one account handle as the host supplies it: the account's
/// address, the program that owns its storage slot, its stored bytes, and
/// the host rent oracle's verdict on whether its balance meets the
/// storage-fee exemption threshold for its size. The threshold computation
/// itself is the oracle's concern; this core only checks the boolean result.
#[derive(Clone, Debug, PartialEq, Eq)]
pub struct AccountView {
    /// The account's address.
    pub key: Address,
    /// The program that owns the account's storage slot.
    pub owner: Address,
    /// The account's stored bytes.
    pub data: Vec<u8>,
    /// The rent oracle's verdict for this account's balance and size.
    pub rent_exempt: bool,
}

/// Request to the token service: bind a new token account to a mint and an
/// owning authority.
#[derive(Clone, Copy, Debug, PartialEq, Eq)]
pub struct InitializeAccountRequest {
    /// The account to initialize.
    pub account: Address,
    /// The mint the account will hold tokens of.
    pub mint: Address,
    /// The authority that will own the account.
    pub owner: Address,
}

/// Request to the token service: initialize a new mint.
#[derive(Clone, Copy, Debug, PartialEq, Eq)]
pub struct InitializeMintRequest {
    /// The mint account to initialize.
    pub mint: Address,
    /// The sole authority allowed to mint; there is no freeze authority.
    pub mint_authority: Address,
    /// Decimal places of the new mint.
    pub decimals: u8,
}

/// Request to the token service: move tokens between two accounts of one
/// mint, authorized by the source account's owner.
#[derive(Clone, Copy, Debug, PartialEq, Eq)]
pub struct TransferRequest {
    /// The account debited.
    pub source: Address,
    /// The account credited.
    pub destination: Address,
    /// The authority presented for the debit.
    pub authority: Address,
    /// Pool address of the seed pair presented as the program's signature.
    pub signer_pool: Address,
    /// Bump byte of the seed pair presented as the program's signature.
    pub signer_bump: u8,
    /// Amount moved.
    pub amount: u64,
}

/// Request to the token service: mint new tokens to an account, authorized
/// by the mint's authority.
#[derive(Clone, Copy, Debug, PartialEq, Eq)]
pub struct MintToRequest {
    /// The mint whose supply grows.
    pub mint: Address,
    /// The account credited.
    pub destination: Address,
    /// The authority presented for the mint.
    pub authority: Address,
    /// Pool address of the seed pair presented as the program's signature.
    pub signer_pool: Address,
    /// Bump byte of the seed pair presented as the program's signature.
    pub signer_bump: u8,
    /// Amount minted.
    pub amount: u64,
}

/// Everything a successful transition changes, to be applied atomically by
/// the host: the token-service requests to issue and, for `Initialize`, the
/// pool record to write into the pool account.
#[derive(Clone, Copy, Debug, PartialEq, Eq)]
pub enum Transition {
    /// Create a pool: set up its reserve account and its pool mint, then
    /// write its state record.
    Initialize {
        /// Request binding the reserve account to the incoming mint under
        /// the derived authority.
        init_account: InitializeAccountRequest,
        /// Request initializing the pool mint under the derived authority,
        /// with the incoming mint's decimals.
        init_mint: InitializeMintRequest,
        /// The pool account whose record is written.
        pool: Address,
        /// The record written into the pool account.
        record: PoolData,
    },
    /// Swap: move the deposit into the reserve, then mint pool tokens.
    Swap {
        /// The deposit into the reserve, signed by the user.
        transfer: TransferRequest,
        /// The pool tokens minted to the recipient, signed by the derived
        /// authority's seed pair.
        mint_to: MintToRequest,
    },
}

/// Builds the token-service request that binds a new token account to a mint
/// and an owning authority.
pub fn spl_initialize_account(account: &Address, mint: &Address, authority: &Address) -> (r:
    InitializeAccountRequest)
    ensures
        r == (InitializeAccountRequest { account: *account, mint: *mint, owner: *authority }),
{
    InitializeAccountRequest { account: *account, mint: *mint, owner: *authority }
}

/// Builds the token-service request that initializes a mint with the given
/// authority and decimals and no freeze authority.
pub fn spl_initialize_mint(mint: &Address, mint_authority: &Address, decimals: u8) -> (r:
    InitializeMintRequest)
    ensures
        r == (InitializeMintRequest { mint: *mint, mint_authority: *mint_authority, decimals }),
{
    InitializeMintRequest { mint: *mint, mint_authority: *mint_authority, decimals }
}

/// Builds the token-service transfer request, carrying the pool's seed pair
/// as the program's signature material.
pub fn spl_token_transfer(
    pool: &Address,
    source: &Address,
    destination: &Address,
    authority: &Address,
    bump_seed: u8,
    amount: u64,
) -> (r: TransferRequest)
    ensures
        r == (TransferRequest {
            source: *source,
            destination: *destination,
            authority: *authority,
            signer_pool: *pool,
            signer_bump: bump_seed,
            amount,
        }),
{
    TransferRequest {
        source: *source,
        destination: *destination,
        authority: *authority,
        signer_pool: *pool,
        signer_bump: bump_seed,
        amount,
    }
}

/// Builds the token-service mint request, carrying the pool's seed pair as
/// the program's signature material.
pub fn spl_token_mint_to(
    pool: &Address,
    mint: &Address,
    destination: &Address,
    authority: &Address,
    bump_seed: u8,
    amount: u64,
) -> (r: MintToRequest)
    ensures
        r == (MintToRequest {
            mint: *mint,
            destination: *destination,
            authority: *authority,
            signer_pool: *pool,
            signer_bump: bump_seed,
            amount,
        }),
{
    MintToRequest {
        mint: *mint,
        destination: *destination,
        authority: *authority,
        signer_pool: *pool,
        signer_bump: bump_seed,
        amount,
    }
}

/// Whether the four bytes at `off` are a well-formed optional-field tag of a
/// token-service record: a little-endian 0 or 1.
pub open spec fn spec_coption_tag_ok(data: Seq<u8>, off: int) -> bool {
    &&& (data[off] == 0u8 || data[off] == 1u8)
    &&& data[off + 1] == 0u8
    &&& data[off + 2] == 0u8
    &&& data[off + 3] == 0u8
}

/// What the token service's mint-record parse yields from a record's first
/// 82 bytes: the initialization flag at byte 45 and the decimals at byte 44,
/// or `None` when one of the two optional-authority tags or the flag byte is
/// out of range.
pub open spec fn spec_mint_fields(data: Seq<u8>) -> Option<(bool, u8)>
    recommends
        data.len() >= MINT_RECORD_LEN,
{
    if spec_coption_tag_ok(data, 0) && (data[45] == 0u8 || data[45] == 1u8)
        && spec_coption_tag_ok(data, 46) {
        Some(((data[45] == 1u8), data[44]))
    } else {
        None
    }
}

/// Relies on spl_token's `Mint::unpack_from_slice`: it reads the buffer's
/// first 82 bytes (and demands at least that many), accepts exactly the
/// buffers whose two optional-authority tags and initialization byte are in
/// range, and yields the initialization flag and the decimals.
#[verifier::external_body]
fn unpack_mint_fields(data: &Vec<u8>) -> (r: Result<(bool, u8), PoolError>)
    requires
        data@.len() >= MINT_RECORD_LEN,
    ensures
        r == (match spec_mint_fields(data@) {
            Some(p) => Ok::<(bool, u8), PoolError>(p),
            None => Err::<(bool, u8), PoolError>(PoolError::InvalidAccountData),
        }),
{
    match spl_token::state::Mint::unpack_from_slice(data.as_slice()) {
        Ok(m) => Ok((m.is_initialized, m.decimals)),
        Err(_) => Err(PoolError::InvalidAccountData),
    }
}

/// The verdict and effects of an `Initialize` request, precondition by
/// precondition: the first failed check names the rejection, and only a run
/// where every check passes yields a transition.
pub open spec fn spec_process_initialize(program_id: Address, accounts: Seq<AccountView>) -> Result<
    Transition,
    PoolError,
> {
    if accounts.len() < 6 {
        Err(PoolError::NotEnoughAccountKeys)
    } else {
        let pool = accounts[0];
        let authority = accounts[1];
        let bank_mint = accounts[2];
        let pool_mint = accounts[3];
        let bank = accounts[4];
        let rent_oracle = accounts[5];
        if rent_oracle.key@ != spec_rent_sysvar_id() {
            Err(PoolError::InvalidArgument)
        } else if pool.owner@ != program_id@ {
            Err(PoolError::IncorrectProgramId)
        } else if pool.data@.len() != RECORD_LEN {
            Err(PoolError::InvalidAccountData)
        } else if pool.data@[0] != 0u8 {
            Err(PoolError::AccountAlreadyInitialized)
        } else if bank_mint.data@.len() < MINT_RECORD_LEN {
            Err(PoolError::InvalidAccountData)
        } else {
            match spec_mint_fields(bank_mint.data@) {
                None => Err(PoolError::InvalidAccountData),
                Some((mint_initialized, decimals)) => {
                    if !mint_initialized {
                        Err(PoolError::UninitializedAccount)
                    } else if !(pool.rent_exempt && bank.rent_exempt && pool_mint.rent_exempt) {
                        Err(PoolError::AccountNotRentExempt)
                    } else {
                        match spec_find_bump(pool.key@, program_id@, 255) {
                            None => Err(PoolError::InvalidSeeds),
                            Some((authority_bytes, bump)) => {
                                if authority_bytes != authority.key@ {
                                    Err(PoolError::InvalidArgument)
                                } else {
                                    Ok(Transition::Initialize {
                                        init_account: InitializeAccountRequest {
                                            account: bank.key,
                                            mint: bank_mint.key,
                                            owner: authority.key,
                                        },
                                        init_mint: InitializeMintRequest {
                                            mint: pool_mint.key,
                                            mint_authority: authority.key,
                                            decimals,
                                        },
                                        pool: pool.key,
                                        record: PoolData {
                                            version: PoolData::CURRENT_VERSION,
                                            authority: authority.key,
                                            bump_seed: bump,
                                            bank_mint: bank_mint.key,
                                            pool_mint: pool_mint.key,
                                            bank: bank.key,
                                        },
                                    })
                                }
                            },
                        }
                    }
                },
            }
        }
    }
}

/// The pool-token amount a swap mints for a deposit.
pub open spec fn spec_swap_mint_amount(amount_in: u64) -> u64 {
    (amount_in * (PoolData::MINT_MULTIPLIER as u64)) as u64
}

/// The verdict and effects of a `Swap` request, precondition by
/// precondition, over the raw bytes of the pool account's record.
pub open spec fn spec_process_swap(
    program_id: Address,
    accounts: Seq<AccountView>,
    amount_in: u64,
) -> Result<Transition, PoolError> {
    if accounts.len() < 7 {
        Err(PoolError::NotEnoughAccountKeys)
    } else {
        let pool = accounts[0];
        let pool_authority = accounts[1];
        let user_authority = accounts[2];
        let pool_mint = accounts[3];
        let bank = accounts[4];
        let sender = accounts[5];
        let recipient = accounts[6];
        if pool.data@.len() != RECORD_LEN {
            Err(PoolError::InvalidAccountData)
        } else if pool.data@[0] != PoolData::CURRENT_VERSION {
            Err(PoolError::UninitializedAccount)
        } else {
            match derived_address(pool.key@, pool.data@[33], program_id@) {
                None => Err(PoolError::InvalidSeeds),
                Some(expected) => {
                    if pool_authority.key@ != expected {
                        Err(PoolError::InvalidArgument)
                    } else if pool.data@.subrange(98, 130) != bank.key@ {
                        Err(PoolError::InvalidArgument)
                    } else {
                        Ok(Transition::Swap {
                            transfer: TransferRequest {
                                source: sender.key,
                                destination: bank.key,
                                authority: user_authority.key,
                                signer_pool: pool.key,
                                signer_bump: pool.data@[33],
                                amount: amount_in,
                            },
                            mint_to: MintToRequest {
                                mint: pool_mint.key,
                                destination: recipient.key,
                                authority: pool_authority.key,
                                signer_pool: pool.key,
                                signer_bump: pool.data@[33],
                                amount: spec_swap_mint_amount(amount_in),
                            },
                        })
                    }
                },
            }
        }
    }
}

/// The verdict and effects of any request: decode the payload, then run the
/// variant's checks.
pub open spec fn spec_process_instruction(
    program_id: Address,
    accounts: Seq<AccountView>,
    input: Seq<u8>,
) -> Result<Transition, PoolError> {
    match spec_decode_instruction(input) {
        None => Err(PoolError::InvalidInstructionData),
        Some(PoolInstruction::Initialize) => spec_process_initialize(program_id, accounts),
        Some(PoolInstruction::Swap { amount_in }) => spec_process_swap(
            program_id,
            accounts,
            amount_in,
        ),
    }
}

/// Runs the `Initialize` checks and computes the creation transition.
fn process_initialize(program_id: &Address, accounts: &Vec<AccountView>) -> (r: Result<
    Transition,
    PoolError,
>)
    ensures
        r == spec_process_initialize(*program_id, accounts@),
{
    if accounts.len() < 6 {
        return Err(PoolError::NotEnoughAccountKeys);
    }
    let pool = &accounts[0];
    let authority = &accounts[1];
    let bank_mint = &accounts[2];
    let pool_mint = &accounts[3];
    let bank = &accounts[4];
    let rent_oracle = &accounts[5];
    if !address_eq(&rent_oracle.key, &crate::instruction::rent_sysvar_id()) {
        return Err(PoolError::InvalidArgument);
    }
    if !address_eq(&pool.owner, program_id) {
        return Err(PoolError::IncorrectProgramId);
    }
    let record = match decode_record(&pool.data) {
        Err(e) => {
            return Err(e);
        },
        Ok(record) => record,
    };
    if record.version != 0 {
        return Err(PoolError::AccountAlreadyInitialized);
    }
    if bank_mint.data.len() < MINT_RECORD_LEN {
        return Err(PoolError::InvalidAccountData);
    }
    let (mint_initialized, decimals) = match unpack_mint_fields(&bank_mint.data) {
        Err(e) => {
            return Err(e);
        },
        Ok(fields) => fields,
    };
    if !mint_initialized {
        return Err(PoolError::UninitializedAccount);
    }
    if !(pool.rent_exempt && bank.rent_exempt && pool_mint.rent_exempt) {
        return Err(PoolError::AccountNotRentExempt);
    }
    let (found_authority, bump_seed) = match find_authority_bump_seed(program_id, &pool.key) {
        None => {
            return Err(PoolError::InvalidSeeds);
        },
        Some(found) => found,
    };
    if !address_eq(&found_authority, &authority.key) {
        return Err(PoolError::InvalidArgument);
    }
    let init_account = spl_initialize_account(&bank.key, &bank_mint.key, &authority.key);
    let init_mint = spl_initialize_mint(&pool_mint.key, &authority.key, decimals);
    let record = PoolData {
        version: PoolData::CURRENT_VERSION,
        authority: authority.key,
        bump_seed,
        bank_mint: bank_mint.key,
        pool_mint: pool_mint.key,
        bank: bank.key,
    };
    Ok(Transition::Initialize { init_account, init_mint, pool: pool.key, record })
}

/// Runs the `Swap` checks and computes the two token-service requests.
fn process_swap(program_id: &Address, accounts: &Vec<AccountView>, amount_in: u64) -> (r: Result<
    Transition,
    PoolError,
>)
    ensures
        r == spec_process_swap(*program_id, accounts@, amount_in),
{
    if accounts.len() < 7 {
        return Err(PoolError::NotEnoughAccountKeys);
    }
    let pool = &accounts[0];
    let pool_authority = &accounts[1];
    let user_authority = &accounts[2];
    let pool_mint = &accounts[3];
    let bank = &accounts[4];
    let sender = &accounts[5];
    let recipient = &accounts[6];
    let record = match decode_record(&pool.data) {
        Err(e) => {
            return Err(e);
        },
        Ok(record) => record,
    };
    if !record.is_initialized() {
        return Err(PoolError::UninitializedAccount);
    }
    match record.check_authority(&pool_authority.key, program_id, &pool.key) {
        Err(e) => {
            return Err(e);
        },
        Ok(()) => {},
    }
    if !address_eq(&record.bank, &bank.key) {
        return Err(PoolError::InvalidArgument);
    }
    let transfer = spl_token_transfer(
        &pool.key,
        &sender.key,
        &bank.key,
        &user_authority.key,
        record.bump_seed,
        amount_in,
    );
    assert(amount_in * (PoolData::MINT_MULTIPLIER as u64) == amount_in);
    let amount_out = amount_in * (PoolData::MINT_MULTIPLIER as u64);
    let mint_to = spl_token_mint_to(
        &pool.key,
        &pool_mint.key,
        &recipient.key,
        &pool_authority.key,
        record.bump_seed,
        amount_out,
    );
    Ok(Transition::Swap { transfer, mint_to })
}

/// Processes one instruction: decodes the payload, validates every
/// precondition of the decoded variant, and returns the transition to apply,
/// or the first failed check's error and no transition.
pub fn process_instruction(program_id: &Address, accounts: &Vec<AccountView>, input: &Vec<u8>) -> (r:
    Result<Transition, PoolError>)
    ensures
        r == spec_process_instruction(*program_id, accounts@, input@),
{
    match decode_instruction(input) {
        Err(e) => Err(e),
        Ok(PoolInstruction::Initialize) => process_initialize(program_id, accounts),
        Ok(PoolInstruction::Swap { amount_in }) => process_swap(program_id, accounts, amount_in),
    }
}

/// Single initialization: running `Initialize` against a pool account that
/// already holds an initialized record fails with the already-initialized
/// error, whatever else is supplied, so the record written first stays.
pub proof fn lemma_single_initialization(
    program_id: Address,
    accounts: Seq<AccountView>,
    record: PoolData,
)
    requires
        accounts.len() >= 6,
        accounts[5].key@ == spec_rent_sysvar_id(),
        accounts[0].owner@ == program_id@,
        accounts[0].data@ == crate::state::spec_encode_record(record),
        record.spec_is_initialized(),
    ensures
        spec_process_initialize(program_id, accounts) == Err::<Transition, PoolError>(
            PoolError::AccountAlreadyInitialized,
        ),
{
    crate::state::lemma_encode_record_fields(record);
}

/// Uninitialized-mint rejection: `Initialize` with an incoming mint whose
/// record parses but carries a cleared initialization flag fails with the
/// uninitialized-account error, so no service account is created.
pub proof fn lemma_uninitialized_mint_rejected(
    program_id: Address,
    accounts: Seq<AccountView>,
    decimals: u8,
)
    requires
        accounts.len() >= 6,
        accounts[5].key@ == spec_rent_sysvar_id(),
        accounts[0].owner@ == program_id@,
        accounts[0].data@.len() == RECORD_LEN,
        accounts[0].data@[0] == 0u8,
        accounts[2].data@.len() >= MINT_RECORD_LEN,
        spec_mint_fields(accounts[2].data@) == Some((false, decimals)),
    ensures
        spec_process_initialize(program_id, accounts) == Err::<Transition, PoolError>(
            PoolError::UninitializedAccount,
        ),
{
}

/// Authority forgery resistance: a swap whose supplied authority account is
/// any address other than the one derived from the program id, the pool
/// address and the stored bump seed is rejected with the authority-mismatch
/// error, so no transition is produced and no balance can change.
pub proof fn lemma_authority_forgery_rejected(
    program_id: Address,
    accounts: Seq<AccountView>,
    amount_in: u64,
    expected: Seq<u8>,
)
    requires
        accounts.len() >= 7,
        accounts[0].data@.len() == RECORD_LEN,
        accounts[0].data@[0] == PoolData::CURRENT_VERSION,
        derived_address(accounts[0].key@, accounts[0].data@[33], program_id@) == Some(expected),
        accounts[1].key@ != expected,
    ensures
        spec_process_swap(program_id, accounts, amount_in) == Err::<Transition, PoolError>(
            PoolError::InvalidArgument,
        ),
{
}

/// The requests of a successful swap, read off the pool record the pool
/// account carries: the transfer moves exactly `amount_in` from the sender
/// account into the stored reserve, and the mint request mints exactly
/// `amount_in * MINT_MULTIPLIER` pool tokens to the recipient account.
pub proof fn lemma_swap_effects(
    program_id: Address,
    accounts: Seq<AccountView>,
    amount_in: u64,
    record: PoolData,
    t: Transition,
)
    requires
        spec_process_swap(program_id, accounts, amount_in) == Ok::<Transition, PoolError>(t),
        accounts.len() >= 7,
        spec_record_fields(accounts[0].data@, record),
    ensures
        t matches Transition::Swap { transfer, mint_to } && {
            &&& transfer.amount == amount_in
            &&& mint_to.amount == amount_in * (PoolData::MINT_MULTIPLIER as u64)
            &&& transfer.source == accounts[5].key
            &&& transfer.destination == accounts[4].key
            &&& transfer.destination@ == record.bank@
            &&& transfer.authority == accounts[2].key
            &&& mint_to.mint == accounts[3].key
            &&& mint_to.destination == accounts[6].key
            &&& mint_to.signer_bump == record.bump_seed
        },
{
    assert(accounts[0].data@.subrange(98, 130) == record.bank@);
}

} // verus!
