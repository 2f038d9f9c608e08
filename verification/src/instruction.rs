//! The instruction codec: the closed set of requests this program accepts,
//! their byte encoding (a one-byte variant tag followed by the variant's
//! little-endian fields), and builders for the full request shapes with the
//! account references in the exact order the transition function reads them.

use vstd::prelude::*;

use crate::addr::Address;
use crate::error::PoolError;

verus! {

use vstd::bytes::{
    lemma_auto_spec_u64_to_from_le_bytes,
    spec_u64_from_le_bytes,
    spec_u64_to_le_bytes,
    u64_from_le_bytes,
    u64_to_le_bytes,
};
use vstd::slice::slice_subrange;

/// Requests the transition function understands.
#[derive(Clone, Copy, Debug, PartialEq, Eq, Structural)]
pub enum PoolInstruction {
    /// Create a pool: write its state record and set up its reserve account
    /// and its pool mint.
    Initialize,
    /// Deposit bank tokens into the reserve and receive pool tokens.
    Swap {
        /// Amount of bank tokens moved from the sender into the reserve.
        amount_in: u64,
    },
}

/// The byte encoding of an instruction: the variant tag, then the fields.
pub open spec fn spec_encode_instruction(i: PoolInstruction) -> Seq<u8> {
    match i {
        PoolInstruction::Initialize => seq![0u8],
        PoolInstruction::Swap { amount_in } => seq![1u8] + spec_u64_to_le_bytes(amount_in),
    }
}

/// The decoding of a payload: the unique instruction it encodes, or `None`
/// for an unknown tag, a truncated payload, or trailing bytes.
pub open spec fn spec_decode_instruction(data: Seq<u8>) -> Option<PoolInstruction> {
    if data.len() == 1 && data[0] == 0u8 {
        Some(PoolInstruction::Initialize)
    } else if data.len() == 9 && data[0] == 1u8 {
        Some(PoolInstruction::Swap { amount_in: spec_u64_from_le_bytes(data.subrange(1, 9)) })
    } else {
        None
    }
}

/// Encodes an instruction to its wire bytes.
pub fn encode_instruction(i: &PoolInstruction) -> (r: Vec<u8>)
    ensures
        r@ == spec_encode_instruction(*i),
{
    match i {
        PoolInstruction::Initialize => {
            let mut v: Vec<u8> = Vec::new();
            v.push(0u8);
            proof {
                assert(v@ =~= spec_encode_instruction(PoolInstruction::Initialize));
            }
            v
        },
        PoolInstruction::Swap { amount_in } => {
            let mut v: Vec<u8> = Vec::new();
            v.push(1u8);
            let mut tail = u64_to_le_bytes(*amount_in);
            v.append(&mut tail);
            proof {
                assert(v@ =~= spec_encode_instruction(
                    PoolInstruction::Swap { amount_in: *amount_in },
                ));
            }
            v
        },
    }
}

/// Decodes a payload; rejects anything that does not parse, before any
/// account is touched.
pub fn decode_instruction(data: &Vec<u8>) -> (r: Result<PoolInstruction, PoolError>)
    ensures
        r == (match spec_decode_instruction(data@) {
            Some(i) => Ok::<PoolInstruction, PoolError>(i),
            None => Err::<PoolInstruction, PoolError>(PoolError::InvalidInstructionData),
        }),
{
    if data.len() == 1 && data[0] == 0u8 {
        Ok(PoolInstruction::Initialize)
    } else if data.len() == 9 && data[0] == 1u8 {
        let amount_in = u64_from_le_bytes(slice_subrange(data.as_slice(), 1, 9));
        Ok(PoolInstruction::Swap { amount_in })
    } else {
        Err(PoolError::InvalidInstructionData)
    }
}

/// Round trip: decoding an encoded instruction yields the instruction back,
/// for every variant and every field value.
pub proof fn lemma_instruction_round_trip(i: PoolInstruction)
    ensures
        spec_decode_instruction(spec_encode_instruction(i)) == Some(i),
{
    lemma_auto_spec_u64_to_from_le_bytes();
    match i {
        PoolInstruction::Initialize => {},
        PoolInstruction::Swap { amount_in } => {
            let data = spec_encode_instruction(i);
            assert(data.subrange(1, 9) =~= spec_u64_to_le_bytes(amount_in));
        },
    }
}

/// Encoding is the exact inverse of decoding: any payload that decodes is
/// reproduced byte for byte by encoding the result.
pub proof fn lemma_instruction_decode_encode(data: Seq<u8>)
    ensures
        spec_decode_instruction(data) matches Some(i) ==> spec_encode_instruction(i) == data,
{
    lemma_auto_spec_u64_to_from_le_bytes();
    match spec_decode_instruction(data) {
        Some(i) => {
            match i {
                PoolInstruction::Initialize => {
                    assert(spec_encode_instruction(i) =~= data);
                },
                PoolInstruction::Swap { amount_in } => {
                    assert(spec_u64_to_le_bytes(spec_u64_from_le_bytes(data.subrange(1, 9)))
                        == data.subrange(1, 9));
                    assert(spec_encode_instruction(i) =~= data);
                },
            }
        },
        None => {},
    }
}

/// One account reference of a built request: the address, whether its holder
/// must co-sign the request, and whether the transition may write to it.
#[derive(Clone, Copy, Debug, PartialEq, Eq)]
pub struct AccountMeta {
    /// The referenced account.
    pub pubkey: Address,
    /// Whether the account's holder must co-sign.
    pub is_signer: bool,
    /// Whether the transition may write to the account.
    pub is_writable: bool,
}

/// A request ready for submission: the program to run, the account
/// references in the order the transition function reads them, and the
/// encoded payload.
#[derive(Clone, Debug, PartialEq, Eq)]
pub struct Instruction {
    /// The program asked to run.
    pub program_id: Address,
    /// The account references, in the transition function's read order.
    pub accounts: Vec<AccountMeta>,
    /// The encoded instruction payload.
    pub data: Vec<u8>,
}

/// The account references an `Initialize` request carries, in order: pool
/// (writable signer), derived authority, incoming mint, pool mint (writable),
/// reserve (writable), the rent-exemption oracle, and the token service.
pub open spec fn spec_initialize_accounts(
    pool: Address,
    authority: Address,
    bank_mint: Address,
    pool_mint: Address,
    bank: Address,
    rent_oracle: Address,
    token_service: Address,
) -> Seq<AccountMeta> {
    seq![
        AccountMeta { pubkey: pool, is_signer: true, is_writable: true },
        AccountMeta { pubkey: authority, is_signer: false, is_writable: false },
        AccountMeta { pubkey: bank_mint, is_signer: false, is_writable: false },
        AccountMeta { pubkey: pool_mint, is_signer: false, is_writable: true },
        AccountMeta { pubkey: bank, is_signer: false, is_writable: true },
        AccountMeta { pubkey: rent_oracle, is_signer: false, is_writable: false },
        AccountMeta { pubkey: token_service, is_signer: false, is_writable: false },
    ]
}

/// Builds an `Initialize` request against this program.
pub fn initialize(
    program_id: &Address,
    pool: &Address,
    authority: &Address,
    bank_mint: &Address,
    pool_mint: &Address,
    bank: &Address,
) -> (r: Instruction)
    ensures
        r.program_id == *program_id,
        r.accounts@ == spec_initialize_accounts(
            *pool,
            *authority,
            *bank_mint,
            *pool_mint,
            *bank,
            rent_sysvar_address(),
            token_service_address(),
        ),
        r.data@ == spec_encode_instruction(PoolInstruction::Initialize),
{
    let mut accounts: Vec<AccountMeta> = Vec::new();
    accounts.push(AccountMeta { pubkey: *pool, is_signer: true, is_writable: true });
    accounts.push(AccountMeta { pubkey: *authority, is_signer: false, is_writable: false });
    accounts.push(AccountMeta { pubkey: *bank_mint, is_signer: false, is_writable: false });
    accounts.push(AccountMeta { pubkey: *pool_mint, is_signer: false, is_writable: true });
    accounts.push(AccountMeta { pubkey: *bank, is_signer: false, is_writable: true });
    accounts.push(AccountMeta { pubkey: rent_sysvar_id(), is_signer: false, is_writable: false });
    accounts.push(
        AccountMeta { pubkey: token_service_id(), is_signer: false, is_writable: false },
    );
    let data = encode_instruction(&PoolInstruction::Initialize);
    proof {
        assert(accounts@ =~= spec_initialize_accounts(
            *pool,
            *authority,
            *bank_mint,
            *pool_mint,
            *bank,
            rent_sysvar_address(),
            token_service_address(),
        ));
    }
    Instruction { program_id: *program_id, accounts, data }
}

/// The account references a `Swap` request carries, in order: pool, derived
/// authority, the user's transfer authority (co-signer), pool mint
/// (writable), reserve (writable), sender (writable), recipient (writable),
/// and the token service.
pub open spec fn spec_swap_accounts(
    pool: Address,
    pool_authority: Address,
    user_transfer_authority: Address,
    pool_mint: Address,
    bank: Address,
    sender: Address,
    recipient: Address,
    token_service: Address,
) -> Seq<AccountMeta> {
    seq![
        AccountMeta { pubkey: pool, is_signer: false, is_writable: false },
        AccountMeta { pubkey: pool_authority, is_signer: false, is_writable: false },
        AccountMeta { pubkey: user_transfer_authority, is_signer: true, is_writable: false },
        AccountMeta { pubkey: pool_mint, is_signer: false, is_writable: true },
        AccountMeta { pubkey: bank, is_signer: false, is_writable: true },
        AccountMeta { pubkey: sender, is_signer: false, is_writable: true },
        AccountMeta { pubkey: recipient, is_signer: false, is_writable: true },
        AccountMeta { pubkey: token_service, is_signer: false, is_writable: false },
    ]
}

/// Builds a `Swap` request against this program.
pub fn swap(
    program_id: &Address,
    pool: &Address,
    pool_authority: &Address,
    user_transfer_authority: &Address,
    pool_mint: &Address,
    bank: &Address,
    sender: &Address,
    recipient: &Address,
    amount_in: u64,
) -> (r: Instruction)
    ensures
        r.program_id == *program_id,
        r.accounts@ == spec_swap_accounts(
            *pool,
            *pool_authority,
            *user_transfer_authority,
            *pool_mint,
            *bank,
            *sender,
            *recipient,
            token_service_address(),
        ),
        r.data@ == spec_encode_instruction(PoolInstruction::Swap { amount_in }),
{
    let mut accounts: Vec<AccountMeta> = Vec::new();
    accounts.push(AccountMeta { pubkey: *pool, is_signer: false, is_writable: false });
    accounts.push(AccountMeta { pubkey: *pool_authority, is_signer: false, is_writable: false });
    accounts.push(
        AccountMeta { pubkey: *user_transfer_authority, is_signer: true, is_writable: false },
    );
    accounts.push(AccountMeta { pubkey: *pool_mint, is_signer: false, is_writable: true });
    accounts.push(AccountMeta { pubkey: *bank, is_signer: false, is_writable: true });
    accounts.push(AccountMeta { pubkey: *sender, is_signer: false, is_writable: true });
    accounts.push(AccountMeta { pubkey: *recipient, is_signer: false, is_writable: true });
    accounts.push(
        AccountMeta { pubkey: token_service_id(), is_signer: false, is_writable: false },
    );
    let data = encode_instruction(&PoolInstruction::Swap { amount_in });
    proof {
        assert(accounts@ =~= spec_swap_accounts(
            *pool,
            *pool_authority,
            *user_transfer_authority,
            *pool_mint,
            *bank,
            *sender,
            *recipient,
            token_service_address(),
        ));
    }
    Instruction { program_id: *program_id, accounts, data }
}

/// The bytes of the host's rent-exemption oracle address.
pub open spec fn spec_rent_sysvar_id() -> Seq<u8> {
    seq![
        6u8, 167u8, 213u8, 23u8, 25u8, 44u8, 92u8, 81u8, 33u8, 140u8, 201u8, 76u8, 61u8, 74u8,
        241u8, 127u8, 88u8, 218u8, 238u8, 8u8, 155u8, 161u8, 253u8, 68u8, 227u8, 219u8, 217u8,
        138u8, 0u8, 0u8, 0u8, 0u8,
    ]
}

/// The rent-exemption oracle address as a value.
pub open spec fn rent_sysvar_address() -> Address {
    Address { bytes: [
        6u8, 167u8, 213u8, 23u8, 25u8, 44u8, 92u8, 81u8, 33u8, 140u8, 201u8, 76u8, 61u8, 74u8,
        241u8, 127u8, 88u8, 218u8, 238u8, 8u8, 155u8, 161u8, 253u8, 68u8, 227u8, 219u8, 217u8,
        138u8, 0u8, 0u8, 0u8, 0u8,
    ] }
}

/// The host's rent-exemption oracle address.
pub fn rent_sysvar_id() -> (r: Address)
    ensures
        r == rent_sysvar_address(),
        r@ == spec_rent_sysvar_id(),
{
    let r = Address::new(
        [
            6u8, 167u8, 213u8, 23u8, 25u8, 44u8, 92u8, 81u8, 33u8, 140u8, 201u8, 76u8, 61u8, 74u8,
            241u8, 127u8, 88u8, 218u8, 238u8, 8u8, 155u8, 161u8, 253u8, 68u8, 227u8, 219u8, 217u8,
            138u8, 0u8, 0u8, 0u8, 0u8,
        ],
    );
    proof {
        assert(r@ =~= spec_rent_sysvar_id());
        assert(r.bytes =~= rent_sysvar_address().bytes);
    }
    r
}

/// The bytes of the external token service's address.
pub open spec fn spec_token_service_id() -> Seq<u8> {
    seq![
        6u8, 221u8, 246u8, 225u8, 215u8, 101u8, 161u8, 147u8, 217u8, 203u8, 225u8, 70u8, 206u8,
        235u8, 121u8, 172u8, 28u8, 180u8, 133u8, 237u8, 95u8, 91u8, 55u8, 145u8, 58u8, 140u8,
        245u8, 133u8, 126u8, 255u8, 0u8, 169u8,
    ]
}

/// The external token service's address as a value.
pub open spec fn token_service_address() -> Address {
    Address { bytes: [
        6u8, 221u8, 246u8, 225u8, 215u8, 101u8, 161u8, 147u8, 217u8, 203u8, 225u8, 70u8, 206u8,
        235u8, 121u8, 172u8, 28u8, 180u8, 133u8, 237u8, 95u8, 91u8, 55u8, 145u8, 58u8, 140u8,
        245u8, 133u8, 126u8, 255u8, 0u8, 169u8,
    ] }
}

/// The external token service's address.
pub fn token_service_id() -> (r: Address)
    ensures
        r == token_service_address(),
        r@ == spec_token_service_id(),
{
    let r = Address::new(
        [
            6u8, 221u8, 246u8, 225u8, 215u8, 101u8, 161u8, 147u8, 217u8, 203u8, 225u8, 70u8,
            206u8, 235u8, 121u8, 172u8, 28u8, 180u8, 133u8, 237u8, 95u8, 91u8, 55u8, 145u8, 58u8,
            140u8, 245u8, 133u8, 126u8, 255u8, 0u8, 169u8,
        ],
    );
    proof {
        assert(r@ =~= spec_token_service_id());
        assert(r.bytes =~= token_service_address().bytes);
    }
    r
}

} // verus!
