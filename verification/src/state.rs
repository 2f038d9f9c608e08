//! The pool's persisted state record: a fixed-order, fixed-width byte layout
//! with no padding, written once when a pool is created and read on every
//! swap, together with the authority check that swaps perform against it.

use vstd::prelude::*;

use crate::addr::{address_eq, lemma_address_view_injective, push_address, read_address, Address};
use crate::error::PoolError;
use crate::pda::{create_pool_authority, derived_address};

verus! {

/// Packed byte length of a pool record: version, authority, bump seed, and
/// the three account addresses of the pool's asset triple.
pub const RECORD_LEN: usize = 130;

/// One pool instance's persisted record.
#[derive(Clone, Copy, Debug, PartialEq, Eq)]
pub struct PoolData {
    /// Layout version; zero means uninitialized, [`PoolData::CURRENT_VERSION`]
    /// means the current layout. No other value is legal to read.
    pub version: u8,
    /// The derived authority recorded at creation, kept for auditability.
    pub authority: Address,
    /// The seed byte that, with the pool's own address, derives the authority.
    pub bump_seed: u8,
    /// Mint of the tokens the pool takes in.
    pub bank_mint: Address,
    /// Mint of the tokens the pool issues.
    pub pool_mint: Address,
    /// The reserve account holding the deposited tokens.
    pub bank: Address,
}

impl PoolData {
    /// Version written into newly created records.
    pub const CURRENT_VERSION: u8 = 1;

    /// Pool tokens minted per deposited bank token.
    pub const MINT_MULTIPLIER: u8 = 1;

    /// Whether the record carries the current layout version.
    pub open spec fn spec_is_initialized(&self) -> bool {
        self.version == PoolData::CURRENT_VERSION
    }

    /// Whether the record carries the current layout version.
    pub fn is_initialized(&self) -> (r: bool)
        ensures
            r == self.spec_is_initialized(),
    {
        self.version == PoolData::CURRENT_VERSION
    }

    /// The verdict of the authority check: the supplied address must equal
    /// the one derived from the pool address and the stored bump seed.
    pub open spec fn spec_check_authority(
        &self,
        authority_address: Address,
        program_id: Address,
        pool: Address,
    ) -> Result<(), PoolError> {
        match derived_address(pool@, self.bump_seed, program_id@) {
            None => Err(PoolError::InvalidSeeds),
            Some(expected) => if authority_address@ == expected {
                Ok(())
            } else {
                Err(PoolError::InvalidArgument)
            },
        }
    }

    /// Checks that a supplied authority is the one the stored bump seed
    /// derives for this pool.
    pub fn check_authority(
        &self,
        authority_address: &Address,
        program_id: &Address,
        pool: &Address,
    ) -> (r: Result<(), PoolError>)
        ensures
            r == self.spec_check_authority(*authority_address, *program_id, *pool),
    {
        match create_pool_authority(pool, self.bump_seed, program_id) {
            None => Err(PoolError::InvalidSeeds),
            Some(expected) => {
                if address_eq(authority_address, &expected) {
                    Ok(())
                } else {
                    Err(PoolError::InvalidArgument)
                }
            },
        }
    }
}

/// The packed encoding of a record: each field in declaration order, no
/// padding.
pub open spec fn spec_encode_record(p: PoolData) -> Seq<u8> {
    seq![p.version] + p.authority@ + seq![p.bump_seed] + p.bank_mint@ + p.pool_mint@ + p.bank@
}

/// How a record's fields sit in a 130-byte buffer.
pub open spec fn spec_record_fields(data: Seq<u8>, p: PoolData) -> bool {
    &&& p.version == data[0]
    &&& p.authority@ == data.subrange(1, 33)
    &&& p.bump_seed == data[33]
    &&& p.bank_mint@ == data.subrange(34, 66)
    &&& p.pool_mint@ == data.subrange(66, 98)
    &&& p.bank@ == data.subrange(98, 130)
}

/// Packs a record into its 130 bytes.
pub fn encode_record(p: &PoolData) -> (r: Vec<u8>)
    ensures
        r@ == spec_encode_record(*p),
        r@.len() == RECORD_LEN,
{
    let mut out: Vec<u8> = Vec::new();
    out.push(p.version);
    push_address(&mut out, &p.authority);
    out.push(p.bump_seed);
    push_address(&mut out, &p.bank_mint);
    push_address(&mut out, &p.pool_mint);
    push_address(&mut out, &p.bank);
    proof {
        assert(out@ =~= spec_encode_record(*p));
    }
    out
}

/// Unpacks a record from a buffer; rejects any length but the packed one.
pub fn decode_record(data: &Vec<u8>) -> (r: Result<PoolData, PoolError>)
    ensures
        data@.len() == RECORD_LEN ==> (r matches Ok(p) && spec_record_fields(data@, p)),
        data@.len() != RECORD_LEN ==> r == Err::<PoolData, PoolError>(PoolError::InvalidAccountData),
{
    if data.len() != RECORD_LEN {
        return Err(PoolError::InvalidAccountData);
    }
    let version = data[0];
    let authority = read_address(data, 1);
    let bump_seed = data[33];
    let bank_mint = read_address(data, 34);
    let pool_mint = read_address(data, 66);
    let bank = read_address(data, 98);
    Ok(PoolData { version, authority, bump_seed, bank_mint, pool_mint, bank })
}

/// An encoded record is 130 bytes and holds exactly the record's fields.
pub proof fn lemma_encode_record_fields(p: PoolData)
    ensures
        spec_encode_record(p).len() == RECORD_LEN,
        spec_record_fields(spec_encode_record(p), p),
{
    let data = spec_encode_record(p);
    assert(p.authority@ =~= data.subrange(1, 33));
    assert(p.bank_mint@ =~= data.subrange(34, 66));
    assert(p.pool_mint@ =~= data.subrange(66, 98));
    assert(p.bank@ =~= data.subrange(98, 130));
}

/// A 130-byte buffer determines the record: two records read from the same
/// bytes are the same record.
pub proof fn lemma_record_fields_unique(data: Seq<u8>, p1: PoolData, p2: PoolData)
    requires
        spec_record_fields(data, p1),
        spec_record_fields(data, p2),
    ensures
        p1 == p2,
{
    lemma_address_view_injective(p1.authority, p2.authority);
    lemma_address_view_injective(p1.bank_mint, p2.bank_mint);
    lemma_address_view_injective(p1.pool_mint, p2.pool_mint);
    lemma_address_view_injective(p1.bank, p2.bank);
}

/// Round trip: a record read back from its own encoding is the record itself,
/// and any buffer a record reads from is reproduced byte for byte by packing
/// that record.
pub proof fn lemma_record_round_trip(data: Seq<u8>, p: PoolData)
    requires
        data.len() == RECORD_LEN,
        spec_record_fields(data, p),
    ensures
        spec_encode_record(p) == data,
{
    assert(spec_encode_record(p) =~= data);
}

} // verus!
