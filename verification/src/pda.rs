//! Deterministic authority derivation. The authority of a pool is an address
//! with no private key, computed by the host's program-address derivation
//! from the pool's own address, a one-byte bump seed, and this program's id.
//! Only the derivation result is taken on trust; the bump search order and
//! everything built on it is stated and proved here.

use vstd::prelude::*;

use crate::addr::Address;

verus! {

/// Address that the host's program-address derivation yields for the seed
/// pair (pool address, bump byte) under the given program id; `None` when the
/// host rejects the pair because the derived bytes form a curve point (such
/// an address would have a private key).
pub uninterp spec fn derived_address(pool: Seq<u8>, bump: u8, program_id: Seq<u8>) -> Option<
    Seq<u8>,
>;

/// The result of the host's bump search started at `bump`: the first bump
/// from `bump` downward, stopping above zero, whose derived address is
/// off-curve, together with that address.
pub open spec fn spec_find_bump(pool: Seq<u8>, program_id: Seq<u8>, bump: u8) -> Option<
    (Seq<u8>, u8),
>
    decreases bump,
{
    match derived_address(pool, bump, program_id) {
        Some(a) => Some((a, bump)),
        None => if bump <= 1 {
            None
        } else {
            spec_find_bump(pool, program_id, (bump - 1) as u8)
        },
    }
}

/// Relies on solana_program's `Pubkey::create_program_address` with the seed
/// pair (pool bytes, bump byte): a pure function of its arguments that
/// returns the derived address, or `Err(InvalidSeeds)` exactly when the
/// derived bytes are a curve point. With two seeds of 32 and one byte the
/// seed-length limits cannot be hit.
#[verifier::external_body]
pub(crate) fn create_pool_authority(pool: &Address, bump: u8, program_id: &Address) -> (r: Option<
    Address,
>)
    ensures
        r matches Some(a) ==> derived_address(pool@, bump, program_id@) == Some(a@),
        r is None ==> derived_address(pool@, bump, program_id@) is None,
{
    let pool_pk = solana_program::pubkey::Pubkey::new_from_array(pool.bytes);
    let program_pk = solana_program::pubkey::Pubkey::new_from_array(program_id.bytes);
    match solana_program::pubkey::Pubkey::create_program_address(
        &[&pool_pk.to_bytes()[..32], &[bump]],
        &program_pk,
    ) {
        Ok(a) => Some(Address { bytes: a.to_bytes() }),
        Err(_) => None,
    }
}

/// Relies on solana_program's `Pubkey::try_find_program_address` with the
/// single seed (pool bytes): it appends a bump byte, tries 255 down to 1, and
/// returns the first derived address that is off-curve, with its bump.
#[verifier::external_body]
fn try_find_pool_authority(pool: &Address, program_id: &Address) -> (r: Option<(Address, u8)>)
    ensures
        r matches Some(p) ==> spec_find_bump(pool@, program_id@, 255) == Some((p.0@, p.1)),
        r is None ==> spec_find_bump(pool@, program_id@, 255) is None,
{
    let pool_pk = solana_program::pubkey::Pubkey::new_from_array(pool.bytes);
    let program_pk = solana_program::pubkey::Pubkey::new_from_array(program_id.bytes);
    solana_program::pubkey::Pubkey::try_find_program_address(
        &[&pool_pk.to_bytes()[..32]],
        &program_pk,
    ).map(|(a, bump)| (Address { bytes: a.to_bytes() }, bump))
}

/// Searches for the canonical (highest) bump seed of a pool and the authority
/// address it derives; `None` in the statistically improbable event that no
/// bump byte derives an off-curve address.
pub fn find_authority_bump_seed(program_id: &Address, pool: &Address) -> (r: Option<(Address, u8)>)
    ensures
        r matches Some(p) ==> spec_find_bump(pool@, program_id@, 255) == Some((p.0@, p.1))
            && derived_address(pool@, p.1, program_id@) == Some(p.0@),
        r is None ==> spec_find_bump(pool@, program_id@, 255) is None,
{
    let r = try_find_pool_authority(pool, program_id);
    proof {
        lemma_find_bump_valid(pool@, program_id@, 255);
    }
    r
}

/// The bump the search returns does derive the address the search returns.
pub proof fn lemma_find_bump_valid(pool: Seq<u8>, program_id: Seq<u8>, start: u8)
    ensures
        spec_find_bump(pool, program_id, start) matches Some(p) ==> derived_address(
            pool,
            p.1,
            program_id,
        ) == Some(p.0),
    decreases start,
{
    match derived_address(pool, start, program_id) {
        Some(a) => {},
        None => {
            if start > 1 {
                lemma_find_bump_valid(pool, program_id, (start - 1) as u8);
            }
        },
    }
}

/// The search returns the canonical bump: no higher bump, up to where the
/// search started, derives an off-curve address.
pub proof fn lemma_find_bump_canonical(pool: Seq<u8>, program_id: Seq<u8>, start: u8)
    ensures
        spec_find_bump(pool, program_id, start) matches Some(p) ==> forall|b: u8|
            p.1 < b <= start ==> derived_address(pool, b, program_id) is None,
    decreases start,
{
    match derived_address(pool, start, program_id) {
        Some(a) => {},
        None => {
            if start > 1 {
                lemma_find_bump_canonical(pool, program_id, (start - 1) as u8);
            }
        },
    }
}

} // verus!
