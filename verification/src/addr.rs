//! Account addresses: the 32-byte identifiers under which the host ledger
//! stores every account this program reads or writes.

use vstd::prelude::*;

verus! {

broadcast use vstd::array::group_array_axioms;

/// Number of bytes in an account address.
pub const ADDRESS_LEN: usize = 32;

/// A 32-byte account address, as the host ledger identifies storage slots.
///
/// The derived `PartialEq` is for unverified callers and tests; verified code
/// compares addresses with [`address_eq`], whose contract speaks of the views.
#[derive(Clone, Copy, Debug, PartialEq, Eq)]
pub struct Address {
    /// The raw address bytes.
    pub bytes: [u8; 32],
}

impl View for Address {
    type V = Seq<u8>;

    open spec fn view(&self) -> Seq<u8> {
        self.bytes@
    }
}

impl Address {
    /// Wraps 32 raw bytes as an address.
    pub fn new(bytes: [u8; 32]) -> (r: Address)
        ensures
            r@ == bytes@,
    {
        Address { bytes }
    }

    /// Builds an address from a byte vector; rejects any length but 32.
    pub fn from_bytes(v: &Vec<u8>) -> (r: Option<Address>)
        ensures
            v@.len() == 32 ==> (r matches Some(a) && a@ == v@),
            v@.len() != 32 ==> r is None,
    {
        if v.len() == ADDRESS_LEN {
            let a = read_address(v, 0);
            proof {
                assert(a@ =~= v@);
            }
            Some(a)
        } else {
            None
        }
    }
}

/// Two addresses with the same bytes are the same address.
pub proof fn lemma_address_view_injective(a: Address, b: Address)
    requires
        a@ == b@,
    ensures
        a == b,
{
    assert(a.bytes =~= b.bytes);
}

/// True exactly when the two addresses hold the same bytes.
pub fn address_eq(a: &Address, b: &Address) -> (r: bool)
    ensures
        r == (a@ == b@),
{
    let mut i: usize = 0;
    while i < 32
        invariant
            0 <= i <= 32,
            forall|j: int| 0 <= j < i ==> a.bytes@[j] == b.bytes@[j],
        decreases 32 - i,
    {
        if a.bytes[i] != b.bytes[i] {
            assert(a@[i as int] != b@[i as int]);
            return false;
        }
        i += 1;
    }
    proof {
        assert(a@ =~= b@);
    }
    true
}

/// Reads the 32 bytes at `off` out of `v` as an address.
pub fn read_address(v: &Vec<u8>, off: usize) -> (r: Address)
    requires
        off + 32 <= v.len(),
    ensures
        r@ == v@.subrange(off as int, off as int + 32),
{
    let mut bytes: [u8; 32] = [0u8; 32];
    let mut i: usize = 0;
    while i < 32
        invariant
            0 <= i <= 32,
            off + 32 <= v.len(),
            forall|j: int| 0 <= j < i ==> bytes@[j] == v@[off + j],
        decreases 32 - i,
    {
        bytes[i] = v[off + i];
        i += 1;
    }
    let r = Address { bytes };
    proof {
        assert(r@ =~= v@.subrange(off as int, off as int + 32));
    }
    r
}

/// Appends the address bytes to `out`.
pub fn push_address(out: &mut Vec<u8>, a: &Address)
    ensures
        final(out)@ == old(out)@ + a@,
{
    let ghost start = out@;
    let mut i: usize = 0;
    while i < 32
        invariant
            0 <= i <= 32,
            out@ == start + a@.subrange(0, i as int),
        decreases 32 - i,
    {
        out.push(a.bytes[i]);
        proof {
            assert(start + a@.subrange(0, i as int) + seq![a@[i as int]] =~= start + a@.subrange(
                0,
                i as int + 1,
            ));
        }
        i += 1;
    }
    proof {
        assert(start + a@.subrange(0, 32) =~= start + a@);
    }
}

} // verus!
