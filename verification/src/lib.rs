//! On-chain logic of a custodial token pool: it takes one fungible asset
//! ("bank" tokens) into a pool-owned reserve and mints a second asset
//! ("pool" tokens) back to the depositor at a fixed multiplier.
//!
//! The crate holds the pool's fixed-layout state record, the two-variant
//! instruction codec, the deterministic authority derivation, the transition
//! function that validates a request and turns it into token-service
//! requests, and a model of the token service against which the conservation
//! properties of those requests are stated and proved.

use vstd::prelude::*;

pub mod addr;
pub mod error;
pub mod instruction;
pub mod ledger;
pub mod pda;
pub mod processor;
pub mod state;

use crate::addr::Address;

verus! {

/// The address bytes this program is deployed under.
pub open spec fn spec_id() -> Seq<u8> {
    seq![
        54u8, 130u8, 47u8, 33u8, 65u8, 49u8, 185u8, 105u8, 212u8, 143u8, 130u8, 231u8, 87u8, 47u8,
        100u8, 135u8, 109u8, 70u8, 156u8, 120u8, 33u8, 132u8, 170u8, 43u8, 158u8, 127u8, 151u8,
        154u8, 186u8, 85u8, 171u8, 36u8,
    ]
}

/// This program's own address.
pub fn id() -> (r: Address)
    ensures
        r@ == spec_id(),
{
    let r = Address::new(
        [
            54u8, 130u8, 47u8, 33u8, 65u8, 49u8, 185u8, 105u8, 212u8, 143u8, 130u8, 231u8, 87u8,
            47u8, 100u8, 135u8, 109u8, 70u8, 156u8, 120u8, 33u8, 132u8, 170u8, 43u8, 158u8, 127u8,
            151u8, 154u8, 186u8, 85u8, 171u8, 36u8,
        ],
    );
    proof {
        assert(r@ =~= spec_id());
    }
    r
}

} // verus!
