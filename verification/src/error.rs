//! The reasons a transition or a token-service request is rejected. Every
//! rejection is detected before any effect is applied, so an error always
//! leaves all state untouched.

use vstd::prelude::*;

verus! {

/// Rejection reasons of the transition function and of the token-service
/// model it issues requests to.
#[derive(Clone, Copy, Debug, PartialEq, Eq, Structural)]
pub enum PoolError {
    /// The pool account's storage slot is not owned by this program.
    IncorrectProgramId,
    /// The pool record already carries the current layout version.
    AccountAlreadyInitialized,
    /// A record that must be initialized is not.
    UninitializedAccount,
    /// An account balance is below the storage-fee exemption threshold.
    AccountNotRentExempt,
    /// An address check failed: the supplied authority or reserve account is
    /// not the one the pool record calls for.
    InvalidArgument,
    /// The stored bump seed derives no off-curve address for this pool.
    InvalidSeeds,
    /// Fewer account references were supplied than the instruction needs.
    NotEnoughAccountKeys,
    /// The instruction payload did not decode to any known variant.
    InvalidInstructionData,
    /// A stored record (pool record or token-service record) failed to parse.
    InvalidAccountData,
    /// The source balance is smaller than the requested transfer.
    InsufficientFunds,
    /// The presented authority may not move the tokens or mint.
    OwnerMismatch,
    /// The two token accounts of a transfer belong to different mints.
    MintMismatch,
    /// A balance or a supply would exceed its representable range.
    Overflow,
    /// A token-service record to be created already exists.
    AlreadyInUse,
    /// The mint a new token account is bound to does not exist.
    InvalidMint,
}

} // verus!
