use vstd::prelude::*;

verus! {

/// Identity of an account, as resolved from a signed origin.
pub type AccountId = u64;

/// Logical clock value that stamps each write.
pub type BlockNumber = u64;

/// What the registry holds for a claim: its owner and the height of the last write.
pub type Record = (AccountId, BlockNumber);

/// Where a call comes from, before authentication.
#[derive(Clone, Copy, Debug, PartialEq, Eq, Structural)]
pub enum Origin {
    /// A call signed by the given account.
    Signed(AccountId),
    /// A call made by the privileged root.
    Root,
    /// A call with no signature at all.
    Unsigned,
}

/// Why a call was refused. Every refusal leaves the registry as it was.
#[derive(Clone, Copy, Debug, PartialEq, Eq, Structural)]
pub enum Error {
    /// The origin does not resolve to a signing account.
    AuthenticationError,
    /// A create was made on a claim that is already registered.
    ProofAlreadyExist,
    /// The claim is longer than the configured maximum.
    ClaimTooLong,
    /// A revoke or transfer was made on a claim that is not registered.
    ClaimNotExist,
    /// A revoke or transfer was made by an account other than the owner.
    NotClaimOwner,
}

/// The notification that a successful call emits.
#[derive(Debug, PartialEq, Eq)]
pub enum Event {
    /// `(creator, claim)`
    ClaimCreated(AccountId, Vec<u8>),
    /// `(owner, claim)`
    ClaimRevoked(AccountId, Vec<u8>),
    /// `(previous owner, claim, new owner)`
    ClaimTransfered(AccountId, Vec<u8>, AccountId),
}

/// Settings of a registry.
#[derive(Clone, Copy, Debug, PartialEq, Eq, Structural)]
pub struct Config {
    /// The greatest length, in bytes, that a claim may have.
    pub max_claim_length: u32,
}

} // verus!
