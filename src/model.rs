//! The registry as a mathematical map, and the three operations as functions
//! on that map. The executable registry is specified against these.
use vstd::prelude::*;
use crate::types::{AccountId, BlockNumber, Record, Origin, Error};

verus! {

/// The contents of a registry: each registered claim with its record.
pub type Registry = Map<Seq<u8>, Record>;

/// The account that signed `origin`, or the refusal of an unsigned origin.
pub open spec fn signer(origin: Origin) -> Result<AccountId, Error> {
    match origin {
        Origin::Signed(who) => Ok(who),
        _ => Err(Error::AuthenticationError),
    }
}

/// Every registered claim is at most `max` bytes long.
pub open spec fn bounded(m: Registry, max: nat) -> bool {
    forall|c: Seq<u8>| #[trigger] m.contains_key(c) ==> c.len() <= max
}

/// Outcome of a create: the creator, or the first check that fails.
pub open spec fn create_result(m: Registry, max: nat, origin: Origin, claim: Seq<u8>) -> Result<
    AccountId,
    Error,
> {
    if claim.len() > max {
        Err(Error::ClaimTooLong)
    } else {
        match signer(origin) {
            Err(e) => Err(e),
            Ok(who) => if m.contains_key(claim) {
                Err(Error::ProofAlreadyExist)
            } else {
                Ok(who)
            },
        }
    }
}

/// The registry after a create made at height `now`.
pub open spec fn create_post(
    m: Registry,
    max: nat,
    origin: Origin,
    claim: Seq<u8>,
    now: BlockNumber,
) -> Registry {
    match create_result(m, max, origin, claim) {
        Ok(who) => m.insert(claim, (who, now)),
        Err(_) => m,
    }
}

/// Outcome of the checks that gate a revoke or a transfer: the owner who
/// asked, or the first check that fails.
pub open spec fn owner_result(m: Registry, max: nat, origin: Origin, claim: Seq<u8>) -> Result<
    AccountId,
    Error,
> {
    if claim.len() > max {
        Err(Error::ClaimTooLong)
    } else {
        match signer(origin) {
            Err(e) => Err(e),
            Ok(who) => if !m.contains_key(claim) {
                Err(Error::ClaimNotExist)
            } else if m[claim].0 != who {
                Err(Error::NotClaimOwner)
            } else {
                Ok(who)
            },
        }
    }
}

/// The registry after a revoke.
pub open spec fn revoke_post(m: Registry, max: nat, origin: Origin, claim: Seq<u8>) -> Registry {
    match owner_result(m, max, origin, claim) {
        Ok(_) => m.remove(claim),
        Err(_) => m,
    }
}

/// The registry after a transfer to `receiver` made at height `now`.
pub open spec fn transfer_post(
    m: Registry,
    max: nat,
    origin: Origin,
    claim: Seq<u8>,
    receiver: AccountId,
    now: BlockNumber,
) -> Registry {
    match owner_result(m, max, origin, claim) {
        Ok(_) => m.insert(claim, (receiver, now)),
        Err(_) => m,
    }
}

/// One call on the registry, with the height at which it is made where it writes one.
pub enum Call {
    Create(Origin, Seq<u8>, BlockNumber),
    Revoke(Origin, Seq<u8>),
    Transfer(Origin, Seq<u8>, AccountId, BlockNumber),
}

/// The claim that a call is about.
pub open spec fn call_claim(call: Call) -> Seq<u8> {
    match call {
        Call::Create(_, c, _) => c,
        Call::Revoke(_, c) => c,
        Call::Transfer(_, c, _, _) => c,
    }
}

/// Outcome of a call made on `m`.
pub open spec fn outcome(m: Registry, max: nat, call: Call) -> Result<AccountId, Error> {
    match call {
        Call::Create(o, c, _) => create_result(m, max, o, c),
        Call::Revoke(o, c) => owner_result(m, max, o, c),
        Call::Transfer(o, c, _, _) => owner_result(m, max, o, c),
    }
}

/// The registry after a call made on `m`.
pub open spec fn step(m: Registry, max: nat, call: Call) -> Registry {
    match call {
        Call::Create(o, c, now) => create_post(m, max, o, c, now),
        Call::Revoke(o, c) => revoke_post(m, max, o, c),
        Call::Transfer(o, c, to, now) => transfer_post(m, max, o, c, to, now),
    }
}

/// The registry after the calls of `calls`, in order, starting from `m`.
pub open spec fn run(m: Registry, max: nat, calls: Seq<Call>) -> Registry
    decreases calls.len(),
{
    if calls.len() == 0 {
        m
    } else {
        step(run(m, max, calls.drop_last()), max, calls.last())
    }
}

} // verus!
