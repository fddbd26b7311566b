//! The claim registry and its three operations.
use vstd::prelude::*;
use crate::types::{AccountId, BlockNumber, Record, Origin, Error, Event, Config};
use crate::model::{
    Registry,
    signer,
    bounded,
    create_result,
    create_post,
    owner_result,
    revoke_post,
    transfer_post,
};
use crate::store::{ProofStore, copy_bytes};

verus! {

/// Resolves an origin to the account that signed it.
pub fn ensure_signed(origin: Origin) -> (r: Result<AccountId, Error>)
    ensures
        r == signer(origin),
{
    match origin {
        Origin::Signed(who) => Ok(who),
        _ => Err(Error::AuthenticationError),
    }
}

/// A claim registry: the bound on claim length, and each registered claim
/// with its owner and the height of its last write.
pub struct Pallet {
    config: Config,
    proofs: ProofStore,
}

impl View for Pallet {
    type V = Registry;

    closed spec fn view(&self) -> Registry {
        self.proofs@
    }
}

impl Pallet {
    /// The greatest length that a claim may have.
    pub closed spec fn max_len(&self) -> nat {
        self.config.max_claim_length as nat
    }

    /// The store agrees with its map, and no registered claim exceeds the bound.
    pub closed spec fn wf(&self) -> bool {
        self.proofs.wf() && bounded(self.proofs@, self.max_len())
    }

    /// An empty registry with the given settings.
    pub fn new(config: Config) -> (s: Self)
        ensures
            s.wf(),
            s@ == Registry::empty(),
            s.max_len() == config.max_claim_length,
    {
        Pallet { config, proofs: ProofStore::new() }
    }

    /// The greatest length that a claim may have.
    pub fn max_claim_length(&self) -> (r: u32)
        ensures
            r == self.max_len(),
    {
        self.config.max_claim_length
    }

    /// The record of `claim`, if it is registered.
    pub fn proofs(&self, claim: &Vec<u8>) -> (r: Option<Record>)
        requires
            self.wf(),
        ensures
            r == (if self@.contains_key(claim@) {
                Some(self@[claim@])
            } else {
                None::<Record>
            }),
    {
        self.proofs.get(claim)
    }

    /// Registers `claim` to the signer of `origin` at height `now`.
    pub fn create_claim(&mut self, origin: Origin, claim: Vec<u8>, now: BlockNumber) -> (r:
        Result<Event, Error>)
        requires
            old(self).wf(),
        ensures
            final(self).wf(),
            final(self).max_len() == old(self).max_len(),
            final(self)@ == create_post(old(self)@, old(self).max_len(), origin, claim@, now),
            match create_result(old(self)@, old(self).max_len(), origin, claim@) {
                Ok(who) => r == Ok::<Event, Error>(Event::ClaimCreated(who, claim)),
                Err(e) => r == Err::<Event, Error>(e),
            },
    {
        if claim.len() > self.config.max_claim_length as usize {
            return Err(Error::ClaimTooLong);
        }
        let sender = match ensure_signed(origin) {
            Ok(who) => who,
            Err(e) => return Err(e),
        };
        if self.proofs.contains_key(&claim) {
            return Err(Error::ProofAlreadyExist);
        }
        self.proofs.insert(copy_bytes(&claim), (sender, now));
        Ok(Event::ClaimCreated(sender, claim))
    }

    /// Removes `claim`, at the request of its owner.
    pub fn revoke_claim(&mut self, origin: Origin, claim: Vec<u8>) -> (r: Result<Event, Error>)
        requires
            old(self).wf(),
        ensures
            final(self).wf(),
            final(self).max_len() == old(self).max_len(),
            final(self)@ == revoke_post(old(self)@, old(self).max_len(), origin, claim@),
            match owner_result(old(self)@, old(self).max_len(), origin, claim@) {
                Ok(who) => r == Ok::<Event, Error>(Event::ClaimRevoked(who, claim)),
                Err(e) => r == Err::<Event, Error>(e),
            },
    {
        let sender = match self.check_owner(origin, &claim) {
            Ok(who) => who,
            Err(e) => return Err(e),
        };
        self.proofs.remove(&claim);
        Ok(Event::ClaimRevoked(sender, claim))
    }

    /// Gives `claim` to `receiver` at height `now`, at the request of its owner.
    pub fn transfer_claim(
        &mut self,
        origin: Origin,
        claim: Vec<u8>,
        receiver: AccountId,
        now: BlockNumber,
    ) -> (r: Result<Event, Error>)
        requires
            old(self).wf(),
        ensures
            final(self).wf(),
            final(self).max_len() == old(self).max_len(),
            final(self)@ == transfer_post(
                old(self)@,
                old(self).max_len(),
                origin,
                claim@,
                receiver,
                now,
            ),
            match owner_result(old(self)@, old(self).max_len(), origin, claim@) {
                Ok(who) => r == Ok::<Event, Error>(Event::ClaimTransfered(who, claim, receiver)),
                Err(e) => r == Err::<Event, Error>(e),
            },
    {
        let sender = match self.check_owner(origin, &claim) {
            Ok(who) => who,
            Err(e) => return Err(e),
        };
        self.proofs.insert(copy_bytes(&claim), (receiver, now));
        Ok(Event::ClaimTransfered(sender, claim, receiver))
    }

    /// The checks that gate a revoke or a transfer of `claim`.
    fn check_owner(&self, origin: Origin, claim: &Vec<u8>) -> (r: Result<AccountId, Error>)
        requires
            self.wf(),
        ensures
            r == owner_result(self@, self.max_len(), origin, claim@),
    {
        if claim.len() > self.config.max_claim_length as usize {
            return Err(Error::ClaimTooLong);
        }
        let sender = match ensure_signed(origin) {
            Ok(who) => who,
            Err(e) => return Err(e),
        };
        match self.proofs.get(claim) {
            None => Err(Error::ClaimNotExist),
            Some((owner, _)) => if owner != sender {
                Err(Error::NotClaimOwner)
            } else {
                Ok(sender)
            },
        }
    }
}

} // verus!
