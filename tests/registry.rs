use poe::{ensure_signed, Config, Error, Event, Origin, Pallet};

const A: u64 = 1;
const B: u64 = 2;
const C: u64 = 3;

fn registry(max: u32) -> Pallet {
    Pallet::new(Config { max_claim_length: max })
}

fn claim(s: &str) -> Vec<u8> {
    s.as_bytes().to_vec()
}

#[test]
fn scenario_create_transfer_revoke() {
    let mut p = registry(10);
    let c = claim("hash0001");

    let r = p.create_claim(Origin::Signed(A), c.clone(), 1);
    assert_eq!(r, Ok(Event::ClaimCreated(A, c.clone())));
    assert_eq!(p.proofs(&c), Some((A, 1)));

    let r = p.create_claim(Origin::Signed(A), c.clone(), 2);
    assert_eq!(r, Err(Error::ProofAlreadyExist));
    assert_eq!(p.proofs(&c), Some((A, 1)));

    let r = p.transfer_claim(Origin::Signed(A), c.clone(), B, 2);
    assert_eq!(r, Ok(Event::ClaimTransfered(A, c.clone(), B)));
    assert_eq!(p.proofs(&c), Some((B, 2)));

    let r = p.revoke_claim(Origin::Signed(A), c.clone());
    assert_eq!(r, Err(Error::NotClaimOwner));
    assert_eq!(p.proofs(&c), Some((B, 2)));

    let r = p.revoke_claim(Origin::Signed(B), c.clone());
    assert_eq!(r, Ok(Event::ClaimRevoked(B, c.clone())));
    assert_eq!(p.proofs(&c), None);
}

#[test]
fn create_again_after_revoke() {
    let mut p = registry(10);
    let c = claim("abc");
    assert!(p.create_claim(Origin::Signed(A), c.clone(), 1).is_ok());
    assert_eq!(p.create_claim(Origin::Signed(B), c.clone(), 2), Err(Error::ProofAlreadyExist));
    assert!(p.revoke_claim(Origin::Signed(A), c.clone()).is_ok());
    assert_eq!(p.create_claim(Origin::Signed(B), c.clone(), 3), Ok(Event::ClaimCreated(B, c.clone())));
    assert_eq!(p.proofs(&c), Some((B, 3)));
}

#[test]
fn non_owner_cannot_mutate() {
    let mut p = registry(10);
    let c = claim("doc");
    p.create_claim(Origin::Signed(A), c.clone(), 5).unwrap();
    assert_eq!(p.revoke_claim(Origin::Signed(B), c.clone()), Err(Error::NotClaimOwner));
    assert_eq!(p.transfer_claim(Origin::Signed(B), c.clone(), B, 6), Err(Error::NotClaimOwner));
    assert_eq!(p.proofs(&c), Some((A, 5)));
}

#[test]
fn create_then_revoke_restores() {
    let mut p = registry(10);
    let other = claim("other");
    p.create_claim(Origin::Signed(C), other.clone(), 1).unwrap();
    let c = claim("doc");
    p.create_claim(Origin::Signed(A), c.clone(), 2).unwrap();
    p.revoke_claim(Origin::Signed(A), c.clone()).unwrap();
    assert_eq!(p.proofs(&c), None);
    assert_eq!(p.proofs(&other), Some((C, 1)));
}

#[test]
fn transfer_moves_ownership() {
    let mut p = registry(10);
    let c = claim("doc");
    p.create_claim(Origin::Signed(A), c.clone(), 1).unwrap();
    p.transfer_claim(Origin::Signed(A), c.clone(), B, 4).unwrap();
    assert_eq!(p.transfer_claim(Origin::Signed(A), c.clone(), A, 5), Err(Error::NotClaimOwner));
    assert_eq!(p.revoke_claim(Origin::Signed(A), c.clone()), Err(Error::NotClaimOwner));
    assert_eq!(p.revoke_claim(Origin::Signed(B), c.clone()), Ok(Event::ClaimRevoked(B, c.clone())));
}

#[test]
fn transfer_to_self_refreshes_height() {
    let mut p = registry(10);
    let c = claim("doc");
    p.create_claim(Origin::Signed(A), c.clone(), 1).unwrap();
    assert_eq!(p.transfer_claim(Origin::Signed(A), c.clone(), A, 7), Ok(Event::ClaimTransfered(A, c.clone(), A)));
    assert_eq!(p.proofs(&c), Some((A, 7)));
}

#[test]
fn claim_one_over_bound_is_too_long() {
    for max in [0u32, 1, 10, 32] {
        let mut p = registry(max);
        let c = vec![7u8; max as usize + 1];
        assert_eq!(p.create_claim(Origin::Signed(A), c.clone(), 1), Err(Error::ClaimTooLong));
        assert_eq!(p.proofs(&c), None);
        let fits = vec![7u8; max as usize];
        assert!(p.create_claim(Origin::Signed(A), fits.clone(), 1).is_ok());
        assert_eq!(p.proofs(&fits), Some((A, 1)));
    }
}

#[test]
fn too_long_on_revoke_and_transfer() {
    let mut p = registry(3);
    let c = claim("abcd");
    assert_eq!(p.revoke_claim(Origin::Signed(A), c.clone()), Err(Error::ClaimTooLong));
    assert_eq!(p.transfer_claim(Origin::Signed(A), c.clone(), B, 1), Err(Error::ClaimTooLong));
}

#[test]
fn missing_claim_errors() {
    let mut p = registry(10);
    let c = claim("none");
    assert_eq!(p.revoke_claim(Origin::Signed(A), c.clone()), Err(Error::ClaimNotExist));
    assert_eq!(p.transfer_claim(Origin::Signed(A), c.clone(), B, 1), Err(Error::ClaimNotExist));
    assert_eq!(p.proofs(&c), None);
}

#[test]
fn unsigned_origins_are_refused() {
    let mut p = registry(10);
    let c = claim("doc");
    assert_eq!(p.create_claim(Origin::Root, c.clone(), 1), Err(Error::AuthenticationError));
    assert_eq!(p.create_claim(Origin::Unsigned, c.clone(), 1), Err(Error::AuthenticationError));
    p.create_claim(Origin::Signed(A), c.clone(), 1).unwrap();
    assert_eq!(p.revoke_claim(Origin::Root, c.clone()), Err(Error::AuthenticationError));
    assert_eq!(p.transfer_claim(Origin::Unsigned, c.clone(), B, 2), Err(Error::AuthenticationError));
    assert_eq!(p.proofs(&c), Some((A, 1)));
}

#[test]
fn ensure_signed_resolves_signer() {
    assert_eq!(ensure_signed(Origin::Signed(B)), Ok(B));
    assert_eq!(ensure_signed(Origin::Root), Err(Error::AuthenticationError));
}

#[test]
fn empty_claim_and_distinct_keys() {
    let mut p = registry(4);
    assert_eq!(p.max_claim_length(), 4);
    let empty: Vec<u8> = Vec::new();
    assert!(p.create_claim(Origin::Signed(A), empty.clone(), 1).is_ok());
    let ab = claim("ab");
    let abc = claim("abc");
    assert!(p.create_claim(Origin::Signed(B), ab.clone(), 2).is_ok());
    assert!(p.create_claim(Origin::Signed(C), abc.clone(), 3).is_ok());
    assert_eq!(p.proofs(&empty), Some((A, 1)));
    assert_eq!(p.proofs(&ab), Some((B, 2)));
    assert_eq!(p.proofs(&abc), Some((C, 3)));
    assert_eq!(p.proofs(&claim("a")), None);
    p.revoke_claim(Origin::Signed(B), ab.clone()).unwrap();
    assert_eq!(p.proofs(&ab), None);
    assert_eq!(p.proofs(&abc), Some((C, 3)));
    assert_eq!(p.proofs(&empty), Some((A, 1)));
}
