//! Properties of the registry that relate several calls.
use vstd::prelude::*;
use crate::types::{AccountId, BlockNumber, Origin, Error};
use crate::model::{
    Registry,
    Call,
    bounded,
    call_claim,
    create_result,
    create_post,
    owner_result,
    revoke_post,
    transfer_post,
    outcome,
    step,
    run,
};

verus! {

/// A call that fails leaves the registry exactly as it was.
pub proof fn lemma_failure_unchanged(m: Registry, max: nat, call: Call)
    requires
        outcome(m, max, call) is Err,
    ensures
        step(m, max, call) == m,
{
}

/// A registered claim stays registered through any call but a successful
/// revoke of that claim.
pub proof fn lemma_step_keeps(m: Registry, max: nat, call: Call, c: Seq<u8>)
    requires
        m.contains_key(c),
        !(call is Revoke && call_claim(call) == c && outcome(m, max, call) is Ok),
    ensures
        step(m, max, call).contains_key(c),
{
}

proof fn lemma_run_keeps(m: Registry, max: nat, calls: Seq<Call>, c: Seq<u8>, i: int)
    requires
        m.contains_key(c),
        0 <= i <= calls.len(),
        forall|j: int|
            0 <= j < i && (#[trigger] calls[j]) is Revoke && call_claim(calls[j]) == c
                ==> outcome(run(m, max, calls.take(j)), max, calls[j]) is Err,
    ensures
        run(m, max, calls.take(i)).contains_key(c),
    decreases i,
{
    if i > 0 {
        lemma_run_keeps(m, max, calls, c, i - 1);
        assert(calls.take(i).drop_last() =~= calls.take(i - 1));
        assert(calls.take(i).last() == calls[i - 1]);
        lemma_step_keeps(run(m, max, calls.take(i - 1)), max, calls[i - 1], c);
    } else {
        assert(calls.take(0) =~= Seq::<Call>::empty());
    }
}

/// Uniqueness: once a create of a claim has succeeded, every later create of
/// the same claim fails, so long as no revoke of it has succeeded in between.
/// `calls` are the calls made after the successful `first`; the call at index
/// `i` is a create of the same claim.
pub proof fn lemma_create_unique(m: Registry, max: nat, first: Call, calls: Seq<Call>, i: int)
    requires
        first is Create,
        outcome(m, max, first) is Ok,
        0 <= i < calls.len(),
        calls[i] is Create,
        call_claim(calls[i]) == call_claim(first),
        forall|j: int|
            0 <= j < i && (#[trigger] calls[j]) is Revoke && call_claim(calls[j]) == call_claim(
                first,
            ) ==> outcome(run(step(m, max, first), max, calls.take(j)), max, calls[j]) is Err,
    ensures
        outcome(run(step(m, max, first), max, calls.take(i)), max, calls[i]) is Err,
{
    let c = call_claim(first);
    lemma_run_keeps(step(m, max, first), max, calls, c, i);
}

/// Owner-gated mutation: a revoke or a transfer of a registered claim by an
/// account other than its owner fails with `NotClaimOwner` and leaves the
/// registry unchanged.
pub proof fn lemma_owner_gated(
    m: Registry,
    max: nat,
    a: AccountId,
    c: Seq<u8>,
    receiver: AccountId,
    now: BlockNumber,
)
    requires
        bounded(m, max),
        m.contains_key(c),
        a != m[c].0,
    ensures
        owner_result(m, max, Origin::Signed(a), c) == Err::<AccountId, Error>(Error::NotClaimOwner),
        revoke_post(m, max, Origin::Signed(a), c) == m,
        transfer_post(m, max, Origin::Signed(a), c, receiver, now) == m,
{
}

/// Round trip: a successful create followed by a revoke of the same claim by
/// the same account succeeds and restores the registry.
pub proof fn lemma_create_revoke(m: Registry, max: nat, a: AccountId, c: Seq<u8>, now: BlockNumber)
    requires
        create_result(m, max, Origin::Signed(a), c) is Ok,
    ensures
        owner_result(create_post(m, max, Origin::Signed(a), c, now), max, Origin::Signed(a), c)
            == Ok::<AccountId, Error>(a),
        revoke_post(create_post(m, max, Origin::Signed(a), c, now), max, Origin::Signed(a), c)
            == m,
{
    assert(m.insert(c, (a, now)).remove(c) =~= m);
}

/// After a successful transfer of a claim from `a` to another account `b`,
/// a revoke by `a` fails with `NotClaimOwner` and changes nothing, while a
/// revoke by `b` succeeds and removes the claim.
pub proof fn lemma_transfer_moves_ownership(
    m: Registry,
    max: nat,
    a: AccountId,
    b: AccountId,
    c: Seq<u8>,
    now: BlockNumber,
)
    requires
        owner_result(m, max, Origin::Signed(a), c) is Ok,
        a != b,
    ensures
        ({
            let t = transfer_post(m, max, Origin::Signed(a), c, b, now);
            &&& owner_result(t, max, Origin::Signed(a), c) == Err::<AccountId, Error>(
                Error::NotClaimOwner,
            )
            &&& revoke_post(t, max, Origin::Signed(a), c) == t
            &&& owner_result(t, max, Origin::Signed(b), c) == Ok::<AccountId, Error>(b)
            &&& revoke_post(t, max, Origin::Signed(b), c) == m.remove(c)
        }),
{
    assert(m.insert(c, (b, now)).remove(c) =~= m.remove(c));
}

/// Bound enforcement: a create of a claim one byte longer than the bound fails
/// with `ClaimTooLong` and leaves the registry unchanged, for every bound.
pub proof fn lemma_create_too_long(
    m: Registry,
    max: nat,
    origin: Origin,
    c: Seq<u8>,
    now: BlockNumber,
)
    requires
        c.len() == max + 1,
    ensures
        create_result(m, max, origin, c) == Err::<AccountId, Error>(Error::ClaimTooLong),
        create_post(m, max, origin, c, now) == m,
{
}

} // verus!
