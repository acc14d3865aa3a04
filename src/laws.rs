//! Laws of the registry, stated over the outcome functions that the
//! operations' contracts use.
use vstd::prelude::*;

use crate::pallet::{create_error, created, owner_error, revoked, transferred, Error, Pallet, Registry};
use crate::proofs::{AccountId, BlockNumber};

verus! {

/// A live claim cannot be created again, by any account: creating it fails
/// with `ProofAlreadyExist`.
pub proof fn lemma_live_claim_blocks_create(p: Pallet, f: Seq<u8>)
    requires
        p.wf(),
        p.registry().contains_key(f),
    ensures
        create_error(p.registry(), p.max_len(), f) == Some(Error::ProofAlreadyExist),
{
    p.lemma_live_within_bound(f);
}

/// Once a claim is created, creating it again fails with `ProofAlreadyExist`.
pub proof fn lemma_create_twice(
    reg: Registry,
    max: u32,
    a: AccountId,
    now: BlockNumber,
    f: Seq<u8>,
)
    requires
        create_error(reg, max, f) is None,
    ensures
        create_error(created(reg, a, now, f), max, f) == Some(Error::ProofAlreadyExist),
{
}

/// A live claim stays live until it is revoked: creating or transferring any
/// claim, or revoking another one, keeps it.
pub proof fn lemma_live_until_revoked(
    reg: Registry,
    f: Seq<u8>,
    c: Seq<u8>,
    a: AccountId,
    now: BlockNumber,
)
    requires
        reg.contains_key(f),
    ensures
        created(reg, a, now, c).contains_key(f),
        transferred(reg, a, now, c).contains_key(f),
        c != f ==> revoked(reg, c).contains_key(f),
        !revoked(reg, f).contains_key(f),
{
}

/// Only the owner of a live claim may revoke or transfer it: any other
/// account is refused with `NotClaimOwner`.
pub proof fn lemma_only_owner_acts(p: Pallet, f: Seq<u8>, b: AccountId)
    requires
        p.wf(),
        p.registry().contains_key(f),
        p.registry()[f].owner != b,
    ensures
        owner_error(p.registry(), p.max_len(), b, f) == Some(Error::NotClaimOwner),
{
    p.lemma_live_within_bound(f);
}

/// A claim of exactly the bound's length is never refused as too long, and a
/// fresh one is created.
pub proof fn lemma_length_at_bound(reg: Registry, max: u32, s: AccountId, c: Seq<u8>)
    requires
        c.len() == max,
    ensures
        create_error(reg, max, c) != Some(Error::ClaimTooLong),
        owner_error(reg, max, s, c) != Some(Error::ClaimTooLong),
        !reg.contains_key(c) ==> create_error(reg, max, c) is None,
{
}

/// A claim one byte over the bound is refused as too long by every operation.
pub proof fn lemma_length_over_bound(reg: Registry, max: u32, s: AccountId, c: Seq<u8>)
    requires
        c.len() == max + 1,
    ensures
        create_error(reg, max, c) == Some(Error::ClaimTooLong),
        owner_error(reg, max, s, c) == Some(Error::ClaimTooLong),
{
}

/// Create, revoke by the creator, then create by anyone: all three succeed
/// and the new creator owns the claim.
pub proof fn lemma_revoke_then_recreate(
    reg: Registry,
    max: u32,
    a: AccountId,
    b: AccountId,
    t1: BlockNumber,
    t2: BlockNumber,
    c: Seq<u8>,
)
    requires
        create_error(reg, max, c) is None,
    ensures
        owner_error(created(reg, a, t1, c), max, a, c) is None,
        create_error(revoked(created(reg, a, t1, c), c), max, c) is None,
        created(revoked(created(reg, a, t1, c), c), b, t2, c)[c].owner == b,
{
}

/// Create then transfer: the transfer succeeds, keeps the set of live claims
/// (one record for the claim, under the same key), gives it to the new owner,
/// and dates it no earlier than its creation when time does not go back.
pub proof fn lemma_transfer_keeps_key(
    reg: Registry,
    max: u32,
    a: AccountId,
    b: AccountId,
    t1: BlockNumber,
    t2: BlockNumber,
    c: Seq<u8>,
)
    requires
        create_error(reg, max, c) is None,
        t1 <= t2,
    ensures
        owner_error(created(reg, a, t1, c), max, a, c) is None,
        transferred(created(reg, a, t1, c), b, t2, c).dom() == created(reg, a, t1, c).dom(),
        transferred(created(reg, a, t1, c), b, t2, c)[c].owner == b,
        transferred(created(reg, a, t1, c), b, t2, c)[c].timestamp >= created(
            reg,
            a,
            t1,
            c,
        )[c].timestamp,
{
    assert(transferred(created(reg, a, t1, c), b, t2, c).dom() =~= created(reg, a, t1, c).dom());
}

} // verus!
