//! Laws that relate the registry's operations to one another, stated over
//! the outcome functions that the operations' contracts use.
use vstd::prelude::*;

use crate::pallet::{
    create_claims, create_result, owner_check, revoke_claims, transfer_claims, within_limit, Claims,
};
use crate::types::{AccountId, BlockNumber, ClaimRecord, Error};

verus! {

/// A fingerprint longer than the limit is refused with `ProofIsTooLong`,
/// and the claims stay as they were.
pub proof fn lemma_too_long_refused(claims: Claims, limit: u32, who: AccountId, proof: Seq<u8>, now: BlockNumber)
    requires
        proof.len() > limit,
    ensures
        create_result(claims, limit, proof) == Err::<(), Error>(Error::ProofIsTooLong),
        create_claims(claims, limit, who, proof, now) == claims,
{
}

/// Claiming a fingerprint that is already claimed fails with
/// `ProofAlreadyExist`, whoever asks, and the claims stay as they were.
pub proof fn lemma_claimed_refused(claims: Claims, limit: u32, who: AccountId, proof: Seq<u8>, now: BlockNumber)
    requires
        within_limit(claims, limit),
        claims.contains_key(proof),
    ensures
        create_result(claims, limit, proof) == Err::<(), Error>(Error::ProofAlreadyExist),
        create_claims(claims, limit, who, proof, now) == claims,
{
}

/// Creating a claim and then revoking it as its creator leaves the
/// fingerprint unclaimed and the claims as they were before; anyone may
/// then claim it again.
pub proof fn lemma_create_revoke_round_trip(
    claims: Claims,
    limit: u32,
    who: AccountId,
    other: AccountId,
    proof: Seq<u8>,
    t1: BlockNumber,
    t2: BlockNumber,
)
    requires
        create_result(claims, limit, proof) is Ok,
    ensures
        owner_check(create_claims(claims, limit, who, proof, t1), who, proof) is Ok,
        !revoke_claims(create_claims(claims, limit, who, proof, t1), who, proof).contains_key(proof),
        revoke_claims(create_claims(claims, limit, who, proof, t1), who, proof) == claims,
        create_result(revoke_claims(create_claims(claims, limit, who, proof, t1), who, proof), limit, proof) is Ok,
        create_claims(revoke_claims(create_claims(claims, limit, who, proof, t1), who, proof), limit, other, proof, t2)[proof]
            == (ClaimRecord { owner: other, registered_at: t2 }),
{
    let c1 = create_claims(claims, limit, who, proof, t1);
    assert(c1.remove(proof) =~= claims);
}

/// Revoking or transferring an unclaimed fingerprint fails with
/// `ClaimNotExist`, and the claims stay as they were.
pub proof fn lemma_absent_refused(
    claims: Claims,
    who: AccountId,
    proof: Seq<u8>,
    dest: AccountId,
    now: BlockNumber,
)
    requires
        !claims.contains_key(proof),
    ensures
        owner_check(claims, who, proof) == Err::<(), Error>(Error::ClaimNotExist),
        revoke_claims(claims, who, proof) == claims,
        transfer_claims(claims, who, proof, dest, now) == claims,
{
}

/// Revoking or transferring a claim owned by another account fails with
/// `NotProofOwner`, and the claims stay as they were.
pub proof fn lemma_non_owner_refused(
    claims: Claims,
    who: AccountId,
    proof: Seq<u8>,
    dest: AccountId,
    now: BlockNumber,
)
    requires
        claims.contains_key(proof),
        claims[proof].owner != who,
    ensures
        owner_check(claims, who, proof) == Err::<(), Error>(Error::NotProofOwner),
        revoke_claims(claims, who, proof) == claims,
        transfer_claims(claims, who, proof, dest, now) == claims,
{
}

/// A transfer by the owner makes `dest` the owner as of `now` and touches
/// no other claim; once `dest` is another account, the former owner can no
/// longer transfer or revoke the claim.
pub proof fn lemma_transfer_moves_ownership(
    claims: Claims,
    owner: AccountId,
    proof: Seq<u8>,
    dest: AccountId,
    now: BlockNumber,
    next: AccountId,
    later: BlockNumber,
)
    requires
        owner_check(claims, owner, proof) is Ok,
    ensures
        transfer_claims(claims, owner, proof, dest, now)[proof] == (ClaimRecord { owner: dest, registered_at: now }),
        transfer_claims(claims, owner, proof, dest, now).dom() == claims.dom(),
        forall|k: Seq<u8>| k != proof && #[trigger] claims.contains_key(k)
            ==> transfer_claims(claims, owner, proof, dest, now)[k] == claims[k],
        dest != owner ==> owner_check(transfer_claims(claims, owner, proof, dest, now), owner, proof)
            == Err::<(), Error>(Error::NotProofOwner),
        dest != owner ==> transfer_claims(transfer_claims(claims, owner, proof, dest, now), owner, proof, next, later)
            == transfer_claims(claims, owner, proof, dest, now),
{
    assert(transfer_claims(claims, owner, proof, dest, now).dom() =~= claims.dom());
}

} // verus!
