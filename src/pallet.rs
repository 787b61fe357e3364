use vstd::prelude::*;

use crate::store::ClaimStore;
use crate::types::{AccountId, BlockNumber, ClaimRecord, Config, Error, Event};

verus! {

/// The claims, one record per fingerprint.
pub type Claims = Map<Seq<u8>, ClaimRecord>;

/// What `create_claim` returns on a registry holding `claims`.
pub open spec fn create_result(claims: Claims, limit: u32, proof: Seq<u8>) -> Result<(), Error> {
    if proof.len() > limit {
        Err(Error::ProofIsTooLong)
    } else if claims.contains_key(proof) {
        Err(Error::ProofAlreadyExist)
    } else {
        Ok(())
    }
}

/// The claims after `who` calls `create_claim` for `proof` at time `now`.
pub open spec fn create_claims(
    claims: Claims,
    limit: u32,
    who: AccountId,
    proof: Seq<u8>,
    now: BlockNumber,
) -> Claims {
    if create_result(claims, limit, proof) is Ok {
        claims.insert(proof, ClaimRecord { owner: who, registered_at: now })
    } else {
        claims
    }
}

/// Checks common to revoking and transferring: the claim exists and `who`
/// owns it.
pub open spec fn owner_check(claims: Claims, who: AccountId, proof: Seq<u8>) -> Result<(), Error> {
    if !claims.contains_key(proof) {
        Err(Error::ClaimNotExist)
    } else if claims[proof].owner != who {
        Err(Error::NotProofOwner)
    } else {
        Ok(())
    }
}

/// The claims after `who` calls `revoke_claim` for `proof`.
pub open spec fn revoke_claims(claims: Claims, who: AccountId, proof: Seq<u8>) -> Claims {
    if owner_check(claims, who, proof) is Ok {
        claims.remove(proof)
    } else {
        claims
    }
}

/// The claims after `who` calls `transfer_claim` for `proof` to `dest` at
/// time `now`.
pub open spec fn transfer_claims(
    claims: Claims,
    who: AccountId,
    proof: Seq<u8>,
    dest: AccountId,
    now: BlockNumber,
) -> Claims {
    if owner_check(claims, who, proof) is Ok {
        claims.insert(proof, ClaimRecord { owner: dest, registered_at: now })
    } else {
        claims
    }
}

/// Every claimed fingerprint fits within `limit`.
pub open spec fn within_limit(claims: Claims, limit: u32) -> bool {
    forall|k: Seq<u8>| #[trigger] claims.contains_key(k) ==> k.len() <= limit
}

/// `after` is `before` with one more event at its end.
pub open spec fn one_more(before: Seq<Event>, after: Seq<Event>) -> bool {
    &&& after.len() == before.len() + 1
    &&& after.drop_last() == before
}

/// The claim registry: its configuration, its claims, and the events it has
/// emitted.
pub struct Pallet {
    config: Config,
    proofs: ClaimStore,
    events: Vec<Event>,
}

impl Pallet {
    /// The registry's internal consistency.
    pub closed spec fn wf(&self) -> bool {
        self.proofs.wf() && within_limit(self.proofs@, self.config.proof_limit)
    }

    /// The claims held, by fingerprint.
    pub closed spec fn claims(&self) -> Claims {
        self.proofs@
    }

    /// The largest fingerprint length that can be claimed.
    pub closed spec fn limit(&self) -> u32 {
        self.config.proof_limit
    }

    /// The events emitted so far, oldest first.
    pub closed spec fn event_log(&self) -> Seq<Event> {
        self.events@
    }

    /// A registry with no claims and no events.
    pub fn new(config: Config) -> (r: Self)
        ensures
            r.wf(),
            r.claims() == Claims::empty(),
            within_limit(r.claims(), r.limit()),
            r.limit() == config.proof_limit,
            r.event_log() == Seq::<Event>::empty(),
    {
        Pallet { config, proofs: ClaimStore::new(), events: Vec::new() }
    }

    /// `sender` claims `proof` at time `now`.
    ///
    /// Fails with `ProofIsTooLong` when `proof` is longer than the limit,
    /// then with `ProofAlreadyExist` when it is already claimed. On success
    /// the claim is recorded with `sender` as owner and a `ClaimCreated`
    /// event is emitted; on failure nothing changes.
    pub fn create_claim(&mut self, sender: AccountId, proof: Vec<u8>, now: BlockNumber) -> (r: Result<(), Error>)
        requires
            old(self).wf(),
        ensures
            final(self).wf(),
            final(self).limit() == old(self).limit(),
            within_limit(final(self).claims(), final(self).limit()),
            r == create_result(old(self).claims(), old(self).limit(), proof@),
            final(self).claims() == create_claims(old(self).claims(), old(self).limit(), sender, proof@, now),
            r is Ok ==> one_more(old(self).event_log(), final(self).event_log())
                && final(self).event_log().last().is_created(sender, proof@),
            r is Err ==> final(self).event_log() == old(self).event_log(),
    {
        if proof.len() as u64 > self.config.proof_limit as u64 {
            return Err(Error::ProofIsTooLong);
        }
        if self.proofs.contains(&proof) {
            return Err(Error::ProofAlreadyExist);
        }
        let key = proof.clone();
        assert(key@ =~= proof@);
        self.proofs.insert(key, ClaimRecord { owner: sender, registered_at: now });
        self.events.push(Event::ClaimCreated(sender, proof));
        assert(self.events@.drop_last() =~= old(self).events@);
        Ok(())
    }

    /// The owner `sender` gives up its claim on `proof`.
    ///
    /// Fails with `ClaimNotExist` when `proof` is not claimed, then with
    /// `NotProofOwner` when another account owns it. On success the claim
    /// is removed and a `ClaimRevoked` event is emitted; on failure nothing
    /// changes.
    pub fn revoke_claim(&mut self, sender: AccountId, proof: Vec<u8>) -> (r: Result<(), Error>)
        requires
            old(self).wf(),
        ensures
            final(self).wf(),
            final(self).limit() == old(self).limit(),
            within_limit(final(self).claims(), final(self).limit()),
            r == owner_check(old(self).claims(), sender, proof@),
            final(self).claims() == revoke_claims(old(self).claims(), sender, proof@),
            r is Ok ==> one_more(old(self).event_log(), final(self).event_log())
                && final(self).event_log().last().is_revoked(sender, proof@),
            r is Err ==> final(self).event_log() == old(self).event_log(),
    {
        let owner = match self.proofs.get(&proof) {
            Some(record) => record.owner,
            None => {
                return Err(Error::ClaimNotExist);
            },
        };
        if sender != owner {
            return Err(Error::NotProofOwner);
        }
        self.proofs.remove(&proof);
        self.events.push(Event::ClaimRevoked(sender, proof));
        assert(self.events@.drop_last() =~= old(self).events@);
        Ok(())
    }

    /// The owner `sender` hands its claim on `proof` over to `dest` at time
    /// `now`.
    ///
    /// Fails with `ClaimNotExist` when `proof` is not claimed, then with
    /// `NotProofOwner` when another account owns it. On success the record
    /// is replaced by one with `dest` as owner and `now` as its time, and a
    /// `ClaimTransfered` event is emitted; on failure nothing changes.
    pub fn transfer_claim(
        &mut self,
        sender: AccountId,
        proof: Vec<u8>,
        dest: AccountId,
        now: BlockNumber,
    ) -> (r: Result<(), Error>)
        requires
            old(self).wf(),
        ensures
            final(self).wf(),
            final(self).limit() == old(self).limit(),
            within_limit(final(self).claims(), final(self).limit()),
            r == owner_check(old(self).claims(), sender, proof@),
            final(self).claims() == transfer_claims(old(self).claims(), sender, proof@, dest, now),
            r is Ok ==> one_more(old(self).event_log(), final(self).event_log())
                && final(self).event_log().last().is_transferred(sender, proof@, dest),
            r is Err ==> final(self).event_log() == old(self).event_log(),
    {
        let owner = match self.proofs.get(&proof) {
            Some(record) => record.owner,
            None => {
                return Err(Error::ClaimNotExist);
            },
        };
        if sender != owner {
            return Err(Error::NotProofOwner);
        }
        let key = proof.clone();
        assert(key@ =~= proof@);
        self.proofs.insert(key, ClaimRecord { owner: dest, registered_at: now });
        self.events.push(Event::ClaimTransfered(sender, proof, dest));
        assert(self.events@.drop_last() =~= old(self).events@);
        Ok(())
    }

    /// The record of the claim on `proof`, if it is claimed.
    pub fn proofs(&self, proof: &Vec<u8>) -> (r: Option<ClaimRecord>)
        requires
            self.wf(),
        ensures
            r == self.claims().get(proof@),
    {
        self.proofs.get(proof)
    }

    /// The largest fingerprint length that can be claimed.
    pub fn proof_limit(&self) -> (r: u32)
        ensures
            r == self.limit(),
    {
        self.config.proof_limit
    }

    /// The events emitted so far, oldest first.
    pub fn events(&self) -> (r: &Vec<Event>)
        ensures
            r@ == self.event_log(),
    {
        &self.events
    }
}

} // verus!
