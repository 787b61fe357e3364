use vstd::prelude::*;

verus! {

/// An authenticated caller or owner handle.
pub type AccountId = u64;

/// A logical timestamp, such as a block height.
pub type BlockNumber = u64;

/// Who owns a claim, and since when.
#[derive(Clone, Copy, Debug, PartialEq, Eq, Structural)]
pub struct ClaimRecord {
    pub owner: AccountId,
    pub registered_at: BlockNumber,
}

/// The registry's configuration.
#[derive(Clone, Copy, Debug, PartialEq, Eq, Structural)]
pub struct Config {
    /// The largest fingerprint, in bytes, that can be claimed.
    pub proof_limit: u32,
}

/// Why an operation was refused.
#[derive(Clone, Copy, Debug, PartialEq, Eq, Structural)]
pub enum Error {
    /// The proof has already been claimed.
    ProofAlreadyExist,
    /// The proof is longer than the configured limit.
    ProofIsTooLong,
    /// The proof is not claimed, so it cannot be revoked or transferred.
    ClaimNotExist,
    /// The proof is claimed by another account.
    NotProofOwner,
}

/// A notification of a change to the registry.
#[derive(Debug, PartialEq, Eq)]
pub enum Event {
    /// A proof has been claimed: who, claim.
    ClaimCreated(AccountId, Vec<u8>),
    /// A proof has been revoked by its owner: who, claim.
    ClaimRevoked(AccountId, Vec<u8>),
    /// A proof has been transferred: who, claim, destination.
    ClaimTransfered(AccountId, Vec<u8>, AccountId),
}

impl Event {
    /// This event reports that `who` claimed `proof`.
    pub open spec fn is_created(&self, who: AccountId, proof: Seq<u8>) -> bool {
        match self {
            Event::ClaimCreated(w, p) => *w == who && p@ == proof,
            _ => false,
        }
    }

    /// This event reports that `who` revoked `proof`.
    pub open spec fn is_revoked(&self, who: AccountId, proof: Seq<u8>) -> bool {
        match self {
            Event::ClaimRevoked(w, p) => *w == who && p@ == proof,
            _ => false,
        }
    }

    /// This event reports that `who` handed `proof` over to `dest`.
    pub open spec fn is_transferred(&self, who: AccountId, proof: Seq<u8>, dest: AccountId) -> bool {
        match self {
            Event::ClaimTransfered(w, p, d) => *w == who && p@ == proof && *d == dest,
            _ => false,
        }
    }
}

} // verus!
