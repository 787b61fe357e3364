//! A proof-of-existence claim registry.
//!
//! A caller registers the fingerprint of some data it holds; the registry
//! records the first claimant together with a logical timestamp. The owner may
//! later revoke the claim or hand it over to another identity. Every operation
//! either succeeds completely or leaves the registry exactly as it was.
pub mod laws;
pub mod pallet;
pub mod store;
pub mod types;

pub use pallet::Pallet;
pub use store::ClaimStore;
pub use types::{AccountId, BlockNumber, ClaimRecord, Config, Error, Event};
