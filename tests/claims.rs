use poe::{ClaimRecord, ClaimStore, Config, Error, Event, Pallet};

const A: u64 = 1;
const B: u64 = 2;
const C: u64 = 3;

fn registry(limit: u32) -> Pallet {
    Pallet::new(Config { proof_limit: limit })
}

fn abc() -> Vec<u8> {
    b"abc".to_vec()
}

#[test]
fn new_registry_is_empty() {
    let p = registry(10);
    assert_eq!(p.proof_limit(), 10);
    assert_eq!(p.proofs(&abc()), None);
    assert!(p.events().is_empty());
}

#[test]
fn create_records_owner_and_time() {
    let mut p = registry(10);
    assert_eq!(p.create_claim(A, abc(), 7), Ok(()));
    assert_eq!(p.proofs(&abc()), Some(ClaimRecord { owner: A, registered_at: 7 }));
    assert_eq!(p.events(), &vec![Event::ClaimCreated(A, abc())]);
}

#[test]
fn create_too_long_is_refused() {
    let mut p = registry(3);
    let long = b"abcd".to_vec();
    assert_eq!(p.create_claim(A, long.clone(), 1), Err(Error::ProofIsTooLong));
    assert_eq!(p.proofs(&long), None);
    assert!(p.events().is_empty());
}

#[test]
fn create_at_exact_limit_succeeds() {
    let mut p = registry(3);
    assert_eq!(p.create_claim(A, abc(), 1), Ok(()));
    assert_eq!(p.proofs(&abc()).map(|r| r.owner), Some(A));
}

#[test]
fn create_empty_proof_with_zero_limit() {
    let mut p = registry(0);
    assert_eq!(p.create_claim(A, Vec::new(), 1), Ok(()));
    assert_eq!(p.create_claim(A, vec![0u8], 1), Err(Error::ProofIsTooLong));
    assert_eq!(p.proofs(&Vec::new()), Some(ClaimRecord { owner: A, registered_at: 1 }));
}

#[test]
fn too_long_is_reported_before_already_exists() {
    let mut p = registry(3);
    assert_eq!(p.create_claim(A, abc(), 1), Ok(()));
    let long = b"abcd".to_vec();
    assert_eq!(p.create_claim(B, long, 2), Err(Error::ProofIsTooLong));
}

#[test]
fn second_create_is_refused_and_store_unchanged() {
    let mut p = registry(10);
    assert_eq!(p.create_claim(A, abc(), 1), Ok(()));
    assert_eq!(p.create_claim(B, abc(), 2), Err(Error::ProofAlreadyExist));
    assert_eq!(p.create_claim(A, abc(), 3), Err(Error::ProofAlreadyExist));
    assert_eq!(p.proofs(&abc()), Some(ClaimRecord { owner: A, registered_at: 1 }));
    assert_eq!(p.events().len(), 1);
}

#[test]
fn create_then_revoke_round_trip() {
    let mut p = registry(10);
    assert_eq!(p.create_claim(A, abc(), 1), Ok(()));
    assert_eq!(p.revoke_claim(A, abc()), Ok(()));
    assert_eq!(p.proofs(&abc()), None);
    assert_eq!(p.create_claim(B, abc(), 2), Ok(()));
    assert_eq!(p.proofs(&abc()), Some(ClaimRecord { owner: B, registered_at: 2 }));
    assert_eq!(
        p.events(),
        &vec![
            Event::ClaimCreated(A, abc()),
            Event::ClaimRevoked(A, abc()),
            Event::ClaimCreated(B, abc()),
        ]
    );
}

#[test]
fn revoke_absent_is_refused() {
    let mut p = registry(10);
    assert_eq!(p.revoke_claim(A, abc()), Err(Error::ClaimNotExist));
    assert!(p.events().is_empty());
}

#[test]
fn transfer_absent_is_refused() {
    let mut p = registry(10);
    assert_eq!(p.create_claim(A, b"xyz".to_vec(), 1), Ok(()));
    assert_eq!(p.transfer_claim(A, abc(), B, 2), Err(Error::ClaimNotExist));
    assert_eq!(p.proofs(&abc()), None);
    assert_eq!(p.events().len(), 1);
}

#[test]
fn revoke_by_non_owner_is_refused() {
    let mut p = registry(10);
    assert_eq!(p.create_claim(A, abc(), 1), Ok(()));
    assert_eq!(p.revoke_claim(B, abc()), Err(Error::NotProofOwner));
    assert_eq!(p.proofs(&abc()), Some(ClaimRecord { owner: A, registered_at: 1 }));
    assert_eq!(p.events().len(), 1);
}

#[test]
fn transfer_by_non_owner_is_refused() {
    let mut p = registry(10);
    assert_eq!(p.create_claim(A, abc(), 1), Ok(()));
    assert_eq!(p.transfer_claim(B, abc(), C, 2), Err(Error::NotProofOwner));
    assert_eq!(p.proofs(&abc()), Some(ClaimRecord { owner: A, registered_at: 1 }));
    assert_eq!(p.events().len(), 1);
}

#[test]
fn transfer_moves_ownership_and_refreshes_time() {
    let mut p = registry(10);
    assert_eq!(p.create_claim(A, abc(), 1), Ok(()));
    assert_eq!(p.create_claim(A, b"other".to_vec(), 1), Ok(()));
    assert_eq!(p.transfer_claim(A, abc(), B, 9), Ok(()));
    assert_eq!(p.proofs(&abc()), Some(ClaimRecord { owner: B, registered_at: 9 }));
    assert_eq!(p.proofs(&b"other".to_vec()), Some(ClaimRecord { owner: A, registered_at: 1 }));
    assert_eq!(p.events().last(), Some(&Event::ClaimTransfered(A, abc(), B)));
    assert_eq!(p.transfer_claim(A, abc(), C, 10), Err(Error::NotProofOwner));
    assert_eq!(p.proofs(&abc()), Some(ClaimRecord { owner: B, registered_at: 9 }));
}

#[test]
fn transfer_to_self_refreshes_time() {
    let mut p = registry(10);
    assert_eq!(p.create_claim(A, abc(), 1), Ok(()));
    assert_eq!(p.transfer_claim(A, abc(), A, 4), Ok(()));
    assert_eq!(p.proofs(&abc()), Some(ClaimRecord { owner: A, registered_at: 4 }));
}

#[test]
fn claim_lifecycle_scenario() {
    let mut p = registry(10);
    assert_eq!(p.create_claim(A, abc(), 1), Ok(()));
    assert_eq!(p.proofs(&abc()).map(|r| r.owner), Some(A));
    assert_eq!(p.create_claim(B, abc(), 2), Err(Error::ProofAlreadyExist));
    assert_eq!(p.transfer_claim(A, abc(), C, 3), Ok(()));
    assert_eq!(p.proofs(&abc()).map(|r| r.owner), Some(C));
    assert_eq!(p.revoke_claim(A, abc()), Err(Error::NotProofOwner));
    assert_eq!(p.revoke_claim(C, abc()), Ok(()));
    assert_eq!(p.proofs(&abc()), None);
}

#[test]
fn store_insert_get_remove() {
    let mut s = ClaimStore::new();
    let r1 = ClaimRecord { owner: A, registered_at: 1 };
    let r2 = ClaimRecord { owner: B, registered_at: 2 };
    s.insert(abc(), r1);
    s.insert(b"ab".to_vec(), r2);
    assert!(s.contains(&abc()));
    assert_eq!(s.get(&abc()), Some(r1));
    assert_eq!(s.get(&b"ab".to_vec()), Some(r2));
    s.insert(abc(), r2);
    assert_eq!(s.get(&abc()), Some(r2));
    s.remove(&abc());
    assert!(!s.contains(&abc()));
    assert_eq!(s.get(&b"ab".to_vec()), Some(r2));
    s.remove(&abc());
    assert_eq!(s.get(&abc()), None);
}

#[test]
fn bytes_eq_compares_contents() {
    assert!(poe::store::bytes_eq(&abc(), &abc()));
    assert!(!poe::store::bytes_eq(&abc(), &b"abd".to_vec()));
    assert!(!poe::store::bytes_eq(&abc(), &b"ab".to_vec()));
    assert!(poe::store::bytes_eq(&Vec::new(), &Vec::new()));
}
