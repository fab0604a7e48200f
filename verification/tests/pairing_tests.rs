use bore::pairing::PairingTable;

#[test]
fn claim_hands_back_the_public_socket_once() {
    let mut table = PairingTable::new();
    assert!(table.insert(42, 7, 0));
    assert_eq!(table.claim(42), Some(7));
    // The second claim for the same id finds nothing: the pairing cannot be
    // won twice, however two submissions interleave under the lock.
    assert_eq!(table.claim(42), None);
}

#[test]
fn duplicate_id_is_refused() {
    let mut table = PairingTable::new();
    assert!(table.insert(42, 7, 0));
    assert!(!table.insert(42, 8, 1));
    assert_eq!(table.claim(42), Some(7));
}

#[test]
fn unknown_id_claims_nothing() {
    let mut table = PairingTable::new();
    assert!(table.insert(1, 10, 0));
    assert_eq!(table.claim(2), None);
    assert_eq!(table.claim(1), Some(10));
}

#[test]
fn expiry_removes_only_the_stale_entries() {
    let mut table = PairingTable::new();
    assert!(table.insert(1, 10, 0));
    assert!(table.insert(2, 20, 500));
    assert!(table.insert(3, 30, 900));
    // Clock at 1000, window 1000ms: only the entry made at 0 has run out.
    let closed = table.expire(1000, 1000);
    assert_eq!(closed, vec![10]);
    assert_eq!(table.claim(1), None);
    assert_eq!(table.claim(2), Some(20));
    assert_eq!(table.claim(3), Some(30));
}

#[test]
fn expiry_with_time_to_spare_removes_nothing() {
    let mut table = PairingTable::new();
    assert!(table.insert(1, 10, 100));
    let closed = table.expire(99, 1000);
    assert!(closed.is_empty());
    assert_eq!(table.claim(1), Some(10));
}
