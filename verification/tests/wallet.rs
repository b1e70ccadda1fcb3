use marev1::Wallet;

#[test]
fn creates_wallet_with_address() {
    let wallet = Wallet::new("Alice");
    assert!(wallet.address.starts_with("0x"));
    assert_eq!(wallet.owner, "Alice");
}

#[test]
fn address_is_deterministic_and_well_formed() {
    let first = Wallet::new("Alice");
    let second = Wallet::new("Alice");
    assert_eq!(first.address, second.address);
    assert_eq!(first.address.len(), 42);
    assert!(first.address.starts_with("0x"));
}

#[test]
fn address_matches_known_digest() {
    // SHA-256("Alice") begins with 3bc51062973c458d5a6f2d8d64a02324...
    let wallet = Wallet::new("Alice");
    assert_eq!(wallet.address, "0x3bc51062973c458d5a6f2d8d64a023246354ad7e");
}

#[test]
fn distinct_owners_get_distinct_addresses() {
    let alice = Wallet::new("Alice");
    let bob = Wallet::new("Bob");
    assert_ne!(alice.address, bob.address);
}
