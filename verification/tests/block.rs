use marev1::Block;
use marev1::Transaction;

#[test]
fn creates_block_with_hash() {
    let block = Block::new(0, vec![], "0".to_string());
    assert_eq!(block.index, 0);
    assert!(!block.hash.is_empty());
}

#[test]
fn mining_changes_hash() {
    let mut block = Block::new(1, vec![], "abc".to_string());
    let initial = block.hash.clone();
    block.mine(2);
    assert_ne!(initial, block.hash);
}

#[test]
fn hash_is_deterministic_64_lowercase_hex() {
    let tx = Transaction::new("Alice", "Bob", 100, 6);
    let block = Block::new(3, vec![tx], "00abc".to_string());
    let first = block.calculate_hash();
    let second = block.calculate_hash();
    assert_eq!(first, second);
    assert_eq!(block.hash, first);
    assert_eq!(first.len(), 64);
    assert!(first.chars().all(|c| "0123456789abcdef".contains(c)));
}

#[test]
fn mined_hash_has_leading_zeros() {
    for difficulty in 0..=3usize {
        let mut block = Block::new(1, vec![], "0".to_string());
        block.mine(difficulty);
        assert!(block.hash.chars().take(difficulty).all(|c| c == '0'));
        assert_eq!(block.hash, block.calculate_hash());
    }
}
