use marev1::Blockchain;
use marev1::Transaction;

#[test]
fn creates_blockchain() {
    let chain = Blockchain::new();
    assert_eq!(chain.chain.len(), 1);
    assert!(chain.is_valid());
}

#[test]
fn mines_block() {
    let mut chain = Blockchain::new();
    chain.add_transaction(Transaction::new("A", "B", 25, 6));
    chain.mine_pending("Miner");
    assert_eq!(chain.chain.len(), 2);
    assert!(chain.is_valid());
}

#[test]
fn genesis_block_shape() {
    let chain = Blockchain::new();
    let genesis = &chain.chain[0];
    assert_eq!(genesis.index, 0);
    assert!(genesis.transactions.is_empty());
    assert_eq!(genesis.previous_hash, "0");
    assert_eq!(genesis.hash, genesis.calculate_hash());
    assert!(chain.is_valid());
}

#[test]
fn mined_block_holds_pool_plus_reward() {
    let mut chain = Blockchain::new();
    chain.add_transaction(Transaction::new("A", "B", 25, 6));
    chain.mine_pending("Miner");
    assert!(chain.pending_transactions.is_empty());
    let block = &chain.chain[1];
    assert_eq!(block.transactions.len(), 2);
    assert_eq!(block.transactions[0].from, "A");
    assert_eq!(block.transactions[0].to, "B");
    assert_eq!(block.transactions[0].amount, 25);
    let reward = &block.transactions[1];
    assert_eq!(reward.from, "System");
    assert_eq!(reward.to, "Miner");
    assert_eq!(reward.amount, 10);
    assert_eq!(reward.fee, 0);
    assert_eq!(block.previous_hash, chain.chain[0].hash);
    assert!(chain.is_valid());
}

#[test]
fn tampering_with_appended_block_invalidates_chain() {
    let mut chain = Blockchain::new();
    chain.add_transaction(Transaction::new("A", "B", 25, 6));
    chain.mine_pending("Miner");
    assert_eq!(chain.chain.len(), 2);
    assert!(chain.is_valid());
    chain.chain[1].transactions[0].amount = 9999;
    assert!(!chain.is_valid());
}

#[test]
fn default_chain_matches_fresh_chain_shape() {
    let chain = Blockchain::default();
    assert_eq!(chain.chain.len(), 1);
    assert_eq!(chain.difficulty, 2);
    assert_eq!(chain.mining_reward, 10);
    assert!(chain.pending_transactions.is_empty());
    assert!(chain.is_valid());
}
