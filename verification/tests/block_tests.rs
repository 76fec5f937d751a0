use badcoin::block::Block;
use badcoin::signed_transaction::SignedTransaction;
use sha2::Digest;

fn sample_transactions() -> Vec<SignedTransaction> {
    vec![
        SignedTransaction::new("bob", "alice", 7, 42, "sig-one", "hash-one"),
        SignedTransaction::new("carol", "bob", 8, 5, "sig-two", "hash-two"),
    ]
}

fn manual_hash(
    index: u64,
    transactions: &Vec<SignedTransaction>,
    previous_hash: &str,
    timestamp: i64,
    nonce: u64,
) -> String {
    let mut data = Vec::new();
    data.extend_from_slice(&index.to_le_bytes());
    for transaction in transactions {
        data.extend_from_slice(&transaction.as_bytes());
    }
    data.extend_from_slice(previous_hash.as_bytes());
    data.extend_from_slice(&(timestamp as u64).to_le_bytes());
    data.extend_from_slice(&nonce.to_le_bytes());
    hex::encode(sha2::Sha256::digest(&data))
}

#[test]
fn calculate_hash_matches_manual_recomputation() {
    let transactions = sample_transactions();
    let computed = Block::calculate_hash(3, &transactions, "prev", 99, 4);
    assert_eq!(computed, manual_hash(3, &transactions, "prev", 99, 4));
}

#[test]
fn new_block_is_valid() {
    let block = Block::new(1, sample_transactions(), "prev", 99, 0);
    assert_eq!(block.index, 1);
    assert_eq!(block.previous_hash, "prev");
    assert_eq!(block.timestamp, 99);
    assert_eq!(block.nonce, 0);
    assert_eq!(block.transactions.len(), 2);
    assert!(block.is_valid());
}

#[test]
fn created_block_is_valid() {
    let block = Block::create(1, sample_transactions(), "prev", 0);
    assert!(block.is_valid());
}

#[test]
fn update_nonce_changes_hash_and_keeps_validity() {
    let mut block = Block::new(1, sample_transactions(), "prev", 99, 0);
    let old_hash = block.hash.clone();
    block.update_nonce(1);
    assert_eq!(block.nonce, 1);
    assert_ne!(block.hash, old_hash);
    assert!(block.is_valid());
}

#[test]
fn tampered_block_is_invalid() {
    let mut block = Block::new(1, sample_transactions(), "prev", 99, 0);
    block.nonce += 1;
    assert!(!block.is_valid());
    block.nonce -= 1;
    assert!(block.is_valid());
    block.hash = "deadbeef".to_string();
    assert!(!block.is_valid());
}

#[test]
fn as_hash_tracks_current_fields() {
    let block = Block::new(1, sample_transactions(), "prev", 99, 0);
    assert_eq!(block.as_hash(), block.hash);
    assert_eq!(block.as_hash(), manual_hash(1, &block.transactions, "prev", 99, 0));
}
