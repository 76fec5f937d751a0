use badcoin::transaction::Transaction;
use sha2::Digest;

fn expected_bytes(to: &str, from: &str, amount: i64, timestamp: i64) -> Vec<u8> {
    let mut out = Vec::new();
    out.extend_from_slice(to.as_bytes());
    out.extend_from_slice(from.as_bytes());
    out.extend_from_slice(&(amount as u64).to_le_bytes());
    out.extend_from_slice(&(timestamp as u64).to_le_bytes());
    out
}

#[test]
fn new_stores_fields() {
    let t = Transaction::new("bob", "alice", 7, 42);
    assert_eq!(t.to, "bob");
    assert_eq!(t.from, "alice");
    assert_eq!(t.timestamp, 7);
    assert_eq!(t.amount, 42);
}

#[test]
fn create_stamps_fields() {
    let t = Transaction::create("bob", "alice", 42);
    assert_eq!(t.to, "bob");
    assert_eq!(t.from, "alice");
    assert_eq!(t.amount, 42);
}

#[test]
fn bytes_follow_canonical_layout() {
    let t = Transaction::new("bob", "alice", 7, 42);
    assert_eq!(t.as_bytes(), expected_bytes("bob", "alice", 42, 7));
}

#[test]
fn bytes_encode_negative_values_two_complement() {
    let t = Transaction::new("b", "a", -2, -1);
    assert_eq!(t.as_bytes(), expected_bytes("b", "a", -1, -2));
}

#[test]
fn bytes_and_hash_are_deterministic() {
    let t = Transaction::new("bob", "alice", 7, 42);
    assert_eq!(t.as_bytes(), t.as_bytes());
    assert_eq!(t.as_hash(), t.as_hash());
}

#[test]
fn hash_is_sha256_of_bytes() {
    let t = Transaction::new("bob", "alice", 7, 42);
    let digest = sha2::Sha256::digest(&t.as_bytes());
    assert_eq!(t.as_hash().to_vec(), digest.to_vec());
}

#[test]
fn clone_preserves_fields() {
    let t = Transaction::new("bob", "alice", 7, 42);
    let c = t.clone();
    assert_eq!(c.to, t.to);
    assert_eq!(c.from, t.from);
    assert_eq!(c.timestamp, t.timestamp);
    assert_eq!(c.amount, t.amount);
}
