use badcoin::keypair::Keypair;
use badcoin::signed_transaction::{SignedTransaction, REWARD_AMOUNT};
use badcoin::transaction::Transaction;
use sha2::Digest;

fn test_keypair() -> Keypair {
    Keypair::new_from_slice(&[7u8; 32]).expect("a valid secret key")
}

fn signed_transfer(keypair: &Keypair, to: &str, amount: i64) -> SignedTransaction {
    let transaction = Transaction::create(to, &keypair.export_public_key(), amount);
    SignedTransaction::create(transaction, keypair)
}

#[test]
fn created_transaction_is_valid() {
    let keypair = test_keypair();
    let signed = signed_transfer(&keypair, "bob", 20);
    assert!(signed.is_valid());
}

#[test]
fn tampered_amount_is_invalid() {
    let keypair = test_keypair();
    let mut signed = signed_transfer(&keypair, "bob", 20);
    assert!(signed.is_valid());
    signed.transaction.amount += 1;
    assert!(!signed.is_valid());
}

#[test]
fn tampered_signature_is_invalid() {
    let keypair = test_keypair();
    let mut signed = signed_transfer(&keypair, "bob", 20);
    signed.signature = "00".to_string();
    assert!(!signed.is_valid());
}

#[test]
fn tampered_hash_is_invalid() {
    let keypair = test_keypair();
    let mut signed = signed_transfer(&keypair, "bob", 20);
    signed.hash = "deadbeef".to_string();
    assert!(!signed.is_valid());
}

#[test]
fn hash_binds_transaction_and_signature() {
    let keypair = test_keypair();
    let signed = signed_transfer(&keypair, "bob", 20);
    let mut data = signed.transaction.as_bytes();
    data.extend_from_slice(signed.signature.as_bytes());
    let digest = sha2::Sha256::digest(&data);
    assert_eq!(signed.hash, hex::encode(digest));
}

#[test]
fn signature_covers_transaction_hash() {
    let keypair = test_keypair();
    let signed = signed_transfer(&keypair, "bob", 20);
    assert!(badcoin::keypair::verify_signature(
        &keypair.export_public_key(),
        &signed.signature,
        &signed.transaction.as_hash(),
    ));
}

#[test]
fn new_stores_fields_verbatim() {
    let signed = SignedTransaction::new("bob", "alice", 7, 42, "sig", "hash");
    assert_eq!(signed.transaction.to, "bob");
    assert_eq!(signed.transaction.from, "alice");
    assert_eq!(signed.transaction.timestamp, 7);
    assert_eq!(signed.transaction.amount, 42);
    assert_eq!(signed.signature, "sig");
    assert_eq!(signed.hash, "hash");
}

#[test]
fn reward_has_sentinel_provenance() {
    let reward = SignedTransaction::create_reward("miner");
    assert_eq!(reward.transaction.to, "miner");
    assert_eq!(reward.transaction.from, "0");
    assert_eq!(reward.transaction.amount, REWARD_AMOUNT);
    assert_eq!(reward.signature, "0");
    // The sentinel signature never verifies, so a reward fails the standard
    // validity check even though its content hash is honest.
    assert!(!reward.is_valid());
    let mut data = reward.transaction.as_bytes();
    data.extend_from_slice(reward.signature.as_bytes());
    assert_eq!(reward.hash, hex::encode(sha2::Sha256::digest(&data)));
}

#[test]
fn as_bytes_concatenates_all_fields() {
    let keypair = test_keypair();
    let signed = signed_transfer(&keypair, "bob", 20);
    let mut expected = signed.transaction.as_bytes();
    expected.extend_from_slice(signed.signature.as_bytes());
    expected.extend_from_slice(signed.hash.as_bytes());
    assert_eq!(signed.as_bytes(), expected);
    let digest = sha2::Sha256::digest(&expected);
    assert_eq!(signed.as_hash().to_vec(), digest.to_vec());
}
