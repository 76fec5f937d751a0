use badcoin::keypair::{verify_signature, Keypair};

#[test]
fn keypair_from_slice_is_deterministic() {
    let first = Keypair::new_from_slice(&[1u8; 32]).expect("a valid secret key");
    let second = Keypair::new_from_slice(&[1u8; 32]).expect("a valid secret key");
    assert_eq!(first.export_public_key(), second.export_public_key());
}

#[test]
fn zero_bytes_are_not_a_secret_key() {
    assert!(Keypair::new_from_slice(&[0u8; 32]).is_none());
    assert!(Keypair::new_from_slice(&[1u8; 5]).is_none());
}

#[test]
fn generated_keypairs_differ() {
    let first = Keypair::new();
    let second = Keypair::new();
    assert_ne!(first.export_public_key(), second.export_public_key());
}

#[test]
fn signing_is_deterministic_and_verifies() {
    let keypair = Keypair::new_from_slice(&[2u8; 32]).expect("a valid secret key");
    let message = [5u8; 32];
    let signature = keypair.sign(&message);
    assert_eq!(signature, keypair.sign(&message));
    assert!(verify_signature(&keypair.export_public_key(), &signature, &message));
}

#[test]
fn keypair_verify_defaults_to_its_own_key() {
    let keypair = Keypair::new_from_slice(&[2u8; 32]).expect("a valid secret key");
    let other = Keypair::new_from_slice(&[3u8; 32]).expect("a valid secret key");
    let message = [5u8; 32];
    let signature = keypair.sign(&message);
    assert!(keypair.verify(signature.clone(), &message, None));
    assert!(keypair.verify(signature.clone(), &message, Some(keypair.export_public_key())));
    assert!(!keypair.verify(signature, &message, Some(other.export_public_key())));
}

#[test]
fn verification_rejects_the_wrong_message_key_or_signature() {
    let keypair = Keypair::new_from_slice(&[2u8; 32]).expect("a valid secret key");
    let other = Keypair::new_from_slice(&[3u8; 32]).expect("a valid secret key");
    let message = [5u8; 32];
    let signature = keypair.sign(&message);
    assert!(!verify_signature(&keypair.export_public_key(), &signature, &[6u8; 32]));
    assert!(!verify_signature(&other.export_public_key(), &signature, &message));
    assert!(!verify_signature("0", &signature, &message));
    assert!(!verify_signature(&keypair.export_public_key(), "0", &message));
    assert!(!verify_signature(&keypair.export_public_key(), &signature, &[5u8; 31]));
}
