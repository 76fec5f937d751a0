//! Trusted boundary around the key and signature collaborator (secp256k1).
//!
//! The ledger's core treats address strings as serialized public keys and
//! consumes exactly two capabilities: signing a 32-byte message hash and
//! verifying a string-encoded signature against such a public key.  Both are
//! deterministic functions of their arguments (secp256k1 signs with RFC 6979
//! nonces), so their results are named by uninterpreted spec functions that
//! the wrappers below tie to the real calls.

use core::str::FromStr;
use vstd::prelude::*;

verus! {

/// The string-encoded ECDSA signature that the holder of the secret key
/// behind the serialized public key `public_key` produces for the 32-byte
/// message `message`.  A secp256k1 public key determines its secret key
/// uniquely, and signing is deterministic (RFC 6979), so the signature is a
/// function of these two arguments.
pub uninterp spec fn signature_of(public_key: Seq<char>, message: Seq<u8>) -> Seq<char>;

/// Whether secp256k1 accepts `signature` as a valid ECDSA signature by the
/// public key parsed from `public_key` over the 32-byte message `message`.
/// False whenever the key or the signature does not parse, or the message is
/// not 32 bytes long.
pub uninterp spec fn verifies(public_key: Seq<char>, signature: Seq<char>, message: Seq<u8>) -> bool;

/// An ECDSA keypair, held opaquely.  The serialized form of the public key
/// is cached so that contracts can speak about it; the trusted constructors
/// keep it consistent with the secret key.
pub struct Keypair {
    secret_key: secp256k1::SecretKey,
    public_key_hex: String,
}

#[verifier::external_type_specification]
#[verifier::external_body]
pub struct ExSecretKey(secp256k1::SecretKey);

impl Keypair {
    /// The serialized (lowercase hex, compressed) public key of this keypair.
    pub closed spec fn public_key(self) -> Seq<char> {
        self.public_key_hex@
    }

    /// Relies on secp256k1's `generate_keypair` with the operating system's
    /// randomness; the keypair is random, so nothing is promised of its
    /// value.  The serialized public key is a compressed key's 33 bytes
    /// written as hex, hence 66 characters.
    #[verifier::external_body]
    pub fn new() -> (kp: Keypair)
        ensures
            kp.public_key().len() == 66,
    {
        let secp = secp256k1::Secp256k1::new();
        let (secret_key, public_key) = secp.generate_keypair(&mut rand::rngs::OsRng);
        Keypair { secret_key, public_key_hex: public_key.to_string() }
    }

    /// Relies on secp256k1's `SecretKey::from_slice` and
    /// `PublicKey::from_secret_key`; returns `None` when the bytes are not a
    /// valid secret key.  The serialized public key is a compressed key's 33
    /// bytes written as hex, hence 66 characters.
    #[verifier::external_body]
    pub fn new_from_slice(secret_key: &[u8]) -> (r: Option<Keypair>)
        ensures
            r matches Some(kp) ==> kp.public_key().len() == 66,
    {
        let secp = secp256k1::Secp256k1::new();
        match secp256k1::SecretKey::from_slice(secret_key) {
            Ok(key) => {
                let public_key = secp256k1::PublicKey::from_secret_key(&secp, &key);
                Some(Keypair { secret_key: key, public_key_hex: public_key.to_string() })
            },
            Err(_) => None,
        }
    }

    /// The serialized public key, as the addresses in transactions carry it.
    pub fn export_public_key(&self) -> (r: String)
        ensures
            r@ == self.public_key(),
    {
        self.public_key_hex.clone()
    }

    /// Relies on secp256k1's `sign_ecdsa` over a 32-byte message: the
    /// signature is a deterministic (RFC 6979) function of key and message,
    /// and it verifies under this keypair's public key.
    #[verifier::external_body]
    pub fn sign(&self, message: &[u8]) -> (r: String)
        requires
            message@.len() == 32,
        ensures
            r@ == signature_of(self.public_key(), message@),
            verifies(self.public_key(), r@, message@),
    {
        let secp = secp256k1::Secp256k1::new();
        let msg = secp256k1::Message::from_digest_slice(message).expect("a 32-byte message");
        let signature = secp.sign_ecdsa(&msg, &self.secret_key);
        signature.to_string()
    }

    /// Checks a signature over a 32-byte message against the given
    /// serialized public key, or against this keypair's own when none is
    /// given.
    pub fn verify(&self, signature: String, message: &[u8], public_key: Option<String>) -> (r:
        bool)
        ensures
            r == match public_key {
                Option::Some(key) => verifies(key@, signature@, message@),
                Option::None => verifies(self.public_key(), signature@, message@),
            },
    {
        match public_key {
            Option::Some(key) => verify_signature(key.as_str(), signature.as_str(), message),
            Option::None => verify_signature(
                self.public_key_hex.as_str(),
                signature.as_str(),
                message,
            ),
        }
    }
}

/// Relies on secp256k1's `verify_ecdsa`, together with `PublicKey`,
/// `Signature` and `Message` parsing: accepts exactly the valid signatures
/// by `public_key` over `message`, and rejects whenever the key or the
/// signature does not parse or the message is not 32 bytes long.
#[verifier::external_body]
pub fn verify_signature(public_key: &str, signature: &str, message: &[u8]) -> (r: bool)
    ensures
        r == verifies(public_key@, signature@, message@),
{
    let secp = secp256k1::Secp256k1::new();
    let parsed = (
        secp256k1::PublicKey::from_str(public_key),
        secp256k1::ecdsa::Signature::from_str(signature),
        secp256k1::Message::from_digest_slice(message),
    );
    match parsed {
        (Ok(key), Ok(sig), Ok(msg)) => secp.verify_ecdsa(&msg, &sig, &key).is_ok(),
        _ => false,
    }
}

} // verus!
