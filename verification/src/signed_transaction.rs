//! A transaction bound to its signature and content hash.

use crate::digest::{hex_encode, hex_of, sha256, sha256_of};
use crate::keypair::{signature_of, verifies, verify_signature, Keypair};
use crate::transaction::Transaction;
use vstd::prelude::*;
use vstd::slice::slice_to_vec;
use vstd::utf8::encode_utf8;

verus! {

/// The amount credited to a miner by a reward transaction.
pub const REWARD_AMOUNT: i64 = 10;

/// The shape of a mining reward: a fixed amount credited to the miner from
/// the sentinel address `"0"`, carrying the sentinel signature `"0"` and an
/// honestly computed content hash.
pub open spec fn reward_shaped(t: SignedTransaction, reward_address: Seq<char>) -> bool {
    &&& t.transaction.to@ == reward_address
    &&& t.transaction.from@ == "0"@
    &&& t.transaction.amount == REWARD_AMOUNT
    &&& t.signature@ == "0"@
    &&& t.hash_ok()
}

/// A transaction together with a string-encoded signature over its hash and
/// a hex-encoded SHA-256 content hash over transaction bytes and signature
/// bytes.  Created once, then either accepted into a block or discarded.
#[derive(Debug)]
pub struct SignedTransaction {
    pub transaction: Transaction,
    pub signature: String,
    pub hash: String,
}

impl SignedTransaction {
    /// The bytes the content hash is computed over: transaction bytes, then
    /// signature bytes.
    pub open spec fn content_bytes(self) -> Seq<u8> {
        self.transaction.bytes() + encode_utf8(self.signature@)
    }

    /// The hex-encoded SHA-256 digest the `hash` field must equal.
    pub open spec fn content_hash(self) -> Seq<char> {
        hex_of(sha256_of(self.content_bytes()))
    }

    /// The stored hash matches its recomputation from the current fields.
    pub open spec fn hash_ok(self) -> bool {
        self.hash@ == self.content_hash()
    }

    /// The signature verifies over the transaction's hash against `from`
    /// read as a serialized public key.
    pub open spec fn sig_ok(self) -> bool {
        verifies(self.transaction.from@, self.signature@, sha256_of(self.transaction.bytes()))
    }

    /// The validity invariant: both the hash and the signature check pass.
    /// Reward transactions carry the sentinel signature `"0"`, which never
    /// verifies, so they are deliberately outside this notion of validity.
    pub open spec fn valid(self) -> bool {
        self.hash_ok() && self.sig_ok()
    }

    /// The byte encoding of the whole signed transaction: transaction bytes,
    /// signature bytes, hash bytes.
    pub open spec fn bytes(self) -> Seq<u8> {
        self.transaction.bytes() + encode_utf8(self.signature@) + encode_utf8(self.hash@)
    }

    /// Recreates a signed transaction whose fields are all known.  The given
    /// hash and signature are stored as they are, not recomputed.
    pub fn new(to: &str, from: &str, timestamp: i64, amount: i64, signature: &str, hash: &str) -> (st:
        SignedTransaction)
        ensures
            st.transaction.to@ == to@,
            st.transaction.from@ == from@,
            st.transaction.timestamp == timestamp,
            st.transaction.amount == amount,
            st.signature@ == signature@,
            st.hash@ == hash@,
    {
        let transaction = Transaction::new(to, from, timestamp, amount);
        SignedTransaction {
            transaction: transaction,
            signature: signature.to_owned(),
            hash: hash.to_owned(),
        }
    }

    /// The hex-encoded SHA-256 digest over a transaction's bytes followed by
    /// a signature's bytes: the content-hash formula shared by creation and
    /// validation.
    fn hash_over(transaction: &Transaction, signature: &str) -> (r: String)
        ensures
            r@ == hex_of(sha256_of(transaction.bytes() + encode_utf8(signature@))),
    {
        let mut data = transaction.as_bytes();
        let mut signature_bytes: Vec<u8> = slice_to_vec(signature.as_bytes());
        data.append(&mut signature_bytes);
        let digest = sha256(data.as_slice());
        hex_encode(digest.as_slice())
    }

    /// Signs a transaction's hash with the keypair and binds the result: the
    /// signature is over the transaction's SHA-256 hash, and the content
    /// hash is recomputed from transaction and signature bytes.  When the
    /// transaction's `from` address is the keypair's own public key, the
    /// result satisfies the full validity invariant.
    pub fn create(transaction: Transaction, keypair: &Keypair) -> (st: SignedTransaction)
        ensures
            st.transaction == transaction,
            st.signature@ == signature_of(keypair.public_key(), sha256_of(transaction.bytes())),
            st.hash_ok(),
            transaction.from@ == keypair.public_key() ==> st.valid(),
    {
        let transaction_hash = transaction.as_hash();
        let signature = keypair.sign(transaction_hash.as_slice());
        let hash = SignedTransaction::hash_over(&transaction, signature.as_str());
        SignedTransaction { transaction: transaction, signature: signature, hash: hash }
    }

    /// Builds the reward transaction for a miner: a fixed amount credited to
    /// `reward_address` from the sentinel address `"0"`, with the sentinel
    /// signature `"0"`.  Its content hash is computed honestly, but it is
    /// intentionally unsigned, so `is_valid` rejects it.
    pub fn create_reward(reward_address: &str) -> (st: SignedTransaction)
        ensures
            reward_shaped(st, reward_address@),
    {
        let transaction = Transaction::create(reward_address, "0", REWARD_AMOUNT);
        let hash = SignedTransaction::hash_over(&transaction, "0");
        SignedTransaction { transaction: transaction, signature: "0".to_owned(), hash: hash }
    }

    /// Recomputes the content hash and verifies the signature; true exactly
    /// when both agree with the stored fields.
    pub fn is_valid(&self) -> (r: bool)
        ensures
            r == self.valid(),
    {
        let recomputed = SignedTransaction::hash_over(&self.transaction, self.signature.as_str());
        let hash_matches = recomputed == self.hash;
        let transaction_hash = self.transaction.as_hash();
        let signature_ok = verify_signature(
            self.transaction.from.as_str(),
            self.signature.as_str(),
            transaction_hash.as_slice(),
        );
        hash_matches && signature_ok
    }

    /// The byte encoding of the whole signed transaction.
    pub fn as_bytes(&self) -> (r: Vec<u8>)
        ensures
            r@ == self.bytes(),
    {
        let mut out = self.transaction.as_bytes();
        let mut signature_bytes: Vec<u8> = slice_to_vec(self.signature.as_str().as_bytes());
        out.append(&mut signature_bytes);
        let mut hash_bytes: Vec<u8> = slice_to_vec(self.hash.as_str().as_bytes());
        out.append(&mut hash_bytes);
        out
    }

    /// The SHA-256 digest of the whole signed transaction's bytes.
    pub fn as_hash(&self) -> (r: [u8; 32])
        ensures
            r@ == sha256_of(self.bytes()),
    {
        let bytes = self.as_bytes();
        sha256(bytes.as_slice())
    }
}

/// Tampering with the stored hash breaks validity: a signed transaction
/// whose transaction and signature match a valid one's, but whose stored
/// hash differs, fails the validity check.
pub proof fn lemma_hash_tamper_invalidates(original: SignedTransaction, tampered: SignedTransaction)
    requires
        original.valid(),
        tampered.transaction == original.transaction,
        tampered.signature@ == original.signature@,
        tampered.hash@ != original.hash@,
    ensures
        !tampered.valid(),
{
    assert(tampered.content_bytes() == original.content_bytes());
}

impl Clone for SignedTransaction {
    /// A clone is equal to the original, field for field.
    fn clone(&self) -> (r: Self)
        ensures
            r == *self,
    {
        SignedTransaction {
            transaction: self.transaction.clone(),
            signature: self.signature.clone(),
            hash: self.hash.clone(),
        }
    }
}

} // verus!
