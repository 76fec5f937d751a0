//! An ordered batch of signed transactions with chain-linkage metadata and
//! its own content hash.

use crate::clock::now_timestamp;
use crate::digest::{hex_encode, hex_of, sha256, sha256_of};
use crate::signed_transaction::SignedTransaction;
use crate::transaction::spec_i64_le_bytes;
use vstd::bytes::{spec_u64_to_le_bytes, u64_to_le_bytes};
use vstd::prelude::*;
use vstd::slice::slice_to_vec;
use vstd::utf8::encode_utf8;

verus! {

/// A block: its position in the chain, the transactions it seals, the hash
/// of its predecessor, its own hash, a timestamp, and the proof-of-work
/// nonce.  The nonce (and with it the hash) changes only during mining.
pub struct Block {
    pub transactions: Vec<SignedTransaction>,
    pub index: u64,
    pub previous_hash: String,
    pub hash: String,
    pub timestamp: i64,
    pub nonce: u64,
}

/// The concatenated byte encodings of a sequence of transactions, in order.
pub open spec fn txs_bytes(txs: Seq<SignedTransaction>) -> Seq<u8>
    decreases txs.len(),
{
    if txs.len() == 0 {
        Seq::empty()
    } else {
        txs[0].bytes() + txs_bytes(txs.skip(1))
    }
}

/// Appending one transaction to a sequence appends that transaction's bytes
/// to the sequence's encoding.
proof fn lemma_txs_bytes_push(s: Seq<SignedTransaction>, x: SignedTransaction)
    ensures
        txs_bytes(s.push(x)) == txs_bytes(s) + x.bytes(),
    decreases s.len(),
{
    if s.len() == 0 {
        assert(s.push(x).skip(1) =~= Seq::<SignedTransaction>::empty());
        assert(s.push(x)[0] == x);
        assert(x.bytes() + txs_bytes(Seq::<SignedTransaction>::empty()) =~= x.bytes());
        assert(txs_bytes(s) + x.bytes() =~= x.bytes());
    } else {
        lemma_txs_bytes_push(s.skip(1), x);
        assert(s.push(x).skip(1) =~= s.skip(1).push(x));
        assert(s.push(x)[0] == s[0]);
        assert(s[0].bytes() + (txs_bytes(s.skip(1)) + x.bytes()) =~= (s[0].bytes() + txs_bytes(
            s.skip(1),
        )) + x.bytes());
    }
}

/// The bytes a block's hash is computed over: index (8 bytes little-endian),
/// each transaction's bytes in order, the previous hash's bytes, then
/// timestamp and nonce (8 bytes little-endian each).
pub open spec fn block_hash_input(
    index: u64,
    transactions: Seq<SignedTransaction>,
    previous_hash: Seq<char>,
    timestamp: i64,
    nonce: u64,
) -> Seq<u8> {
    spec_u64_to_le_bytes(index) + txs_bytes(transactions) + encode_utf8(previous_hash)
        + spec_i64_le_bytes(timestamp) + spec_u64_to_le_bytes(nonce)
}

/// The hex-encoded SHA-256 digest of a block's hash input.
pub open spec fn spec_block_hash(
    index: u64,
    transactions: Seq<SignedTransaction>,
    previous_hash: Seq<char>,
    timestamp: i64,
    nonce: u64,
) -> Seq<char> {
    hex_of(sha256_of(block_hash_input(index, transactions, previous_hash, timestamp, nonce)))
}

impl Block {
    /// The most transactions a mined block may pack.
    pub const MAX_TRANSACTIONS: i64 = 100;

    /// The hash this block's fields call for.
    pub open spec fn spec_hash(self) -> Seq<char> {
        spec_block_hash(self.index, self.transactions@, self.previous_hash@, self.timestamp, self.nonce)
    }

    /// The stored hash matches its recomputation from the current fields.
    pub open spec fn hash_ok(self) -> bool {
        self.hash@ == self.spec_hash()
    }

    /// Computes the canonical block hash from fully explicit fields.
    pub fn calculate_hash(
        index: u64,
        transactions: &Vec<SignedTransaction>,
        previous_hash: &str,
        timestamp: i64,
        nonce: u64,
    ) -> (r: String)
        ensures
            r@ == spec_block_hash(index, transactions@, previous_hash@, timestamp, nonce),
    {
        let mut data: Vec<u8> = u64_to_le_bytes(index);
        proof {
            assert(data@ + txs_bytes(transactions@.take(0)) =~= data@);
        }
        let mut i: usize = 0;
        while i < transactions.len()
            invariant
                i <= transactions@.len(),
                data@ == spec_u64_to_le_bytes(index) + txs_bytes(transactions@.take(i as int)),
            decreases transactions@.len() - i,
        {
            proof {
                lemma_txs_bytes_push(transactions@.take(i as int), transactions@[i as int]);
                assert(transactions@.take(i as int).push(transactions@[i as int])
                    =~= transactions@.take(i as int + 1));
                assert((spec_u64_to_le_bytes(index) + txs_bytes(transactions@.take(i as int)))
                    + transactions@[i as int].bytes() =~= spec_u64_to_le_bytes(index) + txs_bytes(
                    transactions@.take(i as int + 1),
                ));
            }
            let mut tx_bytes = transactions[i].as_bytes();
            data.append(&mut tx_bytes);
            i += 1;
        }
        proof {
            assert(transactions@.take(transactions@.len() as int) =~= transactions@);
        }
        let mut previous_hash_bytes: Vec<u8> = slice_to_vec(previous_hash.as_bytes());
        data.append(&mut previous_hash_bytes);
        let mut timestamp_bytes: Vec<u8> = u64_to_le_bytes(timestamp as u64);
        data.append(&mut timestamp_bytes);
        let mut nonce_bytes: Vec<u8> = u64_to_le_bytes(nonce);
        data.append(&mut nonce_bytes);
        let digest = sha256(data.as_slice());
        hex_encode(digest.as_slice())
    }

    /// Recreates a block whose fields are all known; the hash is recomputed,
    /// never taken from the caller.
    pub fn new(
        index: u64,
        transactions: Vec<SignedTransaction>,
        previous_hash: &str,
        timestamp: i64,
        nonce: u64,
    ) -> (b: Block)
        ensures
            b.index == index,
            b.transactions@ == transactions@,
            b.previous_hash@ == previous_hash@,
            b.timestamp == timestamp,
            b.nonce == nonce,
            b.hash_ok(),
    {
        let hash = Block::calculate_hash(index, &transactions, previous_hash, timestamp, nonce);
        Block {
            index: index,
            transactions: transactions,
            previous_hash: previous_hash.to_owned(),
            hash: hash,
            timestamp: timestamp,
            nonce: nonce,
        }
    }

    /// Creates a block stamped with the current time, hash computed from the
    /// given fields.
    pub fn create(index: u64, transactions: Vec<SignedTransaction>, previous_hash: &str, nonce: u64) -> (b:
        Block)
        ensures
            b.index == index,
            b.transactions@ == transactions@,
            b.previous_hash@ == previous_hash@,
            b.nonce == nonce,
            b.hash_ok(),
    {
        let timestamp: i64 = now_timestamp();
        Block::new(index, transactions, previous_hash, timestamp, nonce)
    }

    /// Sets the nonce and rehashes the block: the one permitted mutation,
    /// used by the mining loop.  The hash tracks the new fields.
    pub fn update_nonce(&mut self, nonce: u64)
        ensures
            final(self).nonce == nonce,
            final(self).index == old(self).index,
            final(self).transactions@ == old(self).transactions@,
            final(self).previous_hash@ == old(self).previous_hash@,
            final(self).timestamp == old(self).timestamp,
            final(self).hash_ok(),
    {
        self.nonce = nonce;
        self.hash = self.as_hash();
    }

    /// Recomputes the hash the current fields call for.
    pub fn as_hash(&self) -> (r: String)
        ensures
            r@ == self.spec_hash(),
    {
        Block::calculate_hash(
            self.index,
            &self.transactions,
            self.previous_hash.as_str(),
            self.timestamp,
            self.nonce,
        )
    }

    /// True exactly when the stored hash matches its recomputation.
    pub fn is_valid(&self) -> (r: bool)
        ensures
            r == self.hash_ok(),
    {
        let recomputed = self.as_hash();
        self.hash == recomputed
    }
}

} // verus!
