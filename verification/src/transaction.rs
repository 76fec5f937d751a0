//! An unsigned value-transfer record with its canonical byte encoding and
//! SHA-256 hash.

use crate::clock::now_timestamp;
use crate::digest::{sha256, sha256_of};
use vstd::bytes::{spec_u64_to_le_bytes, u64_to_le_bytes};
use vstd::prelude::*;
use vstd::slice::slice_to_vec;
use vstd::utf8::encode_utf8;

verus! {

/// An unsigned transfer: who pays whom, how much, and when.  Immutable once
/// created.
#[derive(Debug)]
pub struct Transaction {
    pub from: String,
    pub to: String,
    pub timestamp: i64,
    pub amount: i64,
}

/// The 8-byte little-endian encoding of a signed 64-bit value (two's
/// complement).
pub open spec fn spec_i64_le_bytes(x: i64) -> Seq<u8> {
    spec_u64_to_le_bytes(x as u64)
}

impl Transaction {
    /// The canonical encoding: `to` bytes, then `from` bytes, then the
    /// amount and the timestamp, each as 8 little-endian bytes.  The order
    /// and widths are fixed; every hash in the ledger depends on them.
    pub open spec fn bytes(self) -> Seq<u8> {
        encode_utf8(self.to@) + encode_utf8(self.from@) + spec_i64_le_bytes(self.amount)
            + spec_i64_le_bytes(self.timestamp)
    }

    /// Recreates a transaction whose fields are all known.
    pub fn new(to: &str, from: &str, timestamp: i64, amount: i64) -> (t: Transaction)
        ensures
            t.to@ == to@,
            t.from@ == from@,
            t.timestamp == timestamp,
            t.amount == amount,
    {
        Transaction {
            to: to.to_owned(),
            from: from.to_owned(),
            timestamp: timestamp,
            amount: amount,
        }
    }

    /// Creates a transaction stamped with the current time.
    pub fn create(to: &str, from: &str, amount: i64) -> (t: Transaction)
        ensures
            t.to@ == to@,
            t.from@ == from@,
            t.amount == amount,
    {
        let timestamp: i64 = now_timestamp();
        Transaction::new(to, from, timestamp, amount)
    }

    /// The canonical encoding of this transaction.  The result is a function
    /// of the fields alone, so repeated calls return identical bytes.
    pub fn as_bytes(&self) -> (r: Vec<u8>)
        ensures
            r@ == self.bytes(),
    {
        let mut out: Vec<u8> = slice_to_vec(self.to.as_str().as_bytes());
        let mut from_bytes: Vec<u8> = slice_to_vec(self.from.as_str().as_bytes());
        out.append(&mut from_bytes);
        let mut amount_bytes: Vec<u8> = u64_to_le_bytes(self.amount as u64);
        out.append(&mut amount_bytes);
        let mut timestamp_bytes: Vec<u8> = u64_to_le_bytes(self.timestamp as u64);
        out.append(&mut timestamp_bytes);
        out
    }

    /// The SHA-256 digest of the canonical encoding: a pure function of the
    /// fields, 32 bytes.
    pub fn as_hash(&self) -> (r: [u8; 32])
        ensures
            r@ == sha256_of(self.bytes()),
    {
        let bytes = self.as_bytes();
        sha256(bytes.as_slice())
    }
}

impl Clone for Transaction {
    /// A clone is equal to the original, field for field.
    fn clone(&self) -> (r: Self)
        ensures
            r == *self,
    {
        Transaction {
            to: self.to.clone(),
            from: self.from.clone(),
            timestamp: self.timestamp,
            amount: self.amount,
        }
    }
}

} // verus!
