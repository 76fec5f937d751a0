//! A minimal single-node ledger: an append-only chain of blocks holding
//! signed value-transfer transactions, secured by SHA-256 hashing and a
//! proof-of-work admission rule.
//!
//! The data model grows leaf-first: a [`transaction::Transaction`] is an
//! unsigned transfer with a canonical byte encoding; a
//! [`signed_transaction::SignedTransaction`] binds one to a signature and a
//! content hash; a [`block::Block`] seals an ordered batch of them together
//! with chain-linkage metadata; and the [`blockchain::Blockchain`] owns the
//! chain, the pending pool, balance derivation, validation and mining.
//!
//! Hashing ([`digest`]), signatures and keys ([`keypair`]), the clock
//! ([`clock`]) and two string primitives ([`strutil`]) are outside
//! collaborators, consumed through trusted wrappers; everything built on
//! them is verified.

pub mod block;
pub mod blockchain;
pub mod clock;
pub mod digest;
pub mod keypair;
pub mod signed_transaction;
pub mod strutil;
pub mod transaction;
