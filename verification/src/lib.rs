//! An append-only, hash-linked sequence of records: each record commits to its
//! own payload and to the hash of the record before it, so a retroactive edit
//! changes every hash downstream.

pub mod block;
pub mod chain;
pub mod hashing;
