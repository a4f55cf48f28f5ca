//! Records: immutable units of chain data. A record holds a payload, the hash
//! derived from its other fields, an optional reference to the predecessor's
//! hash, and a creation timestamp.

use vstd::prelude::*;
use vstd::slice::slice_to_vec;

use crate::hashing::hash_input;
use crate::hashing::record_hash;
use crate::hashing::{bytes_to_hex, push_decimal, sha256_digest};

verus! {

/// The view of an optional predecessor-hash string: present or absent, with
/// the string abstracted to its characters.
pub open spec fn opt_view(p: Option<String>) -> Option<Seq<char>> {
    match p {
        Option::Some(s) => Option::Some(s@),
        Option::None => Option::None,
    }
}

/// The system clock reported a time before the Unix epoch while a timestamp
/// was being captured. Fatal: no record is constructed.
#[derive(Debug, Clone, Copy, PartialEq, Eq, Structural)]
pub struct ClockError;

/// Relies on `std::time::SystemTime::now` and `duration_since(UNIX_EPOCH)`:
/// seconds elapsed since the Unix epoch, or `None` when the clock reads a
/// time before the epoch. The clock is not deterministic, so nothing is
/// promised of the value.
#[verifier::external_body]
fn now_unix_seconds() -> Option<u64> {
    match std::time::SystemTime::now().duration_since(std::time::UNIX_EPOCH) {
        Ok(d) => Some(d.as_secs()),
        Err(_) => None,
    }
}

/// An immutable unit of chain data.
#[derive(Debug, Clone)]
pub struct Block {
    /// The payload, opaque to the chain: not interpreted or validated.
    pub data: String,
    /// The hash derived from the three other fields at construction.
    pub hash: String,
    /// The predecessor record's hash; absent exactly for a genesis record.
    pub prev_hash: Option<String>,
    /// Seconds since the Unix epoch, captured once at construction.
    pub timestamp: u64,
}

impl Block {
    /// A well-formed record: `hash` is exactly the derived hash of the three
    /// other fields, a 64-character string.
    pub open spec fn wf(self) -> bool {
        &&& self.hash@ == record_hash(self.data@, opt_view(self.prev_hash), self.timestamp)
        &&& self.hash@.len() == 64
    }

    /// Derives a record's hash: the SHA-256 digest of the payload bytes, then
    /// the predecessor hash bytes when one is present, then the decimal
    /// timestamp digits, rendered as lowercase hexadecimal.
    pub fn calculate_hash(data: &str, prev_hash: &Option<String>, timestamp: u64) -> (r: String)
        ensures
            r@ == record_hash(data@, opt_view(*prev_hash), timestamp),
            r@.len() == 64,
    {
        let mut input: Vec<u8> = slice_to_vec(data.as_bytes());
        if let Some(p) = prev_hash {
            let mut pb: Vec<u8> = slice_to_vec(p.as_str().as_bytes());
            input.append(&mut pb);
        }
        push_decimal(&mut input, timestamp);
        assert(input@ =~= hash_input(data@, opt_view(*prev_hash), timestamp));
        let digest = sha256_digest(&input);
        bytes_to_hex(&digest)
    }

    /// Creates a record from a payload, an optional predecessor hash, and a
    /// caller-supplied timestamp.
    pub fn create(data: String, prev_hash: Option<String>, timestamp: u64) -> (b: Block)
        ensures
            b.wf(),
            b.data@ == data@,
            opt_view(b.prev_hash) == opt_view(prev_hash),
            b.timestamp == timestamp,
            b.hash@ == record_hash(data@, opt_view(prev_hash), timestamp),
    {
        let hash = Block::calculate_hash(data.as_str(), &prev_hash, timestamp);
        Block { data, hash, prev_hash, timestamp }
    }

    /// Reads the system clock as seconds since the Unix epoch; fails with
    /// `ClockError` when the clock reads a time before the epoch. The value
    /// is whatever the clock reports; nothing further is promised of it.
    pub fn get_current_timestamp() -> Result<u64, ClockError> {
        match now_unix_seconds() {
            Some(ts) => Ok(ts),
            None => Err(ClockError),
        }
    }

    /// Creates a record stamped with the current system time. Fails only when
    /// the clock reads a time before the Unix epoch.
    pub fn new(data: String, prev_hash: Option<String>) -> (r: Result<Block, ClockError>)
        ensures
            r matches Ok(b) ==> {
                &&& b.wf()
                &&& b.data@ == data@
                &&& opt_view(b.prev_hash) == opt_view(prev_hash)
                &&& b.hash@ == record_hash(data@, opt_view(prev_hash), b.timestamp)
            },
    {
        match Block::get_current_timestamp() {
            Ok(ts) => Ok(Block::create(data, prev_hash, ts)),
            Err(e) => Err(e),
        }
    }
}

/// Determinism law: two well-formed records that agree on payload,
/// predecessor hash and timestamp have the same hash.
pub proof fn lemma_hash_deterministic(b1: Block, b2: Block)
    requires
        b1.wf(),
        b2.wf(),
        b1.data@ == b2.data@,
        opt_view(b1.prev_hash) == opt_view(b2.prev_hash),
        b1.timestamp == b2.timestamp,
    ensures
        b1.hash@ == b2.hash@,
{
}

} // verus!
