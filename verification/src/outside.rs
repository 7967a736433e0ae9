//! Thin wrappers for the outside crates the library calls.
use vstd::prelude::*;

verus! {

/// A point in time in UTC: whole seconds since the Unix epoch and the
/// nanoseconds past that second (above 999,999,999 only within a leap second).
#[derive(Debug, Clone, Copy, PartialEq, Eq)]
pub struct Timestamp {
    pub secs: i64,
    pub nanos: u32,
}

/// Reads the system clock through `chrono::Utc::now`, taken apart into
/// `DateTime::timestamp` and `DateTime::timestamp_subsec_nanos`. Nothing is
/// promised of the result: it depends on the machine's clock.
#[verifier::external_body]
pub fn now_utc() -> Timestamp {
    let t = chrono::Utc::now();
    Timestamp { secs: t.timestamp(), nanos: t.timestamp_subsec_nanos() }
}

/// A JSON document as `serde_json` holds it. The library only carries such values
/// through; it never looks inside one.
#[verifier::external_type_specification]
#[verifier::external_body]
pub struct ExJsonValue(serde_json::Value);

/// The BLAKE3 digest of `input`: a value that depends on the bytes alone.
pub uninterp spec fn blake3_digest_of(input: Seq<u8>) -> Seq<u8>;

/// Calls `blake3::hash` and hands back the 32 digest bytes. The contract says only
/// that the digest is the named function of the input bytes and that it is 32 bytes
/// long (`blake3::OUT_LEN`); the digest's value itself is not stated.
#[verifier::external_body]
pub fn blake3_digest(input: &[u8]) -> (out: Vec<u8>)
    ensures
        out@ == blake3_digest_of(input@),
        out@.len() == 32,
{
    blake3::hash(input).as_bytes().to_vec()
}

} // verus!
