//! Content-addressed identifiers: BLAKE3 digests rendered as lowercase hex.
use vstd::prelude::*;
use vstd::utf8::encode_utf8;
use crate::outside::{blake3_digest, blake3_digest_of};
use crate::text::{hex_lower, lemma_hex_lower_len, push_hex};

verus! {

/// The 64-character lowercase hex rendering of the BLAKE3 digest of `preimage`
/// (what `blake3::Hash::to_hex` prints).
pub open spec fn digest_hex(preimage: Seq<u8>) -> Seq<char> {
    hex_lower(blake3_digest_of(preimage))
}

/// The first 16 hex characters of `digest_hex` (the first 8 digest bytes).
pub open spec fn digest_hex16(preimage: Seq<u8>) -> Seq<char> {
    hex_lower(blake3_digest_of(preimage).subrange(0, 8))
}

/// The first 32 hex characters of `digest_hex` (the first 16 digest bytes).
pub open spec fn digest_hex32(preimage: Seq<u8>) -> Seq<char> {
    hex_lower(blake3_digest_of(preimage).subrange(0, 16))
}

/// `prefix` followed by the full digest of the UTF-8 bytes of `text`.
pub open spec fn text_id(prefix: Seq<char>, text: Seq<char>) -> Seq<char> {
    prefix + digest_hex(encode_utf8(text))
}

/// `prefix` followed by the shortened digest of the UTF-8 bytes of `text`.
pub open spec fn text_id16(prefix: Seq<char>, text: Seq<char>) -> Seq<char> {
    prefix + digest_hex16(encode_utf8(text))
}

/// Appends the full digest text of `preimage`.
pub fn push_digest_hex(out: &mut String, preimage: &Vec<u8>)
    ensures
        final(out)@ == old(out)@ + digest_hex(preimage@),
        final(out)@.len() == old(out)@.len() + 64,
{
    let d = blake3_digest(preimage.as_slice());
    push_hex(out, &d, 32);
    proof {
        lemma_hex_lower_len(d@.subrange(0, 32));
    }
    assert(d@.subrange(0, 32) =~= d@);
}

/// Appends the shortened digest text of `preimage`.
pub fn push_digest_hex16(out: &mut String, preimage: &Vec<u8>)
    ensures
        final(out)@ == old(out)@ + digest_hex16(preimage@),
        final(out)@.len() == old(out)@.len() + 16,
{
    let d = blake3_digest(preimage.as_slice());
    push_hex(out, &d, 8);
    proof {
        lemma_hex_lower_len(d@.subrange(0, 8));
    }
}

/// Appends the 32-character digest text of `preimage`.
pub fn push_digest_hex32(out: &mut String, preimage: &Vec<u8>)
    ensures
        final(out)@ == old(out)@ + digest_hex32(preimage@),
        final(out)@.len() == old(out)@.len() + 32,
{
    let d = blake3_digest(preimage.as_slice());
    push_hex(out, &d, 16);
    proof {
        lemma_hex_lower_len(d@.subrange(0, 16));
    }
}

/// The UTF-8 bytes of `s` as a vector (`str::as_bytes`).
pub fn utf8_bytes(s: &str) -> (out: Vec<u8>)
    ensures
        out@ == encode_utf8(s@),
{
    let mut out: Vec<u8> = Vec::new();
    crate::text::push_utf8(&mut out, s);
    assert(out@ =~= encode_utf8(s@));
    out
}

/// `prefix` followed by the full digest of `text`.
pub fn text_digest_id(prefix: &str, text: &str) -> (out: String)
    ensures
        out@ == text_id(prefix@, text@),
        out@.len() == prefix@.len() + 64,
{
    let mut out = String::from_str(prefix);
    let bytes = utf8_bytes(text);
    push_digest_hex(&mut out, &bytes);
    out
}

/// `prefix` followed by the shortened digest of `text`.
pub fn text_digest_id16(prefix: &str, text: &str) -> (out: String)
    ensures
        out@ == text_id16(prefix@, text@),
        out@.len() == prefix@.len() + 16,
{
    let mut out = String::from_str(prefix);
    let bytes = utf8_bytes(text);
    push_digest_hex16(&mut out, &bytes);
    out
}

} // verus!
