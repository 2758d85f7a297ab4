//! The digest primitive: SHA-256 over a string's bytes, hex-encoded.

use vstd::prelude::*;

verus! {

/// The hex-encoded SHA-256 digest of a character sequence: the digest of
/// the sequence's UTF-8 bytes, written as lower-case hexadecimal. The
/// digest is a pure function of the input characters alone, so one name
/// stands for it; nothing more is assumed of its value.
pub uninterp spec fn sha256_hex_of(s: Seq<char>) -> Seq<char>;

/// Relies on sha2::Sha256::digest: the SHA-256 digest of the input bytes,
/// a function of the input alone, and on generic-array's LowerHex
/// formatting, which writes each of the 32 output bytes as two lower-case
/// hex digits, 64 characters in all.
#[verifier::external_body]
pub(crate) fn hash_data(data: &str) -> (r: String)
    ensures
        r@ == sha256_hex_of(data@),
        r@.len() == 64,
{
    format!("{:x}", <sha2::Sha256 as sha2::Digest>::digest(data.as_bytes()))
}

/// The exposed digest primitive, used to derive a fingerprint from
/// certificate bytes or text.
pub fn calculate_fingerprint(cert_data: &str) -> (r: String)
    ensures
        r@ == sha256_hex_of(cert_data@),
        r@.len() == 64,
{
    hash_data(cert_data)
}

/// The digest is deterministic: equal inputs always yield equal digests.
pub proof fn lemma_digest_deterministic(x: Seq<char>, y: Seq<char>)
    requires
        x == y,
    ensures
        sha256_hex_of(x) == sha256_hex_of(y),
{
}

} // verus!
