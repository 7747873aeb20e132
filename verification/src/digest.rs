//! BLAKE3 digests of file contents and their comparison with expected hex hashes.

use vstd::prelude::*;
use crate::hex::{hex_lower, to_hex};

verus! {

/// The BLAKE3 hash (32 bytes) of `data`, as computed by the `blake3` crate.
pub uninterp spec fn blake3_digest(data: Seq<u8>) -> Seq<u8>;

/// Calls `blake3::hash`, which returns the 32-byte BLAKE3 hash of its whole
/// input; the contract says only that the result is that hash of the
/// argument (the hash function itself is not restated).
#[verifier::external_body]
fn blake3_hash(data: &[u8]) -> (r: [u8; 32])
    ensures
        r@ == blake3_digest(data@),
{
    *blake3::hash(data).as_bytes()
}

/// The lower-case hex text of the BLAKE3 hash of `data`.
pub open spec fn digest_hex(data: Seq<u8>) -> Seq<char> {
    hex_lower(blake3_digest(data))
}

/// The hex text of a 32-byte digest (64 lower-case hex digits).
pub fn digest_to_hex(digest: &[u8; 32]) -> (s: String)
    ensures
        s@ == hex_lower(digest@),
        s@.len() == 64,
{
    to_hex(digest)
}

/// Whether a 32-byte digest prints as `expected_hash`.
pub fn digest_matches(digest: &[u8; 32], expected_hash: &str) -> (r: bool)
    ensures
        r == (hex_lower(digest@) == expected_hash@),
{
    let hex = digest_to_hex(digest);
    let expected = expected_hash.to_owned();
    hex == expected
}

/// The BLAKE3 hash of `content` as lower-case hex.
pub fn hash_hex(content: &[u8]) -> (s: String)
    ensures
        s@ == digest_hex(content@),
{
    let d = blake3_hash(content);
    digest_to_hex(&d)
}

/// Returns whether `content` hashes (BLAKE3, lower-case hex) to `expected_hash`.
pub fn verify_file_hash(content: &[u8], expected_hash: &str) -> (r: bool)
    ensures
        r == (digest_hex(content@) == expected_hash@),
{
    let d = blake3_hash(content);
    digest_matches(&d, expected_hash)
}

} // verus!
