//! The crate's wrappers around outside code: a digest, an entropy source,
//! and UTF-8 decoding. Each wrapper's contract states only what the wrapped
//! function's own documentation promises.

use vstd::prelude::*;
use vstd::utf8::{valid_utf8, encode_utf8};
use sha2::Digest;

verus! {

/// The SHA-256 digest of a byte string: a function of its input alone,
/// named here and pinned down by nothing beyond its 32-byte width.
pub uninterp spec fn sha256_of(b: Seq<u8>) -> Seq<u8>;

/// Relies on sha2's Sha256: the digest depends on the input bytes alone
/// and is always 32 bytes wide.
#[verifier::external_body]
pub fn sha256_digest(input: &Vec<u8>) -> (r: Vec<u8>)
    ensures
        r@ == sha256_of(input@),
        r@.len() == 32,
{
    let mut hasher = sha2::Sha256::new();
    hasher.update(input.as_slice());
    hasher.finalize().to_vec()
}

/// Relies on rand's thread-local generator: ten bytes of entropy, about
/// which nothing is promised but the width.
#[verifier::external_body]
pub fn random_bytes_10() -> (r: Vec<u8>)
    ensures
        r@.len() == 10,
{
    let bytes: [u8; 10] = rand::random();
    bytes.to_vec()
}

/// Relies on String::from_utf8: succeeds exactly on valid UTF-8, and the
/// returned string's UTF-8 bytes are exactly the input.
#[verifier::external_body]
pub fn string_from_utf8(b: Vec<u8>) -> (r: Option<String>)
    ensures
        r matches Some(s) ==> encode_utf8(s@) == b@,
        r is Some <==> valid_utf8(b@),
{
    match String::from_utf8(b) {
        Ok(s) => Some(s),
        Err(_) => None,
    }
}

} // verus!
