//! Content addressing: SHA-256 of a track path, in lowercase hex.
//!
//! The cover-art, lyrics and stem caches are all keyed by the digest of
//! the absolute track path, so equal paths always land in the same cache
//! entry whatever process computes it.

use vstd::prelude::*;
use sha2::{Digest, Sha256};

verus! {

/// The lowercase-hex SHA-256 digest of a character sequence, as computed
/// by the sha2 crate; a function of the input alone.
pub uninterp spec fn sha256_hex_of(s: Seq<char>) -> Seq<char>;

/// Relies on sha2's Sha256: the digest is a pure function of the input
/// bytes; rendered here as its 64 lowercase hex digits.
#[verifier::external_body]
pub fn sha256_hex(s: &str) -> (r: String)
    ensures
        r@ == sha256_hex_of(s@),
        r@.len() == 64,
{
    let digest = Sha256::digest(s.as_bytes());
    let mut out = String::with_capacity(64);
    for byte in digest.iter() {
        out.push_str(&format!("{:02x}", byte));
    }
    out
}

} // verus!
