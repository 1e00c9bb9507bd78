//! The shared determinism contract of all canonical payloads.
//!
//! A payload's digest is the SHA-256 of the UTF-8 bytes of its canonical
//! string, stored in lowercase hex. Every builder funnels through
//! [`canonical_digest_hex`], so producer and verifier agree byte for byte.

use vstd::prelude::*;
use vstd::utf8::encode_utf8;

use crate::anchor_registry::{compute_sha256, sha256_of};
use crate::hexstr::{hex_encode, hex_lower_of};

verus! {

/// The hex digest a canonical string derives: lowercase hex of the SHA-256
/// of the string's UTF-8 bytes.
pub open spec fn payload_hash_of(canonical: Seq<char>) -> Seq<char> {
    hex_lower_of(sha256_of(encode_utf8(canonical)))
}

/// Compute the hex digest of a canonical string.
pub fn canonical_digest_hex(canonical: &str) -> (r: String)
    ensures
        r@ == payload_hash_of(canonical@),
        sha256_of(encode_utf8(canonical@)).len() == 32,
{
    let bytes = canonical.as_bytes();
    let digest = compute_sha256(bytes);
    hex_encode(digest.as_slice())
}

/// Replacing the middle piece of a concatenation by a different piece yields
/// a different string, whatever stands around it.
pub proof fn lemma_concat_middle_ne(prefix: Seq<char>, x: Seq<char>, y: Seq<char>, suffix: Seq<char>)
    requires
        x != y,
    ensures
        prefix + x + suffix != prefix + y + suffix,
{
    let a = prefix + x + suffix;
    let b = prefix + y + suffix;
    if x.len() == y.len() {
        if a == b {
            assert forall|i: int| 0 <= i < x.len() implies x[i] == y[i] by {
                assert(a[prefix.len() + i] == x[i]);
                assert(b[prefix.len() + i] == y[i]);
            }
            assert(x =~= y);
        }
    } else {
        assert(a.len() != b.len());
    }
}

} // verus!
