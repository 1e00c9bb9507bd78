//! Deterministic payload construction and verification for Merkle tree
//! root hashes.
//!
//! Canonical form: `"merkle_root:" + root_hash + ":" + leaf_count +
//! ":" + previous_root_or_empty`. The `table_hashes` field is informational
//! only and excluded from the canonical digest input.

use vstd::prelude::*;
use vstd::string::StringExecFns;
use vstd::utf8::encode_utf8;

use crate::anchor_registry::{format_anchor_payload, sha256_of, spec_anchor_payload};
use crate::canonical::{canonical_digest_hex, lemma_concat_middle_ne, payload_hash_of};
use crate::decfmt::{dec_str_of, lemma_dec_str_injective, u64_to_dec_string};
use crate::hexstr::{hex_bytes_of, hex_decode, is_hex_string, lemma_hex_roundtrip};

verus! {

/// The canonical string of a Merkle root record.
pub open spec fn spec_merkle_canonical(
    root_hash: Seq<char>,
    leaf_count: u64,
    previous_root: Seq<char>,
) -> Seq<char> {
    "merkle_root:"@ + root_hash + ":"@ + dec_str_of(leaf_count as nat) + ":"@ + previous_root
}

/// A Merkle root registration request with metadata.
#[derive(Clone, Debug, PartialEq)]
pub struct MerkleRootPayload {
    /// The Merkle root hash (32 bytes, hex-encoded)
    pub root_hash: String,
    /// Number of leaves in the tree
    pub leaf_count: u64,
    /// Table hashes included (informational, not part of the digest input)
    pub table_hashes: Option<String>,
    /// Previous root hash for chain linking
    pub previous_root: Option<String>,
    /// SHA-256 of the canonical payload, hex-encoded
    pub payload_hash: String,
}

impl MerkleRootPayload {
    /// The canonical previous-root component: the hash when present,
    /// empty otherwise.
    pub open spec fn spec_prev(self) -> Seq<char> {
        match self.previous_root {
            Some(p) => p@,
            None => Seq::<char>::empty(),
        }
    }

    /// The canonical string recomputed from the current field values.
    pub open spec fn spec_canonical(self) -> Seq<char> {
        spec_merkle_canonical(self.root_hash@, self.leaf_count, self.spec_prev())
    }

    /// The payload is intact: its stored digest equals the digest of its
    /// current canonical string.
    pub open spec fn spec_verifies(self) -> bool {
        self.payload_hash@ == payload_hash_of(self.spec_canonical())
    }

    /// Construct a deterministic Merkle root payload.
    pub fn new(
        root_hash: String,
        leaf_count: u64,
        table_hashes: Option<String>,
        previous_root: Option<String>,
    ) -> (p: MerkleRootPayload)
        ensures
            p.root_hash == root_hash,
            p.leaf_count == leaf_count,
            p.table_hashes == table_hashes,
            p.previous_root == previous_root,
            p.payload_hash@ == payload_hash_of(p.spec_canonical()),
            is_hex_string(p.payload_hash@),
            hex_bytes_of(p.payload_hash@) == sha256_of(encode_utf8(p.spec_canonical())),
            hex_bytes_of(p.payload_hash@).len() == 32,
    {
        let mut p = MerkleRootPayload {
            root_hash,
            leaf_count,
            table_hashes,
            previous_root,
            payload_hash: String::new(),
        };
        let canonical = p.canonical_string();
        p.payload_hash = canonical_digest_hex(canonical.as_str());
        proof {
            lemma_hex_roundtrip(sha256_of(encode_utf8(p.spec_canonical())));
        }
        p
    }

    /// The canonical string from the payload's current field values.
    pub fn canonical_string(&self) -> (r: String)
        ensures
            r@ == self.spec_canonical(),
    {
        let mut s = String::from_str("merkle_root:");
        s.append(self.root_hash.as_str());
        s.append(":");
        let lc = u64_to_dec_string(self.leaf_count);
        s.append(lc.as_str());
        s.append(":");
        match &self.previous_root {
            Some(p) => s.append(p.as_str()),
            None => (),
        }
        proof {
            assert(s@ =~= self.spec_canonical());
        }
        s
    }

    /// Verify payload integrity by recomputing the hash.
    pub fn verify(&self) -> (r: bool)
        ensures
            r == self.spec_verifies(),
    {
        let canonical = self.canonical_string();
        let recomputed = canonical_digest_hex(canonical.as_str());
        recomputed == self.payload_hash
    }

    /// Convert the root hash hex string to its raw 32 bytes; `None` when it
    /// is not valid hex or does not decode to exactly 32 bytes.
    pub fn root_bytes(&self) -> (r: Option<Vec<u8>>)
        ensures
            r is Some <==> is_hex_string(self.root_hash@) && hex_bytes_of(self.root_hash@).len()
                == 32,
            r matches Some(v) ==> v@ == hex_bytes_of(self.root_hash@),
    {
        match hex_decode(self.root_hash.as_str()) {
            Some(decoded) => if decoded.len() == 32 {
                Some(decoded)
            } else {
                None
            },
            None => None,
        }
    }
}

/// Determinism: two payloads whose canonical fields agree and whose digests
/// derive from their canonical strings carry the same `payload_hash`.
pub proof fn lemma_merkle_deterministic(p1: MerkleRootPayload, p2: MerkleRootPayload)
    requires
        p1.root_hash@ == p2.root_hash@,
        p1.leaf_count == p2.leaf_count,
        p1.spec_prev() == p2.spec_prev(),
        p1.payload_hash@ == payload_hash_of(p1.spec_canonical()),
        p2.payload_hash@ == payload_hash_of(p2.spec_canonical()),
    ensures
        p1.payload_hash@ == p2.payload_hash@,
{
}

/// Round trip: a freshly constructed payload verifies.
pub proof fn lemma_merkle_construct_verifies(p: MerkleRootPayload)
    requires
        p.payload_hash@ == payload_hash_of(p.spec_canonical()),
    ensures
        p.spec_verifies(),
{
}

/// Sensitivity: changing exactly one canonical field changes the canonical
/// string (and so tamper detection rests only on the digest being collision
/// free).
pub proof fn lemma_merkle_canonical_sensitive(p1: MerkleRootPayload, p2: MerkleRootPayload)
    requires
        (p1.root_hash@ != p2.root_hash@ && p1.leaf_count == p2.leaf_count && p1.spec_prev()
            == p2.spec_prev()) || (p1.root_hash@ == p2.root_hash@ && p1.leaf_count
            != p2.leaf_count && p1.spec_prev() == p2.spec_prev()) || (p1.root_hash@
            == p2.root_hash@ && p1.leaf_count == p2.leaf_count && p1.spec_prev()
            != p2.spec_prev()),
    ensures
        p1.spec_canonical() != p2.spec_canonical(),
{
    let tag = "merkle_root:"@;
    let sep = ":"@;
    if p1.root_hash@ != p2.root_hash@ {
        let suffix = sep + dec_str_of(p1.leaf_count as nat) + sep + p1.spec_prev();
        lemma_concat_middle_ne(tag, p1.root_hash@, p2.root_hash@, suffix);
        assert(p1.spec_canonical() =~= tag + p1.root_hash@ + suffix);
        assert(p2.spec_canonical() =~= tag + p2.root_hash@ + suffix);
    } else if p1.leaf_count != p2.leaf_count {
        let prefix = tag + p1.root_hash@ + sep;
        let suffix = sep + p1.spec_prev();
        if dec_str_of(p1.leaf_count as nat) == dec_str_of(p2.leaf_count as nat) {
            lemma_dec_str_injective(p1.leaf_count as nat, p2.leaf_count as nat);
        }
        lemma_concat_middle_ne(
            prefix,
            dec_str_of(p1.leaf_count as nat),
            dec_str_of(p2.leaf_count as nat),
            suffix,
        );
        assert(p1.spec_canonical() =~= prefix + dec_str_of(p1.leaf_count as nat) + suffix);
        assert(p2.spec_canonical() =~= prefix + dec_str_of(p2.leaf_count as nat) + suffix);
    } else {
        let prefix = tag + p1.root_hash@ + sep + dec_str_of(p1.leaf_count as nat) + sep;
        lemma_concat_middle_ne(prefix, p1.spec_prev(), p2.spec_prev(), Seq::<char>::empty());
        assert(p1.spec_canonical() =~= prefix + p1.spec_prev() + Seq::<char>::empty());
        assert(p2.spec_canonical() =~= prefix + p2.spec_prev() + Seq::<char>::empty());
    }
}

/// Format a Merkle root for on-chain anchoring; empty when the root hash is
/// not valid hex for exactly 32 bytes.
pub fn format_merkle_anchor(root_hash: &str, leaf_count: u64) -> (r: Vec<u8>)
    ensures
        is_hex_string(root_hash@) && hex_bytes_of(root_hash@).len() == 32 ==> r@
            == spec_anchor_payload(hex_bytes_of(root_hash@), "merkle_root"@, leaf_count),
        !(is_hex_string(root_hash@) && hex_bytes_of(root_hash@).len() == 32) ==> r@ == Seq::<
            u8,
        >::empty(),
{
    match hex_decode(root_hash) {
        Some(decoded) => if decoded.len() == 32 {
            format_anchor_payload(decoded.as_slice(), "merkle_root", leaf_count)
        } else {
            Vec::new()
        },
        None => Vec::new(),
    }
}

} // verus!
