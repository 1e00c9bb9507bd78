//! Deterministic anchoring for formal mathematical proofs.
//!
//! Canonical form: `"equation_proof:" + equation_name + ":" + equation_hash
//! + ":" + proof_tree_hash + ":" + stability_class + ":" + solvability(8dp)
//! + ":" + compression(8dp) + ":" + ("1" if dimensional_valid else "0")`.

use vstd::prelude::*;
use vstd::string::StringExecFns;
use vstd::utf8::encode_utf8;

use crate::anchor_registry::{sha256_of, AnchorError};
use crate::canonical::{canonical_digest_hex, lemma_concat_middle_ne, payload_hash_of};
use crate::decfmt::{
    bool_str_of, bool_to_string, fixed8_str_of, format_fixed8, lemma_bool_str_ne, Fixed8,
};
use crate::hexstr::{hex_bytes_of, hex_decode, is_hex_string, lemma_hex_roundtrip};

verus! {

/// The canonical string of an equation proof record.
pub open spec fn spec_equation_proof_canonical(
    equation_name: Seq<char>,
    equation_hash: Seq<char>,
    proof_tree_hash: Seq<char>,
    stability: Seq<char>,
    solvability: Seq<char>,
    compression: Seq<char>,
    dimensional_valid: bool,
) -> Seq<char> {
    "equation_proof:"@ + equation_name + ":"@ + equation_hash + ":"@ + proof_tree_hash + ":"@
        + stability + ":"@ + solvability + ":"@ + compression + ":"@ + bool_str_of(
        dimensional_valid,
    )
}

/// An equation proof anchor payload.
#[derive(Clone, Debug, PartialEq)]
pub struct EquationProofPayload {
    /// Name of the equation
    pub equation_name: String,
    /// SHA-256 of the equation's canonical representation, hex-encoded
    pub equation_hash: String,
    /// SHA-256 of the proof tree, hex-encoded
    pub proof_tree_hash: String,
    /// Stability classification
    pub stability_class: String,
    /// Solvability index, fixed 8-decimal text
    pub solvability_index: String,
    /// Compression ratio after optimization, fixed 8-decimal text
    pub compression_ratio: String,
    /// Whether dimensional analysis passed
    pub dimensional_valid: bool,
    /// SHA-256 of the canonical payload, hex-encoded
    pub payload_hash: String,
}

impl EquationProofPayload {
    /// The canonical string recomputed from the current field values.
    pub open spec fn spec_canonical(self) -> Seq<char> {
        spec_equation_proof_canonical(
            self.equation_name@,
            self.equation_hash@,
            self.proof_tree_hash@,
            self.stability_class@,
            self.solvability_index@,
            self.compression_ratio@,
            self.dimensional_valid,
        )
    }

    /// The payload is intact: its stored digest equals the digest of its
    /// current canonical string.
    pub open spec fn spec_verifies(self) -> bool {
        self.payload_hash@ == payload_hash_of(self.spec_canonical())
    }

    /// Construct a deterministic equation proof payload.
    pub fn new(
        equation_name: String,
        equation_hash: String,
        proof_tree_hash: String,
        stability_class: String,
        solvability_index: Fixed8,
        compression_ratio: Fixed8,
        dimensional_valid: bool,
    ) -> (p: EquationProofPayload)
        ensures
            p.equation_name == equation_name,
            p.equation_hash == equation_hash,
            p.proof_tree_hash == proof_tree_hash,
            p.stability_class == stability_class,
            p.solvability_index@ == fixed8_str_of(solvability_index.units),
            p.compression_ratio@ == fixed8_str_of(compression_ratio.units),
            p.dimensional_valid == dimensional_valid,
            p.payload_hash@ == payload_hash_of(p.spec_canonical()),
            is_hex_string(p.payload_hash@),
            hex_bytes_of(p.payload_hash@) == sha256_of(encode_utf8(p.spec_canonical())),
            hex_bytes_of(p.payload_hash@).len() == 32,
    {
        let mut p = EquationProofPayload {
            equation_name,
            equation_hash,
            proof_tree_hash,
            stability_class,
            solvability_index: format_fixed8(solvability_index),
            compression_ratio: format_fixed8(compression_ratio),
            dimensional_valid,
            payload_hash: String::new(),
        };
        let canonical = p.canonical_string();
        p.payload_hash = canonical_digest_hex(canonical.as_str());
        proof {
            lemma_hex_roundtrip(sha256_of(encode_utf8(p.spec_canonical())));
        }
        p
    }

    /// The canonical string from the payload's current field values.
    pub fn canonical_string(&self) -> (r: String)
        ensures
            r@ == self.spec_canonical(),
    {
        let mut s = String::from_str("equation_proof:");
        s.append(self.equation_name.as_str());
        s.append(":");
        s.append(self.equation_hash.as_str());
        s.append(":");
        s.append(self.proof_tree_hash.as_str());
        s.append(":");
        s.append(self.stability_class.as_str());
        s.append(":");
        s.append(self.solvability_index.as_str());
        s.append(":");
        s.append(self.compression_ratio.as_str());
        s.append(":");
        s.append(bool_to_string(self.dimensional_valid));
        proof {
            assert(s@ =~= self.spec_canonical());
        }
        s
    }

    /// Verify payload integrity by recomputing the hash.
    pub fn verify(&self) -> (r: bool)
        ensures
            r == self.spec_verifies(),
    {
        let canonical = self.canonical_string();
        let recomputed = canonical_digest_hex(canonical.as_str());
        recomputed == self.payload_hash
    }

    /// The raw 32-byte digest for on-chain registration; an error when the
    /// stored digest is not valid hex for exactly 32 bytes.
    pub fn hash_bytes(&self) -> (r: Result<Vec<u8>, AnchorError>)
        ensures
            r is Ok <==> is_hex_string(self.payload_hash@) && hex_bytes_of(
                self.payload_hash@,
            ).len() == 32,
            r matches Ok(v) ==> v@ == hex_bytes_of(self.payload_hash@) && v@.len() == 32,
            r matches Err(e) ==> e == AnchorError::MalformedDigestHex,
    {
        match hex_decode(self.payload_hash.as_str()) {
            Some(decoded) => if decoded.len() == 32 {
                Ok(decoded)
            } else {
                Err(AnchorError::MalformedDigestHex)
            },
            None => Err(AnchorError::MalformedDigestHex),
        }
    }
}

/// Two equation proof payloads differ in exactly one canonical field.
pub open spec fn equation_proof_fields_differ_in_one(
    p1: EquationProofPayload,
    p2: EquationProofPayload,
) -> bool {
    ||| (p1.equation_name@ != p2.equation_name@ && p1.equation_hash@ == p2.equation_hash@
        && p1.proof_tree_hash@ == p2.proof_tree_hash@ && p1.stability_class@ == p2.stability_class@
        && p1.solvability_index@ == p2.solvability_index@ && p1.compression_ratio@
        == p2.compression_ratio@ && p1.dimensional_valid == p2.dimensional_valid)
    ||| (p1.equation_name@ == p2.equation_name@ && p1.equation_hash@ != p2.equation_hash@
        && p1.proof_tree_hash@ == p2.proof_tree_hash@ && p1.stability_class@ == p2.stability_class@
        && p1.solvability_index@ == p2.solvability_index@ && p1.compression_ratio@
        == p2.compression_ratio@ && p1.dimensional_valid == p2.dimensional_valid)
    ||| (p1.equation_name@ == p2.equation_name@ && p1.equation_hash@ == p2.equation_hash@
        && p1.proof_tree_hash@ != p2.proof_tree_hash@ && p1.stability_class@ == p2.stability_class@
        && p1.solvability_index@ == p2.solvability_index@ && p1.compression_ratio@
        == p2.compression_ratio@ && p1.dimensional_valid == p2.dimensional_valid)
    ||| (p1.equation_name@ == p2.equation_name@ && p1.equation_hash@ == p2.equation_hash@
        && p1.proof_tree_hash@ == p2.proof_tree_hash@ && p1.stability_class@ != p2.stability_class@
        && p1.solvability_index@ == p2.solvability_index@ && p1.compression_ratio@
        == p2.compression_ratio@ && p1.dimensional_valid == p2.dimensional_valid)
    ||| (p1.equation_name@ == p2.equation_name@ && p1.equation_hash@ == p2.equation_hash@
        && p1.proof_tree_hash@ == p2.proof_tree_hash@ && p1.stability_class@ == p2.stability_class@
        && p1.solvability_index@ != p2.solvability_index@ && p1.compression_ratio@
        == p2.compression_ratio@ && p1.dimensional_valid == p2.dimensional_valid)
    ||| (p1.equation_name@ == p2.equation_name@ && p1.equation_hash@ == p2.equation_hash@
        && p1.proof_tree_hash@ == p2.proof_tree_hash@ && p1.stability_class@ == p2.stability_class@
        && p1.solvability_index@ == p2.solvability_index@ && p1.compression_ratio@
        != p2.compression_ratio@ && p1.dimensional_valid == p2.dimensional_valid)
    ||| (p1.equation_name@ == p2.equation_name@ && p1.equation_hash@ == p2.equation_hash@
        && p1.proof_tree_hash@ == p2.proof_tree_hash@ && p1.stability_class@ == p2.stability_class@
        && p1.solvability_index@ == p2.solvability_index@ && p1.compression_ratio@
        == p2.compression_ratio@ && p1.dimensional_valid != p2.dimensional_valid)
}

/// Determinism: two payloads whose canonical fields agree and whose digests
/// derive from their canonical strings carry the same `payload_hash`.
pub proof fn lemma_equation_proof_deterministic(p1: EquationProofPayload, p2: EquationProofPayload)
    requires
        p1.equation_name@ == p2.equation_name@,
        p1.equation_hash@ == p2.equation_hash@,
        p1.proof_tree_hash@ == p2.proof_tree_hash@,
        p1.stability_class@ == p2.stability_class@,
        p1.solvability_index@ == p2.solvability_index@,
        p1.compression_ratio@ == p2.compression_ratio@,
        p1.dimensional_valid == p2.dimensional_valid,
        p1.payload_hash@ == payload_hash_of(p1.spec_canonical()),
        p2.payload_hash@ == payload_hash_of(p2.spec_canonical()),
    ensures
        p1.payload_hash@ == p2.payload_hash@,
{
}

/// Round trip: a freshly constructed payload verifies.
pub proof fn lemma_equation_proof_construct_verifies(p: EquationProofPayload)
    requires
        p.payload_hash@ == payload_hash_of(p.spec_canonical()),
    ensures
        p.spec_verifies(),
{
}

proof fn equation_sensitive_at_name(p1: EquationProofPayload, p2: EquationProofPayload)
    requires
        p1.equation_name@ != p2.equation_name@,
        p1.equation_hash@ == p2.equation_hash@,
        p1.proof_tree_hash@ == p2.proof_tree_hash@,
        p1.stability_class@ == p2.stability_class@,
        p1.solvability_index@ == p2.solvability_index@,
        p1.compression_ratio@ == p2.compression_ratio@,
        p1.dimensional_valid == p2.dimensional_valid,
    ensures
        p1.spec_canonical() != p2.spec_canonical(),
{
    let sep = ":"@;
    let suffix = sep + p1.equation_hash@ + sep + p1.proof_tree_hash@ + sep + p1.stability_class@
        + sep + p1.solvability_index@ + sep + p1.compression_ratio@ + sep + bool_str_of(
        p1.dimensional_valid,
    );
    lemma_concat_middle_ne("equation_proof:"@, p1.equation_name@, p2.equation_name@, suffix);
    assert(p1.spec_canonical() =~= "equation_proof:"@ + p1.equation_name@ + suffix);
    assert(p2.spec_canonical() =~= "equation_proof:"@ + p2.equation_name@ + suffix);
}

proof fn equation_sensitive_at_equation_hash(p1: EquationProofPayload, p2: EquationProofPayload)
    requires
        p1.equation_name@ == p2.equation_name@,
        p1.equation_hash@ != p2.equation_hash@,
        p1.proof_tree_hash@ == p2.proof_tree_hash@,
        p1.stability_class@ == p2.stability_class@,
        p1.solvability_index@ == p2.solvability_index@,
        p1.compression_ratio@ == p2.compression_ratio@,
        p1.dimensional_valid == p2.dimensional_valid,
    ensures
        p1.spec_canonical() != p2.spec_canonical(),
{
    let sep = ":"@;
    let prefix = "equation_proof:"@ + p1.equation_name@ + sep;
    let suffix = sep + p1.proof_tree_hash@ + sep + p1.stability_class@ + sep
        + p1.solvability_index@ + sep + p1.compression_ratio@ + sep + bool_str_of(
        p1.dimensional_valid,
    );
    lemma_concat_middle_ne(prefix, p1.equation_hash@, p2.equation_hash@, suffix);
    assert(p1.spec_canonical() =~= prefix + p1.equation_hash@ + suffix);
    assert(p2.spec_canonical() =~= prefix + p2.equation_hash@ + suffix);
}

proof fn equation_sensitive_at_proof_tree(p1: EquationProofPayload, p2: EquationProofPayload)
    requires
        p1.equation_name@ == p2.equation_name@,
        p1.equation_hash@ == p2.equation_hash@,
        p1.proof_tree_hash@ != p2.proof_tree_hash@,
        p1.stability_class@ == p2.stability_class@,
        p1.solvability_index@ == p2.solvability_index@,
        p1.compression_ratio@ == p2.compression_ratio@,
        p1.dimensional_valid == p2.dimensional_valid,
    ensures
        p1.spec_canonical() != p2.spec_canonical(),
{
    let sep = ":"@;
    let prefix = "equation_proof:"@ + p1.equation_name@ + sep + p1.equation_hash@ + sep;
    let suffix = sep + p1.stability_class@ + sep + p1.solvability_index@ + sep
        + p1.compression_ratio@ + sep + bool_str_of(p1.dimensional_valid);
    lemma_concat_middle_ne(prefix, p1.proof_tree_hash@, p2.proof_tree_hash@, suffix);
    assert(p1.spec_canonical() =~= prefix + p1.proof_tree_hash@ + suffix);
    assert(p2.spec_canonical() =~= prefix + p2.proof_tree_hash@ + suffix);
}

proof fn equation_sensitive_at_stability(p1: EquationProofPayload, p2: EquationProofPayload)
    requires
        p1.equation_name@ == p2.equation_name@,
        p1.equation_hash@ == p2.equation_hash@,
        p1.proof_tree_hash@ == p2.proof_tree_hash@,
        p1.stability_class@ != p2.stability_class@,
        p1.solvability_index@ == p2.solvability_index@,
        p1.compression_ratio@ == p2.compression_ratio@,
        p1.dimensional_valid == p2.dimensional_valid,
    ensures
        p1.spec_canonical() != p2.spec_canonical(),
{
    let sep = ":"@;
    let prefix = "equation_proof:"@ + p1.equation_name@ + sep + p1.equation_hash@ + sep
        + p1.proof_tree_hash@ + sep;
    let suffix = sep + p1.solvability_index@ + sep + p1.compression_ratio@ + sep + bool_str_of(
        p1.dimensional_valid,
    );
    lemma_concat_middle_ne(prefix, p1.stability_class@, p2.stability_class@, suffix);
    assert(p1.spec_canonical() =~= prefix + p1.stability_class@ + suffix);
    assert(p2.spec_canonical() =~= prefix + p2.stability_class@ + suffix);
}

proof fn equation_sensitive_at_solvability(p1: EquationProofPayload, p2: EquationProofPayload)
    requires
        p1.equation_name@ == p2.equation_name@,
        p1.equation_hash@ == p2.equation_hash@,
        p1.proof_tree_hash@ == p2.proof_tree_hash@,
        p1.stability_class@ == p2.stability_class@,
        p1.solvability_index@ != p2.solvability_index@,
        p1.compression_ratio@ == p2.compression_ratio@,
        p1.dimensional_valid == p2.dimensional_valid,
    ensures
        p1.spec_canonical() != p2.spec_canonical(),
{
    let sep = ":"@;
    let prefix = "equation_proof:"@ + p1.equation_name@ + sep + p1.equation_hash@ + sep
        + p1.proof_tree_hash@ + sep + p1.stability_class@ + sep;
    let suffix = sep + p1.compression_ratio@ + sep + bool_str_of(p1.dimensional_valid);
    lemma_concat_middle_ne(prefix, p1.solvability_index@, p2.solvability_index@, suffix);
    assert(p1.spec_canonical() =~= prefix + p1.solvability_index@ + suffix);
    assert(p2.spec_canonical() =~= prefix + p2.solvability_index@ + suffix);
}

proof fn equation_sensitive_at_compression(p1: EquationProofPayload, p2: EquationProofPayload)
    requires
        p1.equation_name@ == p2.equation_name@,
        p1.equation_hash@ == p2.equation_hash@,
        p1.proof_tree_hash@ == p2.proof_tree_hash@,
        p1.stability_class@ == p2.stability_class@,
        p1.solvability_index@ == p2.solvability_index@,
        p1.compression_ratio@ != p2.compression_ratio@,
        p1.dimensional_valid == p2.dimensional_valid,
    ensures
        p1.spec_canonical() != p2.spec_canonical(),
{
    let sep = ":"@;
    let prefix = "equation_proof:"@ + p1.equation_name@ + sep + p1.equation_hash@ + sep
        + p1.proof_tree_hash@ + sep + p1.stability_class@ + sep + p1.solvability_index@ + sep;
    let suffix = sep + bool_str_of(p1.dimensional_valid);
    lemma_concat_middle_ne(prefix, p1.compression_ratio@, p2.compression_ratio@, suffix);
    assert(p1.spec_canonical() =~= prefix + p1.compression_ratio@ + suffix);
    assert(p2.spec_canonical() =~= prefix + p2.compression_ratio@ + suffix);
}

proof fn equation_sensitive_at_dimensional(p1: EquationProofPayload, p2: EquationProofPayload)
    requires
        p1.equation_name@ == p2.equation_name@,
        p1.equation_hash@ == p2.equation_hash@,
        p1.proof_tree_hash@ == p2.proof_tree_hash@,
        p1.stability_class@ == p2.stability_class@,
        p1.solvability_index@ == p2.solvability_index@,
        p1.compression_ratio@ == p2.compression_ratio@,
        p1.dimensional_valid != p2.dimensional_valid,
    ensures
        p1.spec_canonical() != p2.spec_canonical(),
{
    let sep = ":"@;
    let prefix = "equation_proof:"@ + p1.equation_name@ + sep + p1.equation_hash@ + sep
        + p1.proof_tree_hash@ + sep + p1.stability_class@ + sep + p1.solvability_index@ + sep
        + p1.compression_ratio@ + sep;
    lemma_bool_str_ne();
    lemma_concat_middle_ne(
        prefix,
        bool_str_of(p1.dimensional_valid),
        bool_str_of(p2.dimensional_valid),
        Seq::<char>::empty(),
    );
    assert(p1.spec_canonical() =~= prefix + bool_str_of(p1.dimensional_valid)
        + Seq::<char>::empty());
    assert(p2.spec_canonical() =~= prefix + bool_str_of(p2.dimensional_valid)
        + Seq::<char>::empty());
}

/// Sensitivity: changing exactly one canonical field changes the canonical
/// string (and so tamper detection rests only on the digest being collision
/// free).
pub proof fn lemma_equation_proof_canonical_sensitive(
    p1: EquationProofPayload,
    p2: EquationProofPayload,
)
    requires
        equation_proof_fields_differ_in_one(p1, p2),
    ensures
        p1.spec_canonical() != p2.spec_canonical(),
{
    if p1.dimensional_valid != p2.dimensional_valid {
        equation_sensitive_at_dimensional(p1, p2);
    } else if p1.equation_name@ != p2.equation_name@ {
        equation_sensitive_at_name(p1, p2);
    } else if p1.equation_hash@ != p2.equation_hash@ {
        equation_sensitive_at_equation_hash(p1, p2);
    } else if p1.proof_tree_hash@ != p2.proof_tree_hash@ {
        equation_sensitive_at_proof_tree(p1, p2);
    } else if p1.stability_class@ != p2.stability_class@ {
        equation_sensitive_at_stability(p1, p2);
    } else if p1.solvability_index@ != p2.solvability_index@ {
        equation_sensitive_at_solvability(p1, p2);
    } else {
        equation_sensitive_at_compression(p1, p2);
    }
}

} // verus!
