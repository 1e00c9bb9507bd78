//! Deterministic anchoring for epistemic claim scores.
//!
//! Canonical form: `"claim_score:" + claim_id + ":" + composite(8dp) + ":" +
//! entropy(8dp) + ":" + density(8dp) + ":" + support_count + ":" +
//! contradict_count + ":" + stability_class`, every fractional score rendered
//! with exactly 8 digits after the decimal point.

use vstd::prelude::*;
use vstd::string::StringExecFns;
use vstd::utf8::encode_utf8;

use crate::anchor_registry::{sha256_of, AnchorError};
use crate::canonical::{canonical_digest_hex, lemma_concat_middle_ne, payload_hash_of};
use crate::decfmt::{
    dec_str_of, fixed8_str_of, format_fixed8, lemma_dec_str_injective, u64_to_dec_string, Fixed8,
};
use crate::hexstr::{hex_bytes_of, hex_decode, is_hex_string, lemma_hex_roundtrip};

verus! {

/// The canonical string of a claim score record.
pub open spec fn spec_claim_score_canonical(
    claim_id: u64,
    composite: Seq<char>,
    entropy: Seq<char>,
    density: Seq<char>,
    support: u64,
    contradict: u64,
    stability: Seq<char>,
) -> Seq<char> {
    "claim_score:"@ + dec_str_of(claim_id as nat) + ":"@ + composite + ":"@ + entropy + ":"@
        + density + ":"@ + dec_str_of(support as nat) + ":"@ + dec_str_of(contradict as nat) + ":"@
        + stability
}

/// A claim score anchor payload.
#[derive(Clone, Debug, PartialEq)]
pub struct ClaimScorePayload {
    /// Claim ID from the evidence graph
    pub claim_id: u64,
    /// Composite confidence score, fixed 8-decimal text
    pub composite_score: String,
    /// Shannon entropy of the mutation chain, fixed 8-decimal text
    pub shannon_entropy: String,
    /// Citation density score, fixed 8-decimal text
    pub citation_density: String,
    /// Number of supporting sources
    pub support_count: u64,
    /// Number of contradicting sources
    pub contradict_count: u64,
    /// Stability classification
    pub stability_class: String,
    /// SHA-256 of the canonical payload, hex-encoded
    pub payload_hash: String,
}

impl ClaimScorePayload {
    /// The canonical string recomputed from the current field values.
    pub open spec fn spec_canonical(self) -> Seq<char> {
        spec_claim_score_canonical(
            self.claim_id,
            self.composite_score@,
            self.shannon_entropy@,
            self.citation_density@,
            self.support_count,
            self.contradict_count,
            self.stability_class@,
        )
    }

    /// The payload is intact: its stored digest equals the digest of its
    /// current canonical string.
    pub open spec fn spec_verifies(self) -> bool {
        self.payload_hash@ == payload_hash_of(self.spec_canonical())
    }

    /// Construct a deterministic claim score payload.
    pub fn new(
        claim_id: u64,
        composite_score: Fixed8,
        shannon_entropy: Fixed8,
        citation_density: Fixed8,
        support_count: u64,
        contradict_count: u64,
        stability_class: String,
    ) -> (p: ClaimScorePayload)
        ensures
            p.claim_id == claim_id,
            p.composite_score@ == fixed8_str_of(composite_score.units),
            p.shannon_entropy@ == fixed8_str_of(shannon_entropy.units),
            p.citation_density@ == fixed8_str_of(citation_density.units),
            p.support_count == support_count,
            p.contradict_count == contradict_count,
            p.stability_class == stability_class,
            p.payload_hash@ == payload_hash_of(p.spec_canonical()),
            is_hex_string(p.payload_hash@),
            hex_bytes_of(p.payload_hash@) == sha256_of(encode_utf8(p.spec_canonical())),
            hex_bytes_of(p.payload_hash@).len() == 32,
    {
        let mut p = ClaimScorePayload {
            claim_id,
            composite_score: format_fixed8(composite_score),
            shannon_entropy: format_fixed8(shannon_entropy),
            citation_density: format_fixed8(citation_density),
            support_count,
            contradict_count,
            stability_class,
            payload_hash: String::new(),
        };
        let canonical = p.canonical_string();
        p.payload_hash = canonical_digest_hex(canonical.as_str());
        proof {
            lemma_hex_roundtrip(sha256_of(encode_utf8(p.spec_canonical())));
        }
        p
    }

    /// The canonical string from the payload's current field values.
    pub fn canonical_string(&self) -> (r: String)
        ensures
            r@ == self.spec_canonical(),
    {
        let mut s = String::from_str("claim_score:");
        let id = u64_to_dec_string(self.claim_id);
        s.append(id.as_str());
        s.append(":");
        s.append(self.composite_score.as_str());
        s.append(":");
        s.append(self.shannon_entropy.as_str());
        s.append(":");
        s.append(self.citation_density.as_str());
        s.append(":");
        let sup = u64_to_dec_string(self.support_count);
        s.append(sup.as_str());
        s.append(":");
        let con = u64_to_dec_string(self.contradict_count);
        s.append(con.as_str());
        s.append(":");
        s.append(self.stability_class.as_str());
        proof {
            assert(s@ =~= self.spec_canonical());
        }
        s
    }

    /// Verify payload integrity by recomputing the hash.
    pub fn verify(&self) -> (r: bool)
        ensures
            r == self.spec_verifies(),
    {
        let canonical = self.canonical_string();
        let recomputed = canonical_digest_hex(canonical.as_str());
        recomputed == self.payload_hash
    }

    /// The raw 32-byte digest for on-chain registration; an error when the
    /// stored digest is not valid hex for exactly 32 bytes.
    pub fn hash_bytes(&self) -> (r: Result<Vec<u8>, AnchorError>)
        ensures
            r is Ok <==> is_hex_string(self.payload_hash@) && hex_bytes_of(
                self.payload_hash@,
            ).len() == 32,
            r matches Ok(v) ==> v@ == hex_bytes_of(self.payload_hash@) && v@.len() == 32,
            r matches Err(e) ==> e == AnchorError::MalformedDigestHex,
    {
        match hex_decode(self.payload_hash.as_str()) {
            Some(decoded) => if decoded.len() == 32 {
                Ok(decoded)
            } else {
                Err(AnchorError::MalformedDigestHex)
            },
            None => Err(AnchorError::MalformedDigestHex),
        }
    }
}

/// Two claim score payloads differ in exactly one canonical field.
pub open spec fn claim_score_fields_differ_in_one(
    p1: ClaimScorePayload,
    p2: ClaimScorePayload,
) -> bool {
    ||| (p1.claim_id != p2.claim_id && p1.composite_score@ == p2.composite_score@
        && p1.shannon_entropy@ == p2.shannon_entropy@ && p1.citation_density@
        == p2.citation_density@ && p1.support_count == p2.support_count && p1.contradict_count
        == p2.contradict_count && p1.stability_class@ == p2.stability_class@)
    ||| (p1.claim_id == p2.claim_id && p1.composite_score@ != p2.composite_score@
        && p1.shannon_entropy@ == p2.shannon_entropy@ && p1.citation_density@
        == p2.citation_density@ && p1.support_count == p2.support_count && p1.contradict_count
        == p2.contradict_count && p1.stability_class@ == p2.stability_class@)
    ||| (p1.claim_id == p2.claim_id && p1.composite_score@ == p2.composite_score@
        && p1.shannon_entropy@ != p2.shannon_entropy@ && p1.citation_density@
        == p2.citation_density@ && p1.support_count == p2.support_count && p1.contradict_count
        == p2.contradict_count && p1.stability_class@ == p2.stability_class@)
    ||| (p1.claim_id == p2.claim_id && p1.composite_score@ == p2.composite_score@
        && p1.shannon_entropy@ == p2.shannon_entropy@ && p1.citation_density@
        != p2.citation_density@ && p1.support_count == p2.support_count && p1.contradict_count
        == p2.contradict_count && p1.stability_class@ == p2.stability_class@)
    ||| (p1.claim_id == p2.claim_id && p1.composite_score@ == p2.composite_score@
        && p1.shannon_entropy@ == p2.shannon_entropy@ && p1.citation_density@
        == p2.citation_density@ && p1.support_count != p2.support_count && p1.contradict_count
        == p2.contradict_count && p1.stability_class@ == p2.stability_class@)
    ||| (p1.claim_id == p2.claim_id && p1.composite_score@ == p2.composite_score@
        && p1.shannon_entropy@ == p2.shannon_entropy@ && p1.citation_density@
        == p2.citation_density@ && p1.support_count == p2.support_count && p1.contradict_count
        != p2.contradict_count && p1.stability_class@ == p2.stability_class@)
    ||| (p1.claim_id == p2.claim_id && p1.composite_score@ == p2.composite_score@
        && p1.shannon_entropy@ == p2.shannon_entropy@ && p1.citation_density@
        == p2.citation_density@ && p1.support_count == p2.support_count && p1.contradict_count
        == p2.contradict_count && p1.stability_class@ != p2.stability_class@)
}

/// Determinism: two payloads whose canonical fields agree and whose digests
/// derive from their canonical strings carry the same `payload_hash`.
pub proof fn lemma_claim_score_deterministic(p1: ClaimScorePayload, p2: ClaimScorePayload)
    requires
        p1.claim_id == p2.claim_id,
        p1.composite_score@ == p2.composite_score@,
        p1.shannon_entropy@ == p2.shannon_entropy@,
        p1.citation_density@ == p2.citation_density@,
        p1.support_count == p2.support_count,
        p1.contradict_count == p2.contradict_count,
        p1.stability_class@ == p2.stability_class@,
        p1.payload_hash@ == payload_hash_of(p1.spec_canonical()),
        p2.payload_hash@ == payload_hash_of(p2.spec_canonical()),
    ensures
        p1.payload_hash@ == p2.payload_hash@,
{
}

/// Round trip: a freshly constructed payload verifies.
pub proof fn lemma_claim_score_construct_verifies(p: ClaimScorePayload)
    requires
        p.payload_hash@ == payload_hash_of(p.spec_canonical()),
    ensures
        p.spec_verifies(),
{
}

proof fn claim_sensitive_at_claim_id(p1: ClaimScorePayload, p2: ClaimScorePayload)
    requires
        p1.claim_id != p2.claim_id,
        p1.composite_score@ == p2.composite_score@,
        p1.shannon_entropy@ == p2.shannon_entropy@,
        p1.citation_density@ == p2.citation_density@,
        p1.support_count == p2.support_count,
        p1.contradict_count == p2.contradict_count,
        p1.stability_class@ == p2.stability_class@,
    ensures
        p1.spec_canonical() != p2.spec_canonical(),
{
    let tag = "claim_score:"@;
    let sep = ":"@;
    let id1 = dec_str_of(p1.claim_id as nat);
    let id2 = dec_str_of(p2.claim_id as nat);
    let suffix = sep + p1.composite_score@ + sep + p1.shannon_entropy@ + sep
        + p1.citation_density@ + sep + dec_str_of(p1.support_count as nat) + sep + dec_str_of(
        p1.contradict_count as nat,
    ) + sep + p1.stability_class@;
    if id1 == id2 {
        lemma_dec_str_injective(p1.claim_id as nat, p2.claim_id as nat);
    }
    lemma_concat_middle_ne(tag, id1, id2, suffix);
    assert(p1.spec_canonical() =~= tag + id1 + suffix);
    assert(p2.spec_canonical() =~= tag + id2 + suffix);
}

proof fn claim_sensitive_at_composite(p1: ClaimScorePayload, p2: ClaimScorePayload)
    requires
        p1.claim_id == p2.claim_id,
        p1.composite_score@ != p2.composite_score@,
        p1.shannon_entropy@ == p2.shannon_entropy@,
        p1.citation_density@ == p2.citation_density@,
        p1.support_count == p2.support_count,
        p1.contradict_count == p2.contradict_count,
        p1.stability_class@ == p2.stability_class@,
    ensures
        p1.spec_canonical() != p2.spec_canonical(),
{
    let sep = ":"@;
    let prefix = "claim_score:"@ + dec_str_of(p1.claim_id as nat) + sep;
    let suffix = sep + p1.shannon_entropy@ + sep + p1.citation_density@ + sep + dec_str_of(
        p1.support_count as nat,
    ) + sep + dec_str_of(p1.contradict_count as nat) + sep + p1.stability_class@;
    lemma_concat_middle_ne(prefix, p1.composite_score@, p2.composite_score@, suffix);
    assert(p1.spec_canonical() =~= prefix + p1.composite_score@ + suffix);
    assert(p2.spec_canonical() =~= prefix + p2.composite_score@ + suffix);
}

proof fn claim_sensitive_at_entropy(p1: ClaimScorePayload, p2: ClaimScorePayload)
    requires
        p1.claim_id == p2.claim_id,
        p1.composite_score@ == p2.composite_score@,
        p1.shannon_entropy@ != p2.shannon_entropy@,
        p1.citation_density@ == p2.citation_density@,
        p1.support_count == p2.support_count,
        p1.contradict_count == p2.contradict_count,
        p1.stability_class@ == p2.stability_class@,
    ensures
        p1.spec_canonical() != p2.spec_canonical(),
{
    let sep = ":"@;
    let prefix = "claim_score:"@ + dec_str_of(p1.claim_id as nat) + sep + p1.composite_score@
        + sep;
    let suffix = sep + p1.citation_density@ + sep + dec_str_of(p1.support_count as nat) + sep
        + dec_str_of(p1.contradict_count as nat) + sep + p1.stability_class@;
    lemma_concat_middle_ne(prefix, p1.shannon_entropy@, p2.shannon_entropy@, suffix);
    assert(p1.spec_canonical() =~= prefix + p1.shannon_entropy@ + suffix);
    assert(p2.spec_canonical() =~= prefix + p2.shannon_entropy@ + suffix);
}

proof fn claim_sensitive_at_density(p1: ClaimScorePayload, p2: ClaimScorePayload)
    requires
        p1.claim_id == p2.claim_id,
        p1.composite_score@ == p2.composite_score@,
        p1.shannon_entropy@ == p2.shannon_entropy@,
        p1.citation_density@ != p2.citation_density@,
        p1.support_count == p2.support_count,
        p1.contradict_count == p2.contradict_count,
        p1.stability_class@ == p2.stability_class@,
    ensures
        p1.spec_canonical() != p2.spec_canonical(),
{
    let sep = ":"@;
    let prefix = "claim_score:"@ + dec_str_of(p1.claim_id as nat) + sep + p1.composite_score@ + sep
        + p1.shannon_entropy@ + sep;
    let suffix = sep + dec_str_of(p1.support_count as nat) + sep + dec_str_of(
        p1.contradict_count as nat,
    ) + sep + p1.stability_class@;
    lemma_concat_middle_ne(prefix, p1.citation_density@, p2.citation_density@, suffix);
    assert(p1.spec_canonical() =~= prefix + p1.citation_density@ + suffix);
    assert(p2.spec_canonical() =~= prefix + p2.citation_density@ + suffix);
}

proof fn claim_sensitive_at_support(p1: ClaimScorePayload, p2: ClaimScorePayload)
    requires
        p1.claim_id == p2.claim_id,
        p1.composite_score@ == p2.composite_score@,
        p1.shannon_entropy@ == p2.shannon_entropy@,
        p1.citation_density@ == p2.citation_density@,
        p1.support_count != p2.support_count,
        p1.contradict_count == p2.contradict_count,
        p1.stability_class@ == p2.stability_class@,
    ensures
        p1.spec_canonical() != p2.spec_canonical(),
{
    let sep = ":"@;
    let sup1 = dec_str_of(p1.support_count as nat);
    let sup2 = dec_str_of(p2.support_count as nat);
    let prefix = "claim_score:"@ + dec_str_of(p1.claim_id as nat) + sep + p1.composite_score@ + sep
        + p1.shannon_entropy@ + sep + p1.citation_density@ + sep;
    let suffix = sep + dec_str_of(p1.contradict_count as nat) + sep + p1.stability_class@;
    if sup1 == sup2 {
        lemma_dec_str_injective(p1.support_count as nat, p2.support_count as nat);
    }
    lemma_concat_middle_ne(prefix, sup1, sup2, suffix);
    assert(p1.spec_canonical() =~= prefix + sup1 + suffix);
    assert(p2.spec_canonical() =~= prefix + sup2 + suffix);
}

proof fn claim_sensitive_at_contradict(p1: ClaimScorePayload, p2: ClaimScorePayload)
    requires
        p1.claim_id == p2.claim_id,
        p1.composite_score@ == p2.composite_score@,
        p1.shannon_entropy@ == p2.shannon_entropy@,
        p1.citation_density@ == p2.citation_density@,
        p1.support_count == p2.support_count,
        p1.contradict_count != p2.contradict_count,
        p1.stability_class@ == p2.stability_class@,
    ensures
        p1.spec_canonical() != p2.spec_canonical(),
{
    let sep = ":"@;
    let con1 = dec_str_of(p1.contradict_count as nat);
    let con2 = dec_str_of(p2.contradict_count as nat);
    let prefix = "claim_score:"@ + dec_str_of(p1.claim_id as nat) + sep + p1.composite_score@ + sep
        + p1.shannon_entropy@ + sep + p1.citation_density@ + sep + dec_str_of(
        p1.support_count as nat,
    ) + sep;
    let suffix = sep + p1.stability_class@;
    if con1 == con2 {
        lemma_dec_str_injective(p1.contradict_count as nat, p2.contradict_count as nat);
    }
    lemma_concat_middle_ne(prefix, con1, con2, suffix);
    assert(p1.spec_canonical() =~= prefix + con1 + suffix);
    assert(p2.spec_canonical() =~= prefix + con2 + suffix);
}

proof fn claim_sensitive_at_stability(p1: ClaimScorePayload, p2: ClaimScorePayload)
    requires
        p1.claim_id == p2.claim_id,
        p1.composite_score@ == p2.composite_score@,
        p1.shannon_entropy@ == p2.shannon_entropy@,
        p1.citation_density@ == p2.citation_density@,
        p1.support_count == p2.support_count,
        p1.contradict_count == p2.contradict_count,
        p1.stability_class@ != p2.stability_class@,
    ensures
        p1.spec_canonical() != p2.spec_canonical(),
{
    let sep = ":"@;
    let prefix = "claim_score:"@ + dec_str_of(p1.claim_id as nat) + sep + p1.composite_score@ + sep
        + p1.shannon_entropy@ + sep + p1.citation_density@ + sep + dec_str_of(
        p1.support_count as nat,
    ) + sep + dec_str_of(p1.contradict_count as nat) + sep;
    lemma_concat_middle_ne(prefix, p1.stability_class@, p2.stability_class@, Seq::<char>::empty());
    assert(p1.spec_canonical() =~= prefix + p1.stability_class@ + Seq::<char>::empty());
    assert(p2.spec_canonical() =~= prefix + p2.stability_class@ + Seq::<char>::empty());
}

/// Sensitivity: changing exactly one canonical field changes the canonical
/// string (and so tamper detection rests only on the digest being collision
/// free).
pub proof fn lemma_claim_score_canonical_sensitive(p1: ClaimScorePayload, p2: ClaimScorePayload)
    requires
        claim_score_fields_differ_in_one(p1, p2),
    ensures
        p1.spec_canonical() != p2.spec_canonical(),
{
    if p1.claim_id != p2.claim_id {
        claim_sensitive_at_claim_id(p1, p2);
    } else if p1.composite_score@ != p2.composite_score@ {
        claim_sensitive_at_composite(p1, p2);
    } else if p1.shannon_entropy@ != p2.shannon_entropy@ {
        claim_sensitive_at_entropy(p1, p2);
    } else if p1.citation_density@ != p2.citation_density@ {
        claim_sensitive_at_density(p1, p2);
    } else if p1.support_count != p2.support_count {
        claim_sensitive_at_support(p1, p2);
    } else if p1.contradict_count != p2.contradict_count {
        claim_sensitive_at_contradict(p1, p2);
    } else {
        claim_sensitive_at_stability(p1, p2);
    }
}

} // verus!
