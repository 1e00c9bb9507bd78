//! Deterministic, content-addressed integrity-anchoring registry.
//!
//! The crate anchors 32-byte SHA-256 digests of three kinds of artifacts
//! (Merkle roots, claim-confidence scores, formal-equation proofs) in
//! independent namespaces, keyed by the digest itself, and lets any party
//! verify later that a digest was registered, by whom, and at what height.
//!
//! Canonical payload builders turn structured records into a single
//! deterministic byte string and its digest; they are the shared determinism
//! contract between whoever produces a digest and whoever re-checks it.

pub mod anchor_registry;
pub mod canonical;
pub mod claim_score_anchor;
pub mod decfmt;
pub mod equation_proof_anchor;
pub mod hexstr;
pub mod merkle_anchor;
