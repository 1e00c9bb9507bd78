use anchor_registry::claim_score_anchor::ClaimScorePayload;
use anchor_registry::decfmt::Fixed8;

fn fixed8(x: f64) -> Fixed8 {
    Fixed8 { units: (x * 100_000_000.0).round() as u64 }
}

#[test]
fn test_claim_score_deterministic() {
    let p1 = ClaimScorePayload::new(1, fixed8(0.85), fixed8(1.234), fixed8(0.75), 5, 2, "stable".into());
    let p2 = ClaimScorePayload::new(1, fixed8(0.85), fixed8(1.234), fixed8(0.75), 5, 2, "stable".into());
    assert_eq!(p1.payload_hash, p2.payload_hash);
}

#[test]
fn test_claim_score_verify() {
    let payload =
        ClaimScorePayload::new(42, fixed8(0.92), fixed8(0.5), fixed8(0.88), 10, 1, "converging".into());
    assert!(payload.verify());
}

#[test]
fn test_claim_score_tamper_detection() {
    let mut payload =
        ClaimScorePayload::new(1, fixed8(0.5), fixed8(0.5), fixed8(0.5), 3, 3, "volatile".into());
    payload.support_count = 100;
    assert!(!payload.verify());
}

#[test]
fn test_claim_score_fixed_precision() {
    let payload =
        ClaimScorePayload::new(1, fixed8(0.1 + 0.2), fixed8(0.0), fixed8(0.0), 0, 0, "unknown".into());
    // Fixed precision should produce consistent text
    assert!(payload.composite_score.len() > 0);
    assert!(payload.verify());
}

#[test]
fn test_hash_bytes_length() {
    let payload =
        ClaimScorePayload::new(1, fixed8(0.5), fixed8(0.5), fixed8(0.5), 1, 1, "stable".into());
    let bytes = payload.hash_bytes().unwrap();
    assert_eq!(bytes.len(), 32);
}

#[test]
fn test_claim_score_canonical_string() {
    let payload =
        ClaimScorePayload::new(42, fixed8(0.92), fixed8(0.5), fixed8(0.88), 10, 1, "converging".into());
    assert_eq!(
        payload.canonical_string(),
        "claim_score:42:0.92000000:0.50000000:0.88000000:10:1:converging"
    );
    assert_eq!(
        payload.payload_hash,
        hex::encode(anchor_registry::anchor_registry::compute_sha256(
            b"claim_score:42:0.92000000:0.50000000:0.88000000:10:1:converging"
        ))
    );
    assert!(payload.verify());
    let mut tampered = payload.clone();
    tampered.support_count = 999;
    assert!(!tampered.verify());
}

#[test]
fn test_claim_score_hash_bytes_malformed() {
    let mut payload =
        ClaimScorePayload::new(1, fixed8(0.5), fixed8(0.5), fixed8(0.5), 1, 1, "stable".into());
    payload.payload_hash = "not_hex".into();
    assert!(payload.hash_bytes().is_err());
}

#[test]
fn test_claim_score_stability_change_changes_hash() {
    let stable = ClaimScorePayload::new(7, fixed8(0.4), fixed8(0.4), fixed8(0.4), 2, 2, "stable".into());
    let unstable =
        ClaimScorePayload::new(7, fixed8(0.4), fixed8(0.4), fixed8(0.4), 2, 2, "unstable".into());
    assert_ne!(stable.payload_hash, unstable.payload_hash);
}
