use anchor_registry::decfmt::Fixed8;
use anchor_registry::equation_proof_anchor::EquationProofPayload;

fn fixed8(x: f64) -> Fixed8 {
    Fixed8 { units: (x * 100_000_000.0).round() as u64 }
}

#[test]
fn test_equation_proof_deterministic() {
    let p1 = EquationProofPayload::new(
        "newton_gravity".into(),
        "a".repeat(64),
        "b".repeat(64),
        "stable".into(),
        fixed8(0.95),
        fixed8(0.45),
        true,
    );
    let p2 = EquationProofPayload::new(
        "newton_gravity".into(),
        "a".repeat(64),
        "b".repeat(64),
        "stable".into(),
        fixed8(0.95),
        fixed8(0.45),
        true,
    );
    assert_eq!(p1.payload_hash, p2.payload_hash);
}

#[test]
fn test_equation_proof_verify() {
    let payload = EquationProofPayload::new(
        "einstein_energy".into(),
        "c".repeat(64),
        "d".repeat(64),
        "stable".into(),
        fixed8(1.0),
        fixed8(0.5),
        true,
    );
    assert!(payload.verify());
}

#[test]
fn test_equation_proof_tamper_detection() {
    let mut payload = EquationProofPayload::new(
        "maxwell_gauss".into(),
        "e".repeat(64),
        "f".repeat(64),
        "stable".into(),
        fixed8(0.8),
        fixed8(0.3),
        true,
    );
    payload.dimensional_valid = false;
    assert!(!payload.verify());
}

#[test]
fn test_equation_proof_hash_bytes() {
    let payload = EquationProofPayload::new(
        "test".into(),
        "a".repeat(64),
        "b".repeat(64),
        "unknown".into(),
        fixed8(0.5),
        fixed8(0.5),
        false,
    );
    let bytes = payload.hash_bytes().unwrap();
    assert_eq!(bytes.len(), 32);
    // Should not be all zeros (would mean the decode silently failed)
    assert!(bytes.iter().any(|&b| b != 0));
}

#[test]
fn test_equation_proof_different_stability() {
    let stable = EquationProofPayload::new(
        "eq".into(),
        "a".repeat(64),
        "b".repeat(64),
        "stable".into(),
        fixed8(0.5),
        fixed8(0.5),
        true,
    );
    let unstable = EquationProofPayload::new(
        "eq".into(),
        "a".repeat(64),
        "b".repeat(64),
        "unstable".into(),
        fixed8(0.5),
        fixed8(0.5),
        true,
    );
    assert_ne!(stable.payload_hash, unstable.payload_hash);
}

#[test]
fn test_equation_proof_canonical_string() {
    let payload = EquationProofPayload::new(
        "eq".into(),
        "a".repeat(4),
        "b".repeat(4),
        "stable".into(),
        Fixed8 { units: 123 },
        fixed8(0.5),
        true,
    );
    assert_eq!(payload.solvability_index, "0.00000123");
    assert_eq!(
        payload.canonical_string(),
        "equation_proof:eq:aaaa:bbbb:stable:0.00000123:0.50000000:1"
    );
}
