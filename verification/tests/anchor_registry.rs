use anchor_registry::anchor_registry::{
    compute_sha256, format_anchor_payload, validate_hash,
};

#[test]
fn test_validate_hash_valid() {
    let hash = [0u8; 32];
    assert!(validate_hash(&hash));
}

#[test]
fn test_validate_hash_invalid_length() {
    let hash = [0u8; 16];
    assert!(!validate_hash(&hash));
}

#[test]
fn test_compute_sha256_deterministic() {
    let data = b"Project Anchor - Gravity Event";
    let h1 = compute_sha256(data);
    let h2 = compute_sha256(data);
    assert_eq!(h1, h2);
}

#[test]
fn test_compute_sha256_different_inputs() {
    let h1 = compute_sha256(b"input_a");
    let h2 = compute_sha256(b"input_b");
    assert_ne!(h1, h2);
}

#[test]
fn test_compute_sha256_known_vector() {
    let digest = compute_sha256(b"abc");
    assert_eq!(
        hex::encode(digest),
        "ba7816bf8f01cfea414140de5dae2223b00361a396177a9cb410ff61f20015ad"
    );
}

#[test]
fn test_format_anchor_payload_deterministic() {
    let hash = compute_sha256(b"test_root");
    let p1 = format_anchor_payload(&hash, "root", 12345);
    let p2 = format_anchor_payload(&hash, "root", 12345);
    assert_eq!(p1, p2);
}

#[test]
fn test_format_anchor_payload_exact_bytes() {
    let hash = [0x01u8; 32];
    let payload = format_anchor_payload(&hash, "claim_score", 7);
    let mut expected = Vec::new();
    expected.extend_from_slice(b"claim_score:");
    expected.extend_from_slice(hex::encode([0x01u8; 32]).as_bytes());
    expected.push(b':');
    expected.extend_from_slice(&7u64.to_be_bytes());
    assert_eq!(payload, expected);
}

#[test]
fn test_format_anchor_payload_structure() {
    let hash = [0xABu8; 32];
    let payload = format_anchor_payload(&hash, "root", 1);
    let payload_str = String::from_utf8_lossy(&payload);
    assert!(payload_str.starts_with("root:"));
    assert!(payload_str.contains(&hex::encode([0xABu8; 32])));
}
