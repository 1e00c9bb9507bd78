use anchor_registry::merkle_anchor::{format_merkle_anchor, MerkleRootPayload};

#[test]
fn test_merkle_payload_deterministic() {
    let p1 = MerkleRootPayload::new("a".repeat(64), 100, None, None);
    let p2 = MerkleRootPayload::new("a".repeat(64), 100, None, None);
    assert_eq!(p1.payload_hash, p2.payload_hash);
}

#[test]
fn test_merkle_payload_verify() {
    let payload = MerkleRootPayload::new("b".repeat(64), 50, None, Some("c".repeat(64)));
    assert!(payload.verify());
}

#[test]
fn test_merkle_payload_tamper_detection() {
    let mut payload = MerkleRootPayload::new("d".repeat(64), 200, None, None);
    payload.leaf_count = 999;
    assert!(!payload.verify());
}

#[test]
fn test_root_bytes_valid() {
    let hash_hex = hex::encode([0x42u8; 32]);
    let payload = MerkleRootPayload::new(hash_hex, 10, None, None);
    let bytes = payload.root_bytes().unwrap();
    assert_eq!(bytes, vec![0x42u8; 32]);
}

#[test]
fn test_root_bytes_uppercase_hex() {
    let payload = MerkleRootPayload::new("AB".repeat(32), 10, None, None);
    let bytes = payload.root_bytes().unwrap();
    assert_eq!(bytes, vec![0xABu8; 32]);
}

#[test]
fn test_root_bytes_invalid() {
    let payload = MerkleRootPayload::new("not_hex".to_string(), 10, None, None);
    assert!(payload.root_bytes().is_none());
}

#[test]
fn test_format_merkle_anchor() {
    let hash_hex = hex::encode([0xABu8; 32]);
    let result = format_merkle_anchor(&hash_hex, 100);
    assert!(!result.is_empty());
}

#[test]
fn test_merkle_canonical_string() {
    let payload = MerkleRootPayload::new("ab".repeat(2), 7, None, Some("cd".into()));
    assert_eq!(payload.canonical_string(), "merkle_root:abab:7:cd");
    let chained = MerkleRootPayload::new("ab".repeat(2), 7, None, None);
    assert_eq!(chained.canonical_string(), "merkle_root:abab:7:");
    assert_ne!(payload.payload_hash, chained.payload_hash);
}

#[test]
fn test_format_merkle_anchor_bad_hex_is_empty() {
    assert!(format_merkle_anchor("zz", 3).is_empty());
    assert!(format_merkle_anchor("abcd", 3).is_empty());
}
