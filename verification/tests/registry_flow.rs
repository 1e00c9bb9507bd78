use anchor_registry::anchor_registry::{
    execute, instantiate, query, AnchorError, AnchorType, ExecuteMsg, InstantiateMsg,
    QueryAnswer, QueryMsg, Registry,
};
use anchor_registry::claim_score_anchor::ClaimScorePayload;
use anchor_registry::decfmt::Fixed8;

fn fresh(admin: Option<&str>) -> Registry {
    let msg = InstantiateMsg { admin: admin.map(|a| a.to_string()) };
    instantiate(msg, "creator".to_string()).0
}

#[test]
fn test_instantiate_default_admin() {
    let (registry, response) = instantiate(InstantiateMsg { admin: None }, "creator".to_string());
    let config = registry.get_config();
    assert_eq!(config.admin, "creator");
    assert_eq!(config.total_anchors, 0);
    assert_eq!(response.attributes[0].key, "action");
    assert_eq!(response.attributes[0].value, "instantiate");
    assert_eq!(response.attributes[1].key, "admin");
    assert_eq!(response.attributes[1].value, "creator");
}

#[test]
fn test_instantiate_explicit_admin() {
    let registry = fresh(Some("admin_a"));
    assert_eq!(registry.get_config().admin, "admin_a");
}

#[test]
fn test_register_and_lookup() {
    let mut registry = fresh(None);
    let hash = vec![0x11u8; 32];
    let entry = registry
        .register(AnchorType::Root, hash.clone(), "alice".to_string(), 42)
        .unwrap();
    assert_eq!(entry.hash_hex, hex::encode(&hash));
    assert_eq!(entry.anchor_type, "root");
    assert_eq!(entry.registered_at, 42);
    assert_eq!(entry.registrant, "alice");
    let found = registry.lookup(AnchorType::Root, &hash).unwrap();
    assert_eq!(found, entry);
}

#[test]
fn test_register_short_hash_rejected() {
    let mut registry = fresh(None);
    let r = registry.register(AnchorType::Root, vec![0u8; 16], "alice".to_string(), 1);
    assert_eq!(r, Err(AnchorError::InvalidHashLength));
    assert_eq!(registry.get_config().total_anchors, 0);
    assert!(registry.lookup(AnchorType::Root, &[0u8; 16]).is_none());
}

#[test]
fn test_register_duplicate_conflicts() {
    let mut registry = fresh(None);
    let hash = vec![0x22u8; 32];
    registry
        .register(AnchorType::ClaimScore, hash.clone(), "alice".to_string(), 1)
        .unwrap();
    let again = registry.register(AnchorType::ClaimScore, hash, "bob".to_string(), 2);
    assert_eq!(again, Err(AnchorError::AlreadyRegistered));
    assert_eq!(registry.get_config().total_anchors, 1);
}

#[test]
fn test_namespace_isolation() {
    let mut registry = fresh(None);
    let hash = vec![0x33u8; 32];
    registry
        .register(AnchorType::Root, hash.clone(), "alice".to_string(), 1)
        .unwrap();
    assert!(registry.lookup(AnchorType::Root, &hash).is_some());
    assert!(registry.lookup(AnchorType::ClaimScore, &hash).is_none());
    assert!(registry.lookup(AnchorType::EquationProof, &hash).is_none());
}

#[test]
fn test_counter_counts_each_success() {
    let mut registry = fresh(None);
    registry
        .register(AnchorType::Root, vec![1u8; 32], "a".to_string(), 1)
        .unwrap();
    registry
        .register(AnchorType::ClaimScore, vec![2u8; 32], "b".to_string(), 2)
        .unwrap();
    registry
        .register(AnchorType::EquationProof, vec![3u8; 32], "c".to_string(), 3)
        .unwrap();
    registry
        .register(AnchorType::Root, vec![4u8; 32], "d".to_string(), 4)
        .unwrap();
    assert_eq!(registry.get_config().total_anchors, 4);
}

#[test]
fn test_execute_register_root_attributes() {
    let mut registry = fresh(None);
    let hash = vec![0x44u8; 32];
    let response = execute(
        &mut registry,
        77,
        "alice".to_string(),
        ExecuteMsg::RegisterRoot { hash: hash.clone() },
    )
    .unwrap();
    let attrs: Vec<(String, String)> = response
        .attributes
        .iter()
        .map(|a| (a.key.clone(), a.value.clone()))
        .collect();
    assert_eq!(
        attrs,
        vec![
            ("action".to_string(), "register_root".to_string()),
            ("hash".to_string(), hex::encode(&hash)),
            ("registrant".to_string(), "alice".to_string()),
            ("block_height".to_string(), "77".to_string()),
        ]
    );
}

#[test]
fn test_execute_short_hash_no_state_change() {
    let mut registry = fresh(None);
    let r = execute(
        &mut registry,
        1,
        "alice".to_string(),
        ExecuteMsg::RegisterClaimScore { hash: vec![9u8; 16] },
    );
    assert_eq!(r, Err(AnchorError::InvalidHashLength));
    assert_eq!(registry.get_config().total_anchors, 0);
}

#[test]
fn test_query_verify_and_get_anchor() {
    let mut registry = fresh(None);
    let hash = vec![0x55u8; 32];
    execute(
        &mut registry,
        5,
        "alice".to_string(),
        ExecuteMsg::RegisterEquationProof { hash: hash.clone() },
    )
    .unwrap();
    match query(&registry, QueryMsg::VerifyEquationProof { hash: hash.clone() }).unwrap() {
        QueryAnswer::Verify(resp) => {
            assert!(resp.exists);
            assert_eq!(resp.hash_hex, hex::encode(&hash));
            assert_eq!(resp.entry.unwrap().registered_at, 5);
        }
        other => panic!("unexpected answer: {:?}", other),
    }
    match query(&registry, QueryMsg::VerifyRoot { hash: hash.clone() }).unwrap() {
        QueryAnswer::Verify(resp) => {
            assert!(!resp.exists);
            assert!(resp.entry.is_none());
        }
        other => panic!("unexpected answer: {:?}", other),
    }
    match query(
        &registry,
        QueryMsg::GetAnchor { hash: hash.clone(), anchor_type: "equation_proof".to_string() },
    )
    .unwrap()
    {
        QueryAnswer::Verify(resp) => assert!(resp.exists),
        other => panic!("unexpected answer: {:?}", other),
    }
    let bad = query(
        &registry,
        QueryMsg::GetAnchor { hash, anchor_type: "mystery".to_string() },
    );
    assert_eq!(bad, Err(AnchorError::UnknownAnchorType));
}

#[test]
fn test_query_get_config() {
    let mut registry = fresh(Some("admin_b"));
    execute(
        &mut registry,
        9,
        "alice".to_string(),
        ExecuteMsg::RegisterRoot { hash: vec![0x66u8; 32] },
    )
    .unwrap();
    match query(&registry, QueryMsg::GetConfig {}).unwrap() {
        QueryAnswer::Config(c) => {
            assert_eq!(c.admin, "admin_b");
            assert_eq!(c.total_anchors, 1);
        }
        other => panic!("unexpected answer: {:?}", other),
    }
}

#[test]
fn test_register_payload_digest_end_to_end() {
    let payload = ClaimScorePayload::new(
        3,
        Fixed8 { units: 77_000_000 },
        Fixed8 { units: 10_000_000 },
        Fixed8 { units: 42_000_000 },
        4,
        0,
        "stable".to_string(),
    );
    let digest = payload.hash_bytes().unwrap();
    let mut registry = fresh(None);
    let entry = registry
        .register(AnchorType::ClaimScore, digest.clone(), "alice".to_string(), 8)
        .unwrap();
    assert_eq!(entry.hash_hex, payload.payload_hash);
    assert!(registry.lookup(AnchorType::ClaimScore, &digest).is_some());
}

#[test]
fn test_error_messages() {
    assert_eq!(
        AnchorError::InvalidHashLength.message(),
        "Hash must be exactly 32 bytes (SHA-256)"
    );
    assert_eq!(AnchorError::UnknownAnchorType.message(), "Unknown anchor type");
}
