use ambient_schema::{hash_api_key, DbRunningServer, Region};

#[test]
fn test_running_server_document_id() {
    assert_eq!(
        &DbRunningServer::document_id(
            Region::EU,
            None,
            "https://assets.ambient.run/somedeployment",
            ""
        ),
        "EU-somedeployment"
    );
    assert_eq!(
        &DbRunningServer::document_id(
            Region::EU,
            None,
            "https://assets.ambient.run/somedeployment",
            "context"
        ),
        "EU-somedeployment-context"
    );
    assert_eq!(
        &DbRunningServer::document_id(
            Region::EU,
            None,
            "https://assets.ambient.run/somedeployment",
            std::str::from_utf8(&[b'A'; 128]).unwrap()
        ),
        "EU-0d0b59652cc8bb5ed48964f804f3f00c731e9f90f4f814bd3add922c214cfa62"
    );
    assert_eq!(
        &DbRunningServer::document_id(
            Region::EU,
            Some("canary"),
            "https://assets.ambient.run/somedeployment",
            ""
        ),
        "EU-canary-somedeployment"
    );
    assert_eq!(
        &DbRunningServer::document_id(
            Region::EU,
            Some("canary"),
            "https://assets.ambient.run/somedeployment",
            "context"
        ),
        "EU-canary-somedeployment-context"
    );
}

#[test]
fn document_id_is_deterministic() {
    let a = DbRunningServer::document_id(Region::US, Some("blue"), "https://example.com/x", "c1");
    let b = DbRunningServer::document_id(Region::US, Some("blue"), "https://example.com/x", "c1");
    assert_eq!(a, b);
}

#[test]
fn document_id_readable_for_alphanumeric_segments() {
    assert_eq!(
        DbRunningServer::document_id(
            Region::US,
            Some("blue"),
            "https://assets.ambient.run/abc123",
            "ctx1"
        ),
        "US-blue-abc123-ctx1"
    );
}

#[test]
fn document_id_empty_fleet_is_no_fleet() {
    assert_eq!(
        DbRunningServer::document_id(
            Region::EU,
            Some(""),
            "https://assets.ambient.run/somedeployment",
            ""
        ),
        "EU-somedeployment"
    );
}

#[test]
fn document_id_context_length_boundary() {
    let readable_context = "c".repeat(63);
    assert_eq!(
        DbRunningServer::document_id(
            Region::EU,
            None,
            "https://assets.ambient.run/somedeployment",
            &readable_context
        ),
        format!("EU-somedeployment-{}", readable_context)
    );
    let hashed_context = "c".repeat(64);
    assert_eq!(
        &DbRunningServer::document_id(
            Region::EU,
            None,
            "https://assets.ambient.run/somedeployment",
            &hashed_context
        ),
        "EU-6a896506c1872b69e2c2f41abd4f963568cf764a261fa8661061582d7ff58744"
    );
}

#[test]
fn document_id_hashes_untrusted_urls() {
    assert_eq!(
        &DbRunningServer::document_id(Region::EU, None, "https://example.com/foo", ""),
        "EU-81320944bae762b53971e2deb460b2e7806a09fe88fdcca812476fc230f9e6d1"
    );
}

#[test]
fn document_id_hashes_non_alphanumeric_segments() {
    assert_eq!(
        &DbRunningServer::document_id(
            Region::EU,
            None,
            "https://assets.ambient.run/some_deployment",
            ""
        ),
        "EU-0c719969fce0f719ed639f8a2d801e7ddb99c489618bf93e1956ffbc597806de"
    );
}

#[test]
fn hash_api_key_known_values() {
    assert_eq!(
        &hash_api_key(""),
        "31d18c0defdc3e0eadd46bb4c04e4ad798f4582fbde1216806bde3cbe250350c"
    );
    assert_eq!(
        &hash_api_key("test"),
        "cfad82c0c5803cbb9bccc95841b61d705d911a5f2198fc5f8a2dc7de8e7b8146"
    );
}

#[test]
fn hash_api_key_shape_and_determinism() {
    let h1 = hash_api_key("some-api-key");
    let h2 = hash_api_key("some-api-key");
    assert_eq!(h1, h2);
    assert_eq!(h1.len(), 64);
    assert!(h1.chars().all(|c| c.is_ascii_hexdigit() && !c.is_ascii_uppercase()));
    let other = hash_api_key("some-api-kez");
    assert_ne!(h1, other);
}

#[test]
fn region_names_parse_back() {
    assert_eq!(Region::EU.name(), "EU");
    assert_eq!(Region::US.name(), "US");
    assert_eq!(Region::parse("EU"), Some(Region::EU));
    assert_eq!(Region::parse("US"), Some(Region::US));
    assert_eq!(Region::parse("eu"), None);
}
