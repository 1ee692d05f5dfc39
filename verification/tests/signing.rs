use camo::{sign_url, CamoUrl, Encoding};

#[test]
fn test_sign_url() {
    let camo = CamoUrl::new("test-secret");
    let signed = camo.sign("http://example.com/image.png");

    assert!(!signed.digest.is_empty());
    assert!(!signed.encoded_url.is_empty());
    assert_eq!(signed.encoding, Encoding::Hex);
}

#[test]
fn test_sign_url_base64() {
    let camo = CamoUrl::new("test-secret").with_encoding(Encoding::Base64);
    let signed = camo.sign("http://example.com/image.png");

    assert_eq!(signed.encoding, Encoding::Base64);
}

#[test]
fn test_to_url() {
    let camo = CamoUrl::new("test-secret");
    let url = camo.sign_url("http://example.com/image.png", "https://camo.example.com");

    assert!(url.starts_with("https://camo.example.com/"));
    assert!(url.contains('/'));
}

#[test]
fn test_verify() {
    let camo = CamoUrl::new("test-secret");
    let signed = camo.sign("http://example.com/image.png");

    assert!(camo.verify("http://example.com/image.png", &signed.digest));
    assert!(!camo.verify("http://example.com/image.png", "invalid-digest"));
}

#[test]
fn test_encoding_switch() {
    let camo = CamoUrl::new("test-secret");
    let signed = camo.sign("http://example.com/image.png");
    let hex_encoded = signed.encoded_url.clone();

    let signed = signed.base64();
    assert_ne!(signed.encoded_url, hex_encoded);
    assert_eq!(signed.encoding, Encoding::Base64);

    let signed = signed.hex();
    assert_eq!(signed.encoded_url, hex_encoded);
    assert_eq!(signed.encoding, Encoding::Hex);
}

#[test]
fn test_convenience_function() {
    let url = sign_url("secret", "http://example.com/image.png", "https://camo.example.com");
    assert!(url.starts_with("https://camo.example.com/"));
}

#[test]
fn signed_url_holds_digest_and_token() {
    let signed = CamoUrl::new("test-secret").sign("http://example.com/image.png");
    assert_eq!(signed.original_url, "http://example.com/image.png");
    assert_eq!(signed.digest, "1d0dc3f1fe5ad770e15d9e74c5baed930c2dbb3b");
    assert_eq!(signed.encoded_url, "687474703a2f2f6578616d706c652e636f6d2f696d6167652e706e67");
    let signed = signed.base64();
    assert_eq!(signed.encoded_url, "aHR0cDovL2V4YW1wbGUuY29tL2ltYWdlLnBuZw");
    assert_eq!(signed.digest, "1d0dc3f1fe5ad770e15d9e74c5baed930c2dbb3b");
}

#[test]
fn to_path_and_to_url_join_with_single_slashes() {
    let signed = CamoUrl::new("test-secret").sign("http://example.com/image.png");
    let path = "/1d0dc3f1fe5ad770e15d9e74c5baed930c2dbb3b/687474703a2f2f6578616d706c652e636f6d2f696d6167652e706e67";
    assert_eq!(signed.to_path(), path);
    assert_eq!(signed.to_url("https://camo.example.com"), format!("https://camo.example.com{}", path));
    assert_eq!(signed.to_url("https://camo.example.com/"), format!("https://camo.example.com{}", path));
    assert_eq!(signed.to_url("https://camo.example.com///"), format!("https://camo.example.com{}", path));
    assert_eq!(signed.to_url(""), path);
    assert_eq!(signed.to_url("/"), path);
}

#[test]
fn switching_to_the_same_encoding_changes_nothing() {
    let signed = CamoUrl::new("k").sign("http://example.com/");
    let token = signed.encoded_url.clone();
    let signed = signed.hex();
    assert_eq!(signed.encoded_url, token);
    assert_eq!(signed.encoding, Encoding::Hex);
}

#[test]
fn default_encoding_is_hex() {
    assert_eq!(Encoding::default(), Encoding::Hex);
}

#[test]
fn convenience_function_signs_in_hex() {
    assert_eq!(
        sign_url("secret", "http://example.com/image.png", "https://camo.example.com"),
        "https://camo.example.com/7e9fa90814be52b33cb3d6f47ed1f6d245128e9f/687474703a2f2f6578616d706c652e636f6d2f696d6167652e706e67"
    );
}

#[test]
fn signing_report_prints_parts_or_url() {
    let lines = camo::signing_report("secret", "http://example.com/image.png", "", false);
    assert_eq!(
        lines,
        vec![
            "Digest: 7e9fa90814be52b33cb3d6f47ed1f6d245128e9f".to_string(),
            "Encoded URL: 687474703a2f2f6578616d706c652e636f6d2f696d6167652e706e67".to_string(),
            "Path: /7e9fa90814be52b33cb3d6f47ed1f6d245128e9f/687474703a2f2f6578616d706c652e636f6d2f696d6167652e706e67".to_string(),
        ]
    );
    let lines = camo::signing_report("secret", "http://example.com/image.png", "https://c.example/", true);
    assert_eq!(
        lines,
        vec!["https://c.example/7e9fa90814be52b33cb3d6f47ed1f6d245128e9f/aHR0cDovL2V4YW1wbGUuY29tL2ltYWdlLnBuZw".to_string()]
    );
}
