use camo::crypto::{constant_time_eq, generate_digest, verify_digest};

#[test]
fn test_hmac_generation() {
    let key = "test-secret-key";
    let url = "https://example.com/image.png";
    let digest = generate_digest(key, url);

    assert_eq!(digest.len(), 40); // SHA1 produces 20 bytes = 40 hex chars
    assert!(verify_digest(key, url, &digest));
}

#[test]
fn test_hmac_verification_fails() {
    let key = "test-secret-key";
    let url = "https://example.com/image.png";

    assert!(!verify_digest(key, url, "invalid-digest"));
}

#[test]
fn digest_is_the_hmac_sha1_tag_in_lower_case_hex() {
    assert_eq!(
        generate_digest("Jefe", "what do ya want for nothing?"),
        "effcdf6ae5eb2fa2d27416d5f184df9c259a7c79"
    );
    assert_eq!(
        generate_digest("s3cr3t", "http://example.com/a.png"),
        "1f5bed2c57d5b9ef9a4d4e6311a1016d7a33f9b5"
    );
}

#[test]
fn digest_depends_on_key_and_url() {
    let digest = generate_digest("s3cr3t", "http://example.com/a.png");
    assert_ne!(generate_digest("s3cr3u", "http://example.com/a.png"), digest);
    assert_ne!(generate_digest("s3cr3t", "http://example.com/b.png"), digest);
    assert!(!verify_digest("s3cr3u", "http://example.com/a.png", &digest));
    assert!(!verify_digest("s3cr3t", "http://example.com/b.png", &digest));
}

#[test]
fn generated_digest_verifies() {
    for (key, url) in [("k", ""), ("s3cr3t", "http://example.com/a.png"), ("\u{e9}", "\u{65e5}")] {
        assert!(verify_digest(key, url, &generate_digest(key, url)));
    }
}

#[test]
fn every_single_bit_mutation_of_the_digest_is_rejected() {
    let key = "s3cr3t";
    let url = "http://example.com/a.png";
    let digest = generate_digest(key, url).into_bytes();
    for index in 0..digest.len() {
        for bit in 0..7 {
            let mut mutated = digest.clone();
            mutated[index] ^= 1 << bit;
            let text = String::from_utf8(mutated).unwrap();
            assert!(!verify_digest(key, url, &text));
        }
    }
}

#[test]
fn digests_of_other_lengths_are_rejected() {
    let key = "s3cr3t";
    let url = "http://example.com/a.png";
    let digest = generate_digest(key, url);
    assert!(!verify_digest(key, url, ""));
    assert!(!verify_digest(key, url, &digest[..39]));
    assert!(!verify_digest(key, url, &format!("{}0", digest)));
    assert!(!verify_digest(key, url, &digest.to_uppercase()));
}

#[test]
fn constant_time_eq_compares_whole_strings() {
    assert!(constant_time_eq(b"", b""));
    assert!(constant_time_eq(b"abc", b"abc"));
    assert!(!constant_time_eq(b"abc", b"abd"));
    assert!(!constant_time_eq(b"abc", b"bbc"));
    assert!(!constant_time_eq(b"abc", b"ab"));
    assert!(!constant_time_eq(b"\x00", b"\x80"));
}
