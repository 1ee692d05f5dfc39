use base64::engine::general_purpose::URL_SAFE_NO_PAD;
use base64::Engine;
use camo::encoding::{decode_url, encode_url_base64, encode_url_hex};

#[test]
fn test_hex_encoding() {
    let url = "https://example.com/image.png";
    let encoded = encode_url_hex(url);
    // Verify it's valid hex
    assert!(hex::decode(&encoded).is_ok());
}

#[test]
fn test_base64_encoding() {
    let url = "https://example.com/image.png";
    let encoded = encode_url_base64(url);
    // Verify it's valid base64
    assert!(URL_SAFE_NO_PAD.decode(&encoded).is_ok());
}

#[test]
fn test_hex_roundtrip() {
    let url = "https://example.com/image.png";
    let encoded = encode_url_hex(url);
    let decoded = decode_url(&encoded).unwrap();
    assert_eq!(decoded, url);
}

#[test]
fn test_base64_roundtrip() {
    let url = "https://example.com/image.png";
    let encoded = encode_url_base64(url);
    let decoded = decode_url(&encoded).unwrap();
    assert_eq!(decoded, url);
}

#[test]
fn hex_token_is_lower_case_digits_of_the_bytes() {
    assert_eq!(
        encode_url_hex("https://example.com/image.png"),
        "68747470733a2f2f6578616d706c652e636f6d2f696d6167652e706e67"
    );
    assert_eq!(encode_url_hex(""), "");
    assert_eq!(encode_url_hex("\u{1b5a}"), "e1ad9a");
}

#[test]
fn base64_token_is_url_safe_and_unpadded() {
    assert_eq!(
        encode_url_base64("https://example.com/image.png"),
        "aHR0cHM6Ly9leGFtcGxlLmNvbS9pbWFnZS5wbmc"
    );
    assert_eq!(encode_url_base64(""), "");
    assert_eq!(encode_url_base64("a"), "YQ");
    assert_eq!(encode_url_base64("ab"), "YWI");
    assert_eq!(encode_url_base64("abc"), "YWJj");
    assert_eq!(encode_url_base64("a?>"), "YT8-");
    assert_eq!(encode_url_base64("\u{7ff}\u{7fe}"), "37_fvg");
}

#[test]
fn decode_reads_hex_of_either_case() {
    assert_eq!(decode_url("687474703A2F2F61").as_deref(), Some("http://a"));
    assert_eq!(decode_url("687474703a2f2f61").as_deref(), Some("http://a"));
}

#[test]
fn decode_tries_hex_before_base64() {
    // The base64 token of U+1B5A is also two hexadecimal bytes that spell a text.
    assert_eq!(encode_url_base64("\u{1b5a}"), "4a2a");
    assert_eq!(decode_url("4a2a").as_deref(), Some("J*"));
}

#[test]
fn decode_falls_back_to_base64_where_hex_is_no_text() {
    // "AAAA" is valid hex for two bytes that are no UTF-8, and valid base64 for three zeros.
    assert_eq!(decode_url("AAAA").as_deref(), Some("\0\0\0"));
}

#[test]
fn decode_falls_back_to_percent_decoding() {
    assert_eq!(
        decode_url("http%3A%2F%2Fexample.com%2Fa%20b.png").as_deref(),
        Some("http://example.com/a b.png")
    );
    assert_eq!(decode_url("http://example.com/a.png").as_deref(), Some("http://example.com/a.png"));
    assert_eq!(decode_url("100%").as_deref(), Some("100%"));
    assert_eq!(decode_url("a%2").as_deref(), Some("a%2"));
    assert_eq!(decode_url("a%zzb").as_deref(), Some("a%zzb"));
    assert_eq!(decode_url("a+b%2Bc").as_deref(), Some("a+b+c"));
}

#[test]
fn decode_fails_where_no_reading_is_text() {
    assert_eq!(decode_url("%ff%fe"), None);
    assert_eq!(decode_url("%c3"), None);
}

#[test]
fn decode_of_the_empty_token_is_the_empty_url() {
    assert_eq!(decode_url("").as_deref(), Some(""));
}

#[test]
fn round_trips_hold_for_text_beyond_ascii() {
    let url = "https://example.com/\u{e9}t\u{e9}/\u{65e5}\u{672c}.png?q=\u{1f600}";
    assert_eq!(decode_url(&encode_url_hex(url)).as_deref(), Some(url));
    assert_eq!(decode_url(&encode_url_base64(url)).as_deref(), Some(url));
}
