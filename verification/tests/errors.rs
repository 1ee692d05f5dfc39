use camo::error::{CamoError, Kind};

fn all() -> Vec<(CamoError, u16, &'static str, Kind)> {
    vec![
        (CamoError::InvalidDigest, 400, "invalid digest", Kind::InvalidDigest),
        (CamoError::InvalidUrlEncoding, 400, "invalid url encoding", Kind::InvalidUrlEncoding),
        (CamoError::InvalidUrl("No host".to_string()), 400, "invalid url: No host", Kind::InvalidUrl),
        (CamoError::DigestMismatch, 400, "digest mismatch", Kind::DigestMismatch),
        (
            CamoError::ContentTypeNotAllowed("text/html".to_string()),
            415,
            "content type not allowed: text/html",
            Kind::ContentTypeNotAllowed,
        ),
        (CamoError::ContentTooLarge(5242881), 413, "content too large: 5242881 bytes", Kind::ContentTooLarge),
        (CamoError::TooManyRedirects, 502, "too many redirects", Kind::TooManyRedirects),
        (CamoError::Timeout, 504, "request timeout", Kind::Timeout),
        (CamoError::Upstream("reset".to_string()), 502, "upstream error: reset", Kind::Upstream),
        (CamoError::PrivateNetworkNotAllowed, 403, "private network not allowed", Kind::PrivateNetworkNotAllowed),
    ]
}

#[test]
fn each_failure_has_its_status() {
    for (error, status, _, _) in all() {
        assert_eq!(error.status_code(), status);
    }
}

#[test]
fn each_failure_has_its_text() {
    for (error, _, text, _) in all() {
        assert_eq!(error.message(), text);
    }
}

#[test]
fn each_failure_has_its_kind() {
    for (error, _, _, kind) in all() {
        assert_eq!(error.kind(), kind);
    }
}

#[test]
fn sizes_are_written_in_decimal() {
    assert_eq!(CamoError::ContentTooLarge(0).message(), "content too large: 0 bytes");
    assert_eq!(CamoError::ContentTooLarge(10).message(), "content too large: 10 bytes");
    assert_eq!(
        CamoError::ContentTooLarge(u64::MAX).message(),
        "content too large: 18446744073709551615 bytes"
    );
}
