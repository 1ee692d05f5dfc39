use camo::crypto::generate_digest;
use http::{HeaderMap, HeaderName, HeaderValue};
use camo::server::http_client::worker_impl::FetchStep;
use camo::proxy::{Action, Transfer};
use camo::stage::Stage;
use camo::worker::{
    check_upstream, fetch_failed, handle_request, handle_response, kept_name_list,
    max_size_setting, parse_path, too_large, Decision, DEFAULT_MAX_SIZE,
};

const URL: &str = "http://example.com/a.png";
const HEX: &str = "687474703a2f2f6578616d706c652e636f6d2f612e706e67";

fn header(name: &str, value: &str) -> (HeaderName, HeaderValue) {
    (HeaderName::from_bytes(name.as_bytes()).unwrap(), HeaderValue::from_str(value).unwrap())
}

fn map(list: Vec<(HeaderName, HeaderValue)>) -> HeaderMap {
    let mut headers = HeaderMap::new();
    for (name, value) in list {
        headers.append(name, value);
    }
    headers
}

fn answer(decision: Decision) -> (u16, String) {
    match decision {
        Decision::Answer(reply) => (reply.status, String::from_utf8(reply.body).unwrap()),
        Decision::Fetch(url) => panic!("fetch {}", url),
    }
}

fn text(status: u16, body: &str) -> (u16, String) {
    (status, body.to_string())
}

#[test]
fn paths_name_a_digest_and_maybe_a_token() {
    assert_eq!(parse_path(""), None);
    assert_eq!(parse_path("/"), None);
    assert_eq!(parse_path("///"), None);
    assert_eq!(parse_path("/abc"), Some(("abc".to_string(), None)));
    assert_eq!(parse_path("abc"), Some(("abc".to_string(), None)));
    assert_eq!(parse_path("//abc"), Some(("abc".to_string(), None)));
    assert_eq!(parse_path("/abc/def"), Some(("abc".to_string(), Some("def".to_string()))));
    assert_eq!(parse_path("/abc/def/ghi"), Some(("abc".to_string(), Some("def/ghi".to_string()))));
    assert_eq!(parse_path("/abc/"), Some(("abc".to_string(), Some("".to_string()))));
    assert_eq!(parse_path("/abc//def"), Some(("abc".to_string(), Some("/def".to_string()))));
    assert_eq!(parse_path("/\u{e9}/\u{65e5}"), Some(("\u{e9}".to_string(), Some("\u{65e5}".to_string()))));
}

#[test]
fn size_budget_of_the_environment() {
    assert_eq!(DEFAULT_MAX_SIZE, 5 * 1024 * 1024);
    assert_eq!(max_size_setting(None), 5 * 1024 * 1024);
    assert_eq!(max_size_setting(Some("1024")), 1024);
    assert_eq!(max_size_setting(Some("+7")), 7);
    assert_eq!(max_size_setting(Some("0")), 0);
    assert_eq!(max_size_setting(Some("")), 5 * 1024 * 1024);
    assert_eq!(max_size_setting(Some("10MB")), 5 * 1024 * 1024);
    assert_eq!(max_size_setting(Some(" 10")), 5 * 1024 * 1024);
    assert_eq!(max_size_setting(Some("-1")), 5 * 1024 * 1024);
    assert_eq!(max_size_setting(Some("18446744073709551615")), u64::MAX);
    assert_eq!(max_size_setting(Some("18446744073709551616")), 5 * 1024 * 1024);
}

#[test]
fn health_and_favicon_need_no_key() {
    assert_eq!(answer(handle_request("/", None, None)), text(200, "OK"));
    assert_eq!(answer(handle_request("/health", None, None)), text(200, "OK"));
    assert_eq!(answer(handle_request("/favicon.ico", None, Some("k"))), text(404, "Not Found"));
}

#[test]
fn requests_are_answered_before_the_fetch_where_they_fail() {
    let digest = generate_digest("s3cr3t", URL);
    let path = format!("/{}/{}", digest, HEX);
    assert_eq!(answer(handle_request(&path, None, None)), text(500, "CAMO_KEY not set"));
    assert_eq!(answer(handle_request("//", None, Some("s3cr3t"))), text(400, "Invalid path"));
    assert_eq!(
        answer(handle_request(&format!("/{}/%ff", digest), None, Some("s3cr3t"))),
        text(400, "Invalid URL encoding")
    );
    assert_eq!(
        answer(handle_request(&format!("/{}", digest), None, Some("s3cr3t"))),
        text(400, "Missing url parameter")
    );
    assert_eq!(
        answer(handle_request(&format!("/{}x/{}", digest, HEX), None, Some("s3cr3t"))),
        text(400, "Digest mismatch")
    );
    assert_eq!(answer(handle_request(&path, None, Some("other"))), text(400, "Digest mismatch"));
    let ftp = "ftp://example.com/a.png";
    assert_eq!(
        answer(handle_request(&format!("/{}", generate_digest("s3cr3t", ftp)), Some(ftp), Some("s3cr3t"))),
        text(400, "Only http/https allowed")
    );
    let upper = "HTTP://example.com/a.png";
    assert_eq!(
        answer(handle_request(&format!("/{}", generate_digest("s3cr3t", upper)), Some(upper), Some("s3cr3t"))),
        text(400, "Only http/https allowed")
    );
}

#[test]
fn signed_requests_are_fetched() {
    let digest = generate_digest("s3cr3t", URL);
    match handle_request(&format!("/{}/{}", digest, HEX), None, Some("s3cr3t")) {
        Decision::Fetch(url) => assert_eq!(url, URL),
        other => panic!("{:?}", other),
    }
    match handle_request(&format!("/{}", digest), Some(URL), Some("s3cr3t")) {
        Decision::Fetch(url) => assert_eq!(url, URL),
        other => panic!("{:?}", other),
    }
    // The token of the path wins over the query parameter.
    match handle_request(&format!("/{}/{}", digest, HEX), Some("http://other.example/"), Some("s3cr3t")) {
        Decision::Fetch(url) => assert_eq!(url, URL),
        other => panic!("{:?}", other),
    }
    let secure = "https://example.com/a.png";
    match handle_request(&format!("/{}", generate_digest("s3cr3t", secure)), Some(secure), Some("s3cr3t")) {
        Decision::Fetch(url) => assert_eq!(url, secure),
        other => panic!("{:?}", other),
    }
}

#[test]
fn fetch_failures_are_answered() {
    let reply = fetch_failed(FetchStep::Request, "relative URL");
    assert_eq!((reply.status, reply.body), (400, b"Invalid URL: relative URL".to_vec()));
    let reply = fetch_failed(FetchStep::Send, "timed out");
    assert_eq!((reply.status, reply.body), (502, b"Fetch error: timed out".to_vec()));
    let reply = fetch_failed(FetchStep::Body, "reset");
    assert_eq!((reply.status, reply.body), (502, b"Body error: reset".to_vec()));
}

#[test]
fn upstream_head_is_checked_before_the_body() {
    let ok = map(vec![header("content-type", "image/png"), header("content-length", "10")]);
    assert!(check_upstream(10, 200, &ok).is_ok());
    assert!(check_upstream(10, 204, &ok).is_ok());
    assert!(check_upstream(10, 299, &ok).is_ok());
    for status in [100, 199, 300, 301, 404, 500] {
        let reply = check_upstream(10, status, &ok).unwrap_err();
        assert_eq!(reply.status, 502);
        assert_eq!(reply.body, format!("Upstream error: {}", status).into_bytes());
    }
    let reply = check_upstream(10, 200, &map(vec![header("content-type", "text/html")])).unwrap_err();
    assert_eq!((reply.status, reply.body), (415, b"Content type not allowed: text/html".to_vec()));
    let reply = check_upstream(10, 200, &HeaderMap::new()).unwrap_err();
    assert_eq!((reply.status, reply.body), (415, b"Content type not allowed: ".to_vec()));
    // The handler relays images only.
    let reply = check_upstream(10, 200, &map(vec![header("content-type", "video/mp4")])).unwrap_err();
    assert_eq!(reply.status, 415);
    let long = map(vec![header("content-type", "image/png"), header("content-length", "11")]);
    let reply = check_upstream(10, 200, &long).unwrap_err();
    assert_eq!((reply.status, reply.body), (413, b"Content too large: 11 bytes".to_vec()));
    let reply = too_large(5242881);
    assert_eq!((reply.status, reply.body), (413, b"Content too large: 5242881 bytes".to_vec()));
}

#[test]
fn response_streams_the_body_with_the_chosen_headers() {
    let upstream = map(vec![
        header("Content-Type", "image/png"),
        header("content-length", "10"),
        header("set-cookie", "a=b"),
        header("etag", "\"e\""),
    ]);
    let (response, mut transfer) = handle_response(10, 200, &upstream).unwrap();
    assert_eq!(response.status, 200);
    let headers: Vec<(&str, &[u8])> =
        response.headers.iter().map(|(name, value)| (name.as_str(), value.as_bytes())).collect();
    assert_eq!(
        headers,
        vec![
            ("content-type", &b"image/png"[..]),
            ("etag", &b"\"e\""[..]),
            ("x-content-type-options", &b"nosniff"[..]),
            (
                "content-security-policy",
                &b"default-src 'none'; img-src data:; style-src 'unsafe-inline'"[..]
            ),
        ]
    );
    assert_eq!(kept_name_list(), vec!["content-type", "cache-control", "etag", "last-modified"]);
    assert_eq!(transfer, Transfer { stage: Stage::Streaming, budget: 10, forwarded: 0 });
    assert!(matches!(transfer.chunk(10), Action::Forward));
    assert!(matches!(transfer.finish(), Action::Finish));

    let (_, mut transfer) = handle_response(10, 200, &upstream).unwrap();
    assert!(matches!(transfer.chunk(7), Action::Forward));
    assert!(matches!(transfer.chunk(4), Action::Abort));
    assert_eq!(transfer.forwarded, 7);
}

#[test]
fn response_is_refused_on_its_head() {
    let long = map(vec![header("content-type", "image/png"), header("Content-Length", "11")]);
    let reply = handle_response(10, 200, &long).unwrap_err();
    assert_eq!((reply.status, reply.body), (413, b"Content too large: 11 bytes".to_vec()));
    let reply = handle_response(10, 404, &long).unwrap_err();
    assert_eq!((reply.status, reply.body), (502, b"Upstream error: 404".to_vec()));
    let reply = handle_response(10, 200, &map(vec![header("content-type", "video/mp4")])).unwrap_err();
    assert_eq!(reply.status, 415);
}
