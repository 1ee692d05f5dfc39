//! What the server decides for a request before it fetches anything, and how it answers
//! where it does not relay.
use vstd::prelude::*;
use vstd::utf8::*;
use crate::crypto::{digest_matches, verify_digest};
use crate::encoding::{decode_url, decoded_url};
use crate::error::{CamoError, Failure};
use crate::headers::{held, new_headers, Fields, Headers};
use crate::target::{
    is_web_scheme,
    parse_target,
    parse_view,
    parsed_target,
    TargetParts,
    TargetUrl,
};
use crate::server::config::Config;
use crate::text::str_eq;

verus! {

broadcast use vstd::string::group_string_axioms;

/// What every request of the server shares: its settings.
#[derive(Debug, Clone)]
pub struct AppState {
    pub config: Config,
}

impl AppState {
    /// The state of a server under the given settings.
    pub fn from_config(config: &Config) -> (state: Self)
        ensures
            state.config == *config,
    {
        AppState { config: config.clone() }
    }
}

/// An answer to the caller: a status, headers and a body.
#[derive(Debug)]
pub struct Reply {
    pub status: u16,
    pub headers: Headers,
    pub body: Vec<u8>,
}

/// An answer with what its headers hold and its body as a byte sequence.
pub struct Answer {
    pub status: u16,
    pub headers: Fields,
    pub body: Seq<u8>,
}

impl View for Reply {
    type V = Answer;

    open spec fn view(&self) -> Answer {
        Answer { status: self.status, headers: held(&self.headers), body: self.body@ }
    }
}

/// An answer without headers whose body is a text.
pub open spec fn plain_answer(status: u16, text: Seq<char>) -> Answer {
    Answer { status, headers: Map::empty(), body: encode_utf8(text) }
}

/// An answer without headers whose body is a text.
pub fn plain_reply(status: u16, text: &str) -> (reply: Reply)
    ensures
        reply@ == plain_answer(status, text@),
{
    Reply { status, headers: new_headers(), body: text.as_bytes_vec() }
}

/// The answer to a failed request: the status of the failure, and its text as the body.
pub fn error_reply(error: &CamoError) -> (reply: Reply)
    ensures
        reply@ == plain_answer(error@.status(), error@.text()),
{
    let text = error.message();
    plain_reply(error.status_code(), text.as_str())
}

/// The target of a request that carries its URL in the query string: the value of the
/// `url` parameter. A request without one is answered with status 400.
pub fn query_target(url: Option<&str>) -> (target: Result<String, Reply>)
    ensures
        match (target, url) {
            (Ok(target), Some(given)) => target@ == given@,
            (Err(reply), None) => reply@ == plain_answer(400, "Missing url parameter"@),
            _ => false,
        },
{
    match url {
        Some(given) => Ok(String::from_str(given)),
        None => Err(plain_reply(400, "Missing url parameter")),
    }
}

/// The target of a request that carries its URL as a token in the path: the URL that the
/// token stands for. A token that stands for none is a failure of the URL encoding, and
/// is answered with the status of that failure.
pub fn path_target(encoded: &str) -> (target: Result<String, Reply>)
    ensures
        match target {
            Ok(target) => decoded_url(encoded@) == Some(target@),
            Err(reply) => decoded_url(encoded@) is None && reply@ == plain_answer(
                Failure::InvalidUrlEncoding.status(),
                "Invalid URL encoding"@,
            ),
        },
{
    match decode_url(encoded) {
        Some(target) => Ok(target),
        None => Err(plain_reply(CamoError::InvalidUrlEncoding.status_code(), "Invalid URL encoding")),
    }
}

/// The verdict on a request before the fetch: the digest must be the digest of the URL
/// under the key, and the URL must be an absolute `http` or `https` URL.
pub open spec fn request_verdict(
    key: Seq<char>,
    digest: Seq<char>,
    url: Seq<char>,
) -> Result<TargetParts, Failure> {
    judged(digest_matches(key, url, digest), parsed_target(url))
}

/// The verdict on a request, given whether its digest is valid and what parsing its URL
/// gave. A wrong digest is reported before anything is said of the URL.
pub open spec fn judged(
    digest_valid: bool,
    parsed: Result<TargetParts, Seq<char>>,
) -> Result<TargetParts, Failure> {
    if !digest_valid {
        Err(Failure::DigestMismatch)
    } else {
        match parsed {
            Err(_) => Err(Failure::InvalidUrl("Malformed URL"@)),
            Ok(target) => if is_web_scheme(target.scheme) {
                Ok(target)
            } else {
                Err(Failure::InvalidUrl("Only http/https schemes allowed"@))
            },
        }
    }
}

/// The verdict on a digest and the outcome of parsing the URL it came with.
pub fn check_request(
    digest_valid: bool,
    parsed: Result<TargetUrl, String>,
) -> (verdict: Result<TargetUrl, CamoError>)
    ensures
        match verdict {
            Ok(target) => parsed == Ok::<TargetUrl, String>(target) && judged(
                digest_valid,
                parse_view(parsed),
            ) is Ok,
            Err(error) => judged(digest_valid, parse_view(parsed))
                == Err::<TargetParts, Failure>(error@),
        },
{
    if !digest_valid {
        return Err(CamoError::DigestMismatch);
    }
    match parsed {
        Err(_) => Err(CamoError::InvalidUrl(String::from_str("Malformed URL"))),
        Ok(target) => {
            if str_eq(target.scheme.as_str(), "http") || str_eq(target.scheme.as_str(), "https") {
                Ok(target)
            } else {
                Err(CamoError::InvalidUrl(String::from_str("Only http/https schemes allowed")))
            }
        },
    }
}

/// Decides whether a request may be fetched: verifies its digest under the key of the
/// server, then validates its URL.
pub fn proxy_request(
    config: &Config,
    digest: &str,
    url: &str,
) -> (verdict: Result<TargetUrl, CamoError>)
    requires
        config.key is Some,
    ensures
        match verdict {
            Ok(target) => request_verdict(config.key->0@, digest@, url@)
                == Ok::<TargetParts, Failure>(target@),
            Err(error) => request_verdict(config.key->0@, digest@, url@)
                == Err::<TargetParts, Failure>(error@),
        },
{
    let key = match &config.key {
        Some(key) => key.as_str(),
        None => "",
    };
    if !verify_digest(key, url, digest) {
        return check_request(false, Err(String::new()));
    }
    check_request(true, parse_target(url))
}

} // verus!
