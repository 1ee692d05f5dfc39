//! The proxy as a single request handler, for a host runtime that calls a function per
//! request. The handler relays images only.
//!
//! The runtime hands over the path and the `url` query parameter of the request and the
//! signing key; the handler says whether to answer at once or to fetch. The runtime then
//! hands over the status and the headers of what it fetched, and at last the body, chunk
//! by chunk, each of which is counted against the size budget before it is sent on.
use vstd::prelude::*;
use vstd::utf8::*;
use crate::crypto::{digest_matches, verify_digest};
use crate::encoding::{decode_url, decoded_url};
use crate::headers::{
    content_length_of,
    content_type_of,
    copied,
    copy_headers,
    declared_content_type,
    declared_length,
    held,
    lemma_copied_len,
    put_security_headers,
    secured,
    Headers,
    Fields,
};
use crate::proxy::{at_stage, ProxyResponse, Transfer};
use crate::stage::Stage;
use crate::server::content_types::{declared_type, image_types, is_allowed_image_type};
use crate::server::http_client::worker_impl::FetchStep;
use crate::server::router::{plain_answer, plain_reply, Answer, Reply};
use crate::text::{
    chars_of,
    decimal_text,
    find_char,
    has_prefix,
    offset_of,
    parse_u64,
    parsed_u64,
    starts_with,
    str_eq,
    u64_to_string,
};

verus! {

broadcast use vstd::string::group_string_axioms;

/// The size budget where the environment names none: five mebibytes.
pub const DEFAULT_MAX_SIZE: u64 = 5242880;

/// A text without the slashes at its start.
pub open spec fn without_leading_slashes(path: Seq<char>) -> Seq<char>
    decreases path.len(),
{
    if path.len() > 0 && path.first() == '/' {
        without_leading_slashes(path.drop_first())
    } else {
        path
    }
}

/// The digest and the token that a path names. The path is read without its leading
/// slashes; what stands before its first slash is the digest, what follows that slash is
/// the token. A path without such a slash names a digest only, an empty path nothing.
pub open spec fn parsed_path(path: Seq<char>) -> Option<(Seq<char>, Option<Seq<char>>)> {
    let rest = without_leading_slashes(path);
    let cut = offset_of(rest, '/');
    if rest.len() == 0 {
        None
    } else if cut == rest.len() {
        Some((rest, None))
    } else {
        Some((rest.take(cut), Some(rest.skip(cut + 1))))
    }
}

/// Dropping `count` leading slashes leaves what `without_leading_slashes` gives, when
/// no slash follows them.
pub proof fn lemma_without_leading_slashes(path: Seq<char>, count: int)
    requires
        0 <= count <= path.len(),
        forall|i: int| 0 <= i < count ==> #[trigger] path[i] == '/',
        count == path.len() || path[count] != '/',
    ensures
        without_leading_slashes(path) == path.skip(count),
    decreases count,
{
    if count == 0 {
        assert(path.skip(0) =~= path);
    } else {
        let rest = path.drop_first();
        assert forall|i: int| 0 <= i < count - 1 implies #[trigger] rest[i] == '/' by {
            assert(rest[i] == path[i + 1]);
        }
        lemma_without_leading_slashes(rest, count - 1);
        assert(rest.skip(count - 1) =~= path.skip(count));
    }
}

/// Reads the digest and the token that a path names.
pub fn parse_path(path: &str) -> (parts: Option<(String, Option<String>)>)
    ensures
        match parts {
            None => parsed_path(path@) is None,
            Some((digest, None)) => parsed_path(path@) == Some((digest@, None::<Seq<char>>)),
            Some((digest, Some(token))) => parsed_path(path@) == Some((digest@, Some(token@))),
        },
{
    let chars = chars_of(path);
    let mut start: usize = 0;
    while start < chars.len() && chars[start] == '/'
        invariant
            start <= chars.len(),
            forall|i: int| 0 <= i < start ==> #[trigger] chars@[i] == '/',
        decreases chars.len() - start,
    {
        start += 1;
    }
    proof {
        lemma_without_leading_slashes(chars@, start as int);
    }
    let ghost rest = chars@.skip(start as int);
    if start == chars.len() {
        return None;
    }
    let cut = find_char(&chars, start, '/');
    let digest = String::from_str(path.substring_char(start, cut));
    assert(chars@.subrange(start as int, cut as int) =~= rest.take(cut - start));
    if cut == chars.len() {
        assert(rest.take(cut - start) =~= rest);
        Some((digest, None))
    } else {
        let token = String::from_str(path.substring_char(cut + 1, chars.len()));
        assert(chars@.subrange(cut as int + 1, chars@.len() as int) =~= rest.skip(
            cut - start + 1,
        ));
        Some((digest, Some(token)))
    }
}

/// The size budget that the environment names: the number it writes, or five mebibytes
/// where it names none or writes no number.
pub fn max_size_setting(value: Option<&str>) -> (max_size: u64)
    ensures
        max_size == match value {
            Some(text) => match parsed_u64(text@) {
                Some(number) => number,
                None => DEFAULT_MAX_SIZE,
            },
            None => DEFAULT_MAX_SIZE,
        },
{
    match value {
        Some(text) => match parse_u64(text) {
            Some(number) => number,
            None => DEFAULT_MAX_SIZE,
        },
        None => DEFAULT_MAX_SIZE,
    }
}

/// What the handler does with a request before anything is fetched.
#[derive(Debug)]
pub enum Decision {
    /// Answer at once.
    Answer(Reply),
    /// Fetch the target URL with a GET, and hand over what comes back.
    Fetch(String),
}

/// A decision with its texts as character sequences.
pub enum Verdict {
    Answer(Answer),
    Fetch(Seq<char>),
}

impl View for Decision {
    type V = Verdict;

    open spec fn view(&self) -> Verdict {
        match self {
            Decision::Answer(reply) => Verdict::Answer(reply@),
            Decision::Fetch(url) => Verdict::Fetch(url@),
        }
    }
}

/// The target URL of a request: the URL that the token of the path stands for, or the
/// `url` parameter where the path holds no token.
pub open spec fn target_of(
    token: Option<Seq<char>>,
    query_url: Option<Seq<char>>,
) -> Result<Seq<char>, Answer> {
    match token {
        Some(token) => match decoded_url(token) {
            Some(url) => Ok(url),
            None => Err(plain_answer(400, "Invalid URL encoding"@)),
        },
        None => match query_url {
            Some(url) => Ok(url),
            None => Err(plain_answer(400, "Missing url parameter"@)),
        },
    }
}

/// What becomes of a target URL that came with a digest: it is fetched if the digest is
/// its digest under the key and it begins with `http://` or `https://`.
pub open spec fn target_verdict(key: Seq<char>, digest: Seq<char>, url: Seq<char>) -> Verdict {
    if !digest_matches(key, url, digest) {
        Verdict::Answer(plain_answer(400, "Digest mismatch"@))
    } else if !has_prefix(url, "http://"@) && !has_prefix(url, "https://"@) {
        Verdict::Answer(plain_answer(400, "Only http/https allowed"@))
    } else {
        Verdict::Fetch(url)
    }
}

/// What the handler does with a request: the health paths `/` and `/health` are answered
/// with `OK`, `/favicon.ico` with status 404; any other path must name a digest, and
/// the request a target URL that the digest signs.
pub open spec fn request_verdict(
    path: Seq<char>,
    query_url: Option<Seq<char>>,
    key: Option<Seq<char>>,
) -> Verdict {
    if path == "/"@ || path == "/health"@ {
        Verdict::Answer(plain_answer(200, "OK"@))
    } else if path == "/favicon.ico"@ {
        Verdict::Answer(plain_answer(404, "Not Found"@))
    } else {
        match key {
            None => Verdict::Answer(plain_answer(500, "CAMO_KEY not set"@)),
            Some(key) => match parsed_path(path) {
                None => Verdict::Answer(plain_answer(400, "Invalid path"@)),
                Some((digest, token)) => match target_of(token, query_url) {
                    Err(answer) => Verdict::Answer(answer),
                    Ok(url) => target_verdict(key, digest, url),
                },
            },
        }
    }
}

/// Decides what to do with a request, from its path, its `url` query parameter and the
/// signing key of the environment.
pub fn handle_request(
    path: &str,
    query_url: Option<&str>,
    key: Option<&str>,
) -> (decision: Decision)
    ensures
        decision@ == request_verdict(
            path@,
            match query_url {
                Some(url) => Some(url@),
                None => None,
            },
            match key {
                Some(key) => Some(key@),
                None => None,
            },
        ),
{
    if str_eq(path, "/") || str_eq(path, "/health") {
        return Decision::Answer(plain_reply(200, "OK"));
    }
    if str_eq(path, "/favicon.ico") {
        return Decision::Answer(plain_reply(404, "Not Found"));
    }
    let key = match key {
        Some(key) => key,
        None => {
            return Decision::Answer(plain_reply(500, "CAMO_KEY not set"));
        },
    };
    let (digest, token) = match parse_path(path) {
        Some(parts) => parts,
        None => {
            return Decision::Answer(plain_reply(400, "Invalid path"));
        },
    };
    let url = match token {
        Some(token) => match decode_url(token.as_str()) {
            Some(url) => url,
            None => {
                return Decision::Answer(plain_reply(400, "Invalid URL encoding"));
            },
        },
        None => match query_url {
            Some(url) => String::from_str(url),
            None => {
                return Decision::Answer(plain_reply(400, "Missing url parameter"));
            },
        },
    };
    if !verify_digest(key, url.as_str(), digest.as_str()) {
        return Decision::Answer(plain_reply(400, "Digest mismatch"));
    }
    if !starts_with(url.as_str(), "http://") && !starts_with(url.as_str(), "https://") {
        return Decision::Answer(plain_reply(400, "Only http/https allowed"));
    }
    Decision::Fetch(url)
}

/// The answer where the fetch itself fails: status 400 where no request can be made
/// from the URL, status 502 where it cannot be sent or its body cannot be read.
pub fn fetch_failed(step: FetchStep, reason: &str) -> (reply: Reply)
    ensures
        reply@ == match step {
            FetchStep::Request => plain_answer(400, "Invalid URL: "@ + reason@),
            FetchStep::Send => plain_answer(502, "Fetch error: "@ + reason@),
            FetchStep::Body => plain_answer(502, "Body error: "@ + reason@),
        },
{
    match step {
        FetchStep::Request => plain_reply(
            400,
            String::from_str("Invalid URL: ").concat(reason).as_str(),
        ),
        FetchStep::Send => plain_reply(
            502,
            String::from_str("Fetch error: ").concat(reason).as_str(),
        ),
        FetchStep::Body => plain_reply(
            502,
            String::from_str("Body error: ").concat(reason).as_str(),
        ),
    }
}

/// The verdict on the head of what was fetched, before its body is read: the status
/// must be a success, the declared media type an image type, and a declared length
/// within the size budget.
pub open spec fn upstream_verdict(
    max_size: u64,
    status: u16,
    headers: Fields,
) -> Result<(), Answer> {
    if !(200 <= status < 300) {
        Err(plain_answer(502, "Upstream error: "@ + decimal_text(status as nat)))
    } else if !image_types().contains(declared_type(declared_content_type(headers))) {
        Err(plain_answer(415, "Content type not allowed: "@ + declared_content_type(headers)))
    } else if declared_length(headers) matches Some(length) && length > max_size {
        Err(
            plain_answer(
                413,
                "Content too large: "@ + decimal_text(declared_length(headers)->0 as nat)
                    + " bytes"@,
            ),
        )
    } else {
        Ok(())
    }
}

/// The answer for a body that is beyond the size budget.
pub fn too_large(size: u64) -> (reply: Reply)
    ensures
        reply@ == plain_answer(413, "Content too large: "@ + decimal_text(size as nat) + " bytes"@),
{
    let text = String::from_str("Content too large: ").concat(
        u64_to_string(size).as_str(),
    ).concat(" bytes");
    plain_reply(413, text.as_str())
}

/// Checks the head of what was fetched, before its body is read.
pub fn check_upstream(
    max_size: u64,
    status: u16,
    headers: &Headers,
) -> (verdict: Result<(), Reply>)
    ensures
        match verdict {
            Ok(_) => upstream_verdict(max_size, status, held(headers)) is Ok,
            Err(reply) => upstream_verdict(max_size, status, held(headers))
                == Err::<(), Answer>(reply@),
        },
{
    if status < 200 || status >= 300 {
        let text = String::from_str("Upstream error: ").concat(
            u64_to_string(status as u64).as_str(),
        );
        return Err(plain_reply(502, text.as_str()));
    }
    let content_type = content_type_of(headers);
    if !is_allowed_image_type(content_type.as_str()) {
        let text = String::from_str("Content type not allowed: ").concat(content_type.as_str());
        return Err(plain_reply(415, text.as_str()));
    }
    if let Some(length) = content_length_of(headers) {
        if length > max_size {
            return Err(too_large(length));
        }
    }
    Ok(())
}

/// The names of the upstream headers that the handler hands on, in the order they are
/// copied.
pub open spec fn kept_names() -> Seq<Seq<char>> {
    seq!["content-type"@, "cache-control"@, "etag"@, "last-modified"@]
}

/// The headers of the handler's answer: the upstream headers of the kept names, then the
/// security headers.
pub open spec fn kept_headers(headers: Fields) -> Fields {
    secured(copied(headers, kept_names()))
}

/// The names of the upstream headers that the handler hands on, in the order they are
/// copied.
pub fn kept_name_list() -> (names: Vec<&'static str>)
    ensures
        names.deep_view() == kept_names(),
{
    let names = vec!["content-type", "cache-control", "etag", "last-modified"];
    assert(names.deep_view() =~= kept_names());
    names
}

/// Takes the head of what was fetched into account, before any of its body is read. A
/// head that passes the check is answered with status 200, the kept headers and the
/// security headers, and the body is streamed under the size budget: each chunk is
/// reported to the transfer that comes back, which counts it and says whether to send it
/// on.
pub fn handle_response(
    max_size: u64,
    status: u16,
    headers: &Headers,
) -> (outcome: Result<(ProxyResponse, Transfer), Reply>)
    ensures
        match outcome {
            Ok((response, transfer)) => upstream_verdict(max_size, status, held(headers)) is Ok
                && response.status == 200 && held(&response.headers) == kept_headers(
                held(headers),
            ) && transfer == at_stage(Stage::Streaming, max_size),
            Err(reply) => upstream_verdict(max_size, status, held(headers))
                == Err::<(), Answer>(reply@),
        },
{
    match check_upstream(max_size, status, headers) {
        Ok(_) => {
            let names = kept_name_list();
            assert(names.len() == names.deep_view().len());
            let mut kept = copy_headers(headers, &names);
            proof {
                lemma_copied_len(held(headers), kept_names());
            }
            put_security_headers(&mut kept);
            Ok(
                (
                    ProxyResponse { status: 200, headers: kept },
                    Transfer { stage: Stage::Streaming, budget: max_size, forwarded: 0 },
                ),
            )
        },
        Err(reply) => Err(reply),
    }
}

} // verus!
