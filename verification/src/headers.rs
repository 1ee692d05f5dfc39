//! The headers of upstream responses: what they declare, and which of them are relayed.
//!
//! Headers are held in the header map of the `http` crate, which keeps names in lower
//! case and finds them whatever their case. The library reads and writes the map through
//! a few calls, for a fixed set of names, and says of each call what it does to what the
//! map holds.
use vstd::prelude::*;
use vstd::utf8::*;
use crate::error::{CamoError, Failure};
use crate::server::content_types::{allowed_types, declared_type, is_allowed_content_type};
use crate::text::{all_ascii, ascii_text, parse_u64, parsed_u64, text_of_ascii};

verus! {

broadcast use vstd::string::group_string_axioms;

/// `http::HeaderMap`, which the library holds and hands on without looking into it.
#[verifier::external_type_specification]
#[verifier::external_body]
#[verifier::reject_recursive_types(T)]
pub struct ExHeaderMap<T>(http::HeaderMap<T>);

/// `http::HeaderValue`, the values that a map of headers holds.
#[verifier::external_type_specification]
#[verifier::external_body]
pub struct ExHeaderValue(http::HeaderValue);

/// A map of headers.
pub type Headers = http::HeaderMap<http::HeaderValue>;

/// What a map of headers holds, as far as the library reads it: for each name, in lower
/// case, the bytes of the first value under that name.
pub type Fields = Map<Seq<char>, Seq<u8>>;

/// What a map of headers holds.
pub uninterp spec fn fields(headers: http::HeaderMap<http::HeaderValue>) -> Map<Seq<char>, Seq<u8>>;

/// What a map of headers holds.
pub open spec fn held(headers: &Headers) -> Fields {
    fields(*headers)
}

/// Whether a name is one of the header names that the library reads or writes.
pub open spec fn is_known_name(name: Seq<char>) -> bool {
    ||| name == "content-type"@
    ||| name == "content-length"@
    ||| name == "cache-control"@
    ||| name == "etag"@
    ||| name == "last-modified"@
    ||| name == "x-content-type-options"@
    ||| name == "content-security-policy"@
}

/// Whether a byte may stand in a header value: any byte but the control characters, of
/// which only the tab may.
pub open spec fn is_value_byte(byte: u8) -> bool {
    (byte >= 32 && byte != 127) || byte == 9
}

/// Whether bytes can be a header value.
pub open spec fn is_header_value(value: Seq<u8>) -> bool {
    forall|i: int| 0 <= i < value.len() ==> is_value_byte(#[trigger] value[i])
}

/// No headers.
pub open spec fn no_fields() -> Fields {
    Map::empty()
}

/// `http::HeaderMap::new`: a map that holds nothing.
#[verifier::external_body]
pub(crate) fn new_headers() -> (made: Headers)
    ensures
        fields(made) == no_fields(),
{
    http::HeaderMap::new()
}

/// `http::HeaderMap::get` with `http::HeaderValue::as_bytes`: the bytes of the first
/// value under a name, if the map has the name.
#[verifier::external_body]
pub(crate) fn header_value(headers: &Headers, name: &'static str) -> (value: Option<Vec<u8>>)
    requires
        is_known_name(name@),
    ensures
        match value {
            Some(bytes) => fields(*headers).contains_key(name@) && fields(*headers)[name@]
                == bytes@,
            None => !fields(*headers).contains_key(name@),
        },
{
    match headers.get(name) {
        Some(value) => Some(value.as_bytes().to_vec()),
        None => None,
    }
}

/// `http::HeaderMap::try_insert` with `http::HeaderName::from_static` and
/// `http::HeaderValue::from_bytes`: puts a value under a name, in place of any values
/// that stood there. Bytes that cannot be a header value are not put, and a map of fewer
/// than sixteen names has room for one more.
#[verifier::external_body]
pub(crate) fn put_header(headers: &mut Headers, name: &'static str, value: &[u8]) -> (put: bool)
    requires
        is_known_name(name@),
    ensures
        put ==> is_header_value(value@) && fields(*final(headers)) == fields(
            *old(headers),
        ).insert(name@, value@),
        !put ==> fields(*final(headers)) == fields(*old(headers)),
        is_header_value(value@) && fields(*old(headers)).dom().finite() && fields(
            *old(headers),
        ).dom().len() < 16 ==> put,
{
    match http::HeaderValue::from_bytes(value) {
        Ok(value) => match headers.try_insert(http::HeaderName::from_static(name), value) {
            Ok(_) => true,
            Err(_) => false,
        },
        Err(_) => false,
    }
}

/// The value of the header of a name, if there is one.
pub open spec fn first_value(headers: Fields, name: Seq<char>) -> Option<Seq<u8>> {
    if headers.contains_key(name) {
        Some(headers[name])
    } else {
        None
    }
}

/// Whether a byte is a visible ASCII character, a space or a tab.
pub open spec fn is_visible(byte: u8) -> bool {
    (32 <= byte < 127) || byte == 9
}

/// The text of a header value: the characters that its bytes spell, where every byte is
/// visible ASCII, a space or a tab. Any other value is no text.
pub open spec fn value_text(value: Seq<u8>) -> Option<Seq<char>> {
    if forall|i: int| 0 <= i < value.len() ==> is_visible(#[trigger] value[i]) {
        Some(ascii_text(value))
    } else {
        None
    }
}

/// The text of a header value, if it is one.
pub fn header_text(value: Vec<u8>) -> (text: Option<String>)
    ensures
        match text {
            Some(t) => value_text(value@) == Some(t@),
            None => value_text(value@) is None,
        },
{
    let mut i: usize = 0;
    while i < value.len()
        invariant
            i <= value.len(),
            forall|j: int| 0 <= j < i ==> is_visible(#[trigger] value@[j]),
        decreases value.len() - i,
    {
        let byte: u8 = value[i];
        if !((32 <= byte && byte < 127) || byte == 9) {
            assert(!is_visible(value@[i as int]));
            return None;
        }
        i += 1;
    }
    assert(all_ascii(value@)) by {
        assert forall|j: int| 0 <= j < value@.len() implies #[trigger] value@[j] < 128 by {
            assert(is_visible(value@[j]));
        }
    }
    Some(text_of_ascii(value))
}

/// The text of the header of a name, if there is one and its value is a text.
pub open spec fn first_text(headers: Fields, name: Seq<char>) -> Option<Seq<char>> {
    match first_value(headers, name) {
        Some(value) => value_text(value),
        None => None,
    }
}

/// The text of the header of a name, if there is one and its value is a text.
pub fn header_value_text(headers: &Headers, name: &'static str) -> (text: Option<String>)
    requires
        is_known_name(name@),
    ensures
        match text {
            Some(t) => first_text(held(headers), name@) == Some(t@),
            None => first_text(held(headers), name@) is None,
        },
{
    match header_value(headers, name) {
        Some(value) => header_text(value),
        None => None,
    }
}

/// The content type that a response declares: the text of its `content-type` header, or
/// the empty text where it has none or the value is no text.
pub open spec fn declared_content_type(headers: Fields) -> Seq<char> {
    match first_text(headers, "content-type"@) {
        Some(text) => text,
        None => Seq::empty(),
    }
}

/// The body length that a response declares: the number that its `content-length` header
/// writes, if it has the header and the header writes one.
pub open spec fn declared_length(headers: Fields) -> Option<u64> {
    match first_text(headers, "content-length"@) {
        Some(text) => parsed_u64(text),
        None => None,
    }
}

/// The verdict on the head of an upstream response, before any of its body is read: the
/// declared media type must be in the policy, and a declared length must not exceed the
/// size budget.
pub open spec fn head_verdict(
    allow_video: bool,
    allow_audio: bool,
    max_size: u64,
    headers: Fields,
) -> Result<(), Failure> {
    if !allowed_types(allow_video, allow_audio).contains(
        declared_type(declared_content_type(headers)),
    ) {
        Err(Failure::ContentTypeNotAllowed(declared_content_type(headers)))
    } else if declared_length(headers) matches Some(length) && length > max_size {
        Err(Failure::ContentTooLarge(declared_length(headers)->0))
    } else {
        Ok(())
    }
}

/// The content type that a response declares.
pub fn content_type_of(headers: &Headers) -> (content_type: String)
    ensures
        content_type@ == declared_content_type(held(headers)),
{
    match header_value_text(headers, "content-type") {
        Some(text) => text,
        None => String::new(),
    }
}

/// The body length that a response declares.
pub fn content_length_of(headers: &Headers) -> (length: Option<u64>)
    ensures
        length == declared_length(held(headers)),
{
    match header_value_text(headers, "content-length") {
        Some(text) => parse_u64(text.as_str()),
        None => None,
    }
}

/// Checks the head of an upstream response against the content policy and the size
/// budget.
pub fn check_head(
    allow_video: bool,
    allow_audio: bool,
    max_size: u64,
    headers: &Headers,
) -> (verdict: Result<(), CamoError>)
    ensures
        match verdict {
            Ok(_) => head_verdict(allow_video, allow_audio, max_size, held(headers)) is Ok,
            Err(error) => head_verdict(allow_video, allow_audio, max_size, held(headers))
                == Err::<(), Failure>(error@),
        },
{
    let content_type = content_type_of(headers);
    if !is_allowed_content_type(content_type.as_str(), allow_video, allow_audio) {
        return Err(CamoError::ContentTypeNotAllowed(content_type));
    }
    if let Some(length) = content_length_of(headers) {
        if length > max_size {
            return Err(CamoError::ContentTooLarge(length));
        }
    }
    Ok(())
}

/// The names of the upstream headers that are relayed. Every other upstream header is
/// dropped.
pub open spec fn relayed_names() -> Seq<Seq<char>> {
    seq![
        "content-type"@,
        "content-length"@,
        "cache-control"@,
        "etag"@,
        "last-modified"@,
    ]
}

/// The value of the header that forbids guessing the media type.
pub open spec fn nosniff() -> Seq<u8> {
    encode_utf8("nosniff"@)
}

/// The value of the content security policy: inline `data:` images and inline styles,
/// and nothing else.
pub open spec fn image_policy() -> Seq<u8> {
    encode_utf8("default-src 'none'; img-src data:; style-src 'unsafe-inline'"@)
}

/// Headers with the two security headers put in.
pub open spec fn secured(headers: Fields) -> Fields {
    headers.insert("x-content-type-options"@, nosniff()).insert(
        "content-security-policy"@,
        image_policy(),
    )
}

/// For each of the names, the header of that name, where there is one.
pub open spec fn copied(headers: Fields, names: Seq<Seq<char>>) -> Fields
    decreases names.len(),
{
    if names.len() == 0 {
        Map::empty()
    } else {
        match first_value(headers, names.last()) {
            Some(value) => if is_header_value(value) {
                copied(headers, names.drop_last()).insert(names.last(), value)
            } else {
                copied(headers, names.drop_last())
            },
            None => copied(headers, names.drop_last()),
        }
    }
}

/// The headers of a relayed response: the upstream headers of the relayed names, and the
/// security headers.
pub open spec fn relayed_headers(headers: Fields) -> Fields {
    secured(copied(headers, relayed_names()))
}

/// The names of the upstream headers that are relayed.
pub fn relayed_name_list() -> (names: Vec<&'static str>)
    ensures
        names.deep_view() == relayed_names(),
{
    let names = vec!["content-type", "content-length", "cache-control", "etag", "last-modified"];
    assert(names.deep_view() =~= relayed_names());
    names
}

/// Copied headers are no more than the names they were copied for.
pub proof fn lemma_copied_len(headers: Fields, names: Seq<Seq<char>>)
    ensures
        copied(headers, names).dom().finite(),
        copied(headers, names).dom().len() <= names.len(),
    decreases names.len(),
{
    if names.len() > 0 {
        lemma_copied_len(headers, names.drop_last());
    }
}

/// Copies, for each of the names, the header of that name into a new map.
pub(crate) fn copy_headers(headers: &Headers, names: &Vec<&'static str>) -> (kept: Headers)
    requires
        names.len() < 16,
        forall|i: int| 0 <= i < names.len() ==> is_known_name(#[trigger] names.deep_view()[i]),
    ensures
        held(&kept) == copied(held(headers), names.deep_view()),
{
    let mut kept = new_headers();
    let mut i: usize = 0;
    assert(names.deep_view().take(0) =~= Seq::empty());
    while i < names.len()
        invariant
            i <= names.len() < 16,
            forall|j: int| 0 <= j < names.len() ==> is_known_name(#[trigger] names.deep_view()[j]),
            held(&kept) == copied(held(headers), names.deep_view().take(i as int)),
        decreases names.len() - i,
    {
        let ghost prefix = names.deep_view().take(i as int + 1);
        proof {
            assert(prefix.drop_last() =~= names.deep_view().take(i as int));
            assert(prefix.last() == names@[i as int]@);
            assert(is_known_name(names.deep_view()[i as int]));
            lemma_copied_len(held(headers), names.deep_view().take(i as int));
        }
        if let Some(value) = header_value(headers, names[i]) {
            let put = put_header(&mut kept, names[i], value.as_slice());
        }
        i += 1;
    }
    assert(names.deep_view().take(i as int) =~= names.deep_view());
    kept
}

/// A text of visible ASCII characters can be a header value.
pub proof fn lemma_visible_text(text: Seq<char>)
    requires
        forall|i: int| 0 <= i < text.len() ==> ' ' <= #[trigger] text[i] <= '~',
    ensures
        is_header_value(encode_utf8(text)),
{
    assert(is_ascii_chars(text));
    is_ascii_chars_encode_utf8(text);
    assert forall|i: int| 0 <= i < encode_utf8(text).len() implies is_value_byte(
        #[trigger] encode_utf8(text)[i],
    ) by {
        assert(text[i] as u8 == encode_utf8(text)[i]);
    }
}

/// Puts the two security headers into a map.
pub(crate) fn put_security_headers(headers: &mut Headers)
    requires
        fields(*old(headers)).dom().finite(),
        fields(*old(headers)).dom().len() < 14,
    ensures
        held(final(headers)) == secured(held(old(headers))),
{
    proof {
        reveal_strlit("nosniff");
        reveal_strlit("default-src 'none'; img-src data:; style-src 'unsafe-inline'");
        lemma_visible_text("nosniff"@);
        lemma_visible_text("default-src 'none'; img-src data:; style-src 'unsafe-inline'"@);
    }
    let first = put_header(headers, "x-content-type-options", "nosniff".as_bytes());
    let second = put_header(
        headers,
        "content-security-policy",
        "default-src 'none'; img-src data:; style-src 'unsafe-inline'".as_bytes(),
    );
}

/// The headers of a relayed response.
pub fn relay_headers(upstream: &Headers) -> (headers: Headers)
    ensures
        held(&headers) == relayed_headers(held(upstream)),
{
    let names = relayed_name_list();
    let mut headers = copy_headers(upstream, &names);
    proof {
        lemma_copied_len(held(upstream), relayed_names());
    }
    put_security_headers(&mut headers);
    headers
}

/// A copied header bears one of the names it was copied for, and the value that stood
/// under that name.
pub proof fn lemma_copied(headers: Fields, names: Seq<Seq<char>>, name: Seq<char>)
    requires
        copied(headers, names).contains_key(name),
    ensures
        names.contains(name),
        first_value(headers, name) == Some(copied(headers, names)[name]),
    decreases names.len(),
{
    if names.len() > 0 {
        let shorter = names.drop_last();
        if copied(headers, shorter).contains_key(name) && !(name == names.last()
            && first_value(headers, name) is Some && is_header_value(headers[name])) {
            lemma_copied(headers, shorter, name);
            let at = choose|k: int| 0 <= k < shorter.len() && shorter[k] == name;
            assert(names[at] == name);
        } else {
            assert(names[names.len() - 1] == names.last());
        }
    }
}

/// Of the upstream headers, only those of the relayed names reach the caller: every
/// header of a relayed response is a security header, or bears a relayed name and the
/// value that the upstream gave under that name.
pub proof fn law_only_listed_headers_relayed(headers: Fields, name: Seq<char>)
    requires
        relayed_headers(headers).contains_key(name),
    ensures
        name == "x-content-type-options"@ || name == "content-security-policy"@ || (
        relayed_names().contains(name) && first_value(headers, name) == Some(
            relayed_headers(headers)[name],
        )),
{
    if name != "x-content-type-options"@ && name != "content-security-policy"@ {
        lemma_copied(headers, relayed_names(), name);
    }
}

/// Every relayed response bears the two security headers, whatever the upstream sent
/// under their names.
pub proof fn law_security_headers_present(headers: Fields)
    ensures
        first_value(relayed_headers(headers), "x-content-type-options"@) == Some(nosniff()),
        first_value(relayed_headers(headers), "content-security-policy"@) == Some(
            image_policy(),
        ),
{
    reveal_strlit("x-content-type-options");
    reveal_strlit("content-security-policy");
    assert("x-content-type-options"@.len() != "content-security-policy"@.len());
}

} // verus!
