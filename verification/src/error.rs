//! The ways a proxy request can fail, and how each failure is shown to the caller.
use vstd::prelude::*;
use crate::text::{decimal_text, u64_to_string};

verus! {

broadcast use vstd::string::group_string_axioms;

/// A failure of one proxy request. It is reported to the caller of that request and
/// touches no other request.
#[derive(Debug, Clone)]
pub enum CamoError {
    /// The request carried no usable digest.
    InvalidDigest,
    /// The token could not be decoded into a URL.
    InvalidUrlEncoding,
    /// The target is no absolute `http` or `https` URL; the text says why.
    InvalidUrl(String),
    /// The digest is not the digest of the target URL under the signing key.
    DigestMismatch,
    /// The upstream declared a media type outside the policy; the text is that type.
    ContentTypeNotAllowed(String),
    /// The upstream declared or sent more bytes than the size budget; the number is the
    /// size that was declared or reached.
    ContentTooLarge(u64),
    /// The upstream redirected more often than allowed.
    TooManyRedirects,
    /// The request took longer than the socket timeout.
    Timeout,
    /// The upstream request failed; the text says how.
    Upstream(String),
    /// The target resolves to private or reserved address space.
    PrivateNetworkNotAllowed,
}

/// The kind of a failure, without its details.
#[derive(Debug, Clone, Copy, PartialEq, Eq, Structural)]
pub enum Kind {
    InvalidDigest,
    InvalidUrlEncoding,
    InvalidUrl,
    DigestMismatch,
    ContentTypeNotAllowed,
    ContentTooLarge,
    TooManyRedirects,
    Timeout,
    Upstream,
    PrivateNetworkNotAllowed,
}

/// A failure with its texts as character sequences.
pub enum Failure {
    InvalidDigest,
    InvalidUrlEncoding,
    InvalidUrl(Seq<char>),
    DigestMismatch,
    ContentTypeNotAllowed(Seq<char>),
    ContentTooLarge(u64),
    TooManyRedirects,
    Timeout,
    Upstream(Seq<char>),
    PrivateNetworkNotAllowed,
}

impl View for CamoError {
    type V = Failure;

    open spec fn view(&self) -> Failure {
        match self {
            CamoError::InvalidDigest => Failure::InvalidDigest,
            CamoError::InvalidUrlEncoding => Failure::InvalidUrlEncoding,
            CamoError::InvalidUrl(reason) => Failure::InvalidUrl(reason@),
            CamoError::DigestMismatch => Failure::DigestMismatch,
            CamoError::ContentTypeNotAllowed(media_type) => Failure::ContentTypeNotAllowed(
                media_type@,
            ),
            CamoError::ContentTooLarge(size) => Failure::ContentTooLarge(*size),
            CamoError::TooManyRedirects => Failure::TooManyRedirects,
            CamoError::Timeout => Failure::Timeout,
            CamoError::Upstream(reason) => Failure::Upstream(reason@),
            CamoError::PrivateNetworkNotAllowed => Failure::PrivateNetworkNotAllowed,
        }
    }
}

impl Failure {
    /// The kind of the failure.
    pub open spec fn kind(self) -> Kind {
        match self {
            Failure::InvalidDigest => Kind::InvalidDigest,
            Failure::InvalidUrlEncoding => Kind::InvalidUrlEncoding,
            Failure::InvalidUrl(_) => Kind::InvalidUrl,
            Failure::DigestMismatch => Kind::DigestMismatch,
            Failure::ContentTypeNotAllowed(_) => Kind::ContentTypeNotAllowed,
            Failure::ContentTooLarge(_) => Kind::ContentTooLarge,
            Failure::TooManyRedirects => Kind::TooManyRedirects,
            Failure::Timeout => Kind::Timeout,
            Failure::Upstream(_) => Kind::Upstream,
            Failure::PrivateNetworkNotAllowed => Kind::PrivateNetworkNotAllowed,
        }
    }

    /// The HTTP status that shows the failure: 400 for a bad digest, token or URL, 415
    /// for a refused media type, 413 for an oversized body, 502 for a failed or
    /// over-redirected upstream, 504 for a timeout, 403 for a private target.
    pub open spec fn status(self) -> u16 {
        match self {
            Failure::InvalidDigest => 400,
            Failure::InvalidUrlEncoding => 400,
            Failure::InvalidUrl(_) => 400,
            Failure::DigestMismatch => 400,
            Failure::ContentTypeNotAllowed(_) => 415,
            Failure::ContentTooLarge(_) => 413,
            Failure::TooManyRedirects => 502,
            Failure::Timeout => 504,
            Failure::Upstream(_) => 502,
            Failure::PrivateNetworkNotAllowed => 403,
        }
    }

    /// The terse text that is sent as the body of the failure's response.
    pub open spec fn text(self) -> Seq<char> {
        match self {
            Failure::InvalidDigest => "invalid digest"@,
            Failure::InvalidUrlEncoding => "invalid url encoding"@,
            Failure::InvalidUrl(reason) => "invalid url: "@ + reason,
            Failure::DigestMismatch => "digest mismatch"@,
            Failure::ContentTypeNotAllowed(media_type) => "content type not allowed: "@
                + media_type,
            Failure::ContentTooLarge(size) => "content too large: "@ + decimal_text(size as nat)
                + " bytes"@,
            Failure::TooManyRedirects => "too many redirects"@,
            Failure::Timeout => "request timeout"@,
            Failure::Upstream(reason) => "upstream error: "@ + reason,
            Failure::PrivateNetworkNotAllowed => "private network not allowed"@,
        }
    }
}

impl CamoError {
    /// The kind of the failure.
    pub fn kind(&self) -> (kind: Kind)
        ensures
            kind == self@.kind(),
    {
        match self {
            CamoError::InvalidDigest => Kind::InvalidDigest,
            CamoError::InvalidUrlEncoding => Kind::InvalidUrlEncoding,
            CamoError::InvalidUrl(_) => Kind::InvalidUrl,
            CamoError::DigestMismatch => Kind::DigestMismatch,
            CamoError::ContentTypeNotAllowed(_) => Kind::ContentTypeNotAllowed,
            CamoError::ContentTooLarge(_) => Kind::ContentTooLarge,
            CamoError::TooManyRedirects => Kind::TooManyRedirects,
            CamoError::Timeout => Kind::Timeout,
            CamoError::Upstream(_) => Kind::Upstream,
            CamoError::PrivateNetworkNotAllowed => Kind::PrivateNetworkNotAllowed,
        }
    }

    /// The HTTP status that shows the failure.
    pub fn status_code(&self) -> (status: u16)
        ensures
            status == self@.status(),
    {
        match self {
            CamoError::InvalidDigest
            | CamoError::InvalidUrlEncoding
            | CamoError::InvalidUrl(_)
            | CamoError::DigestMismatch => 400,
            CamoError::ContentTypeNotAllowed(_) => 415,
            CamoError::ContentTooLarge(_) => 413,
            CamoError::TooManyRedirects => 502,
            CamoError::Timeout => 504,
            CamoError::Upstream(_) => 502,
            CamoError::PrivateNetworkNotAllowed => 403,
        }
    }

    /// The text that is sent as the body of the failure's response.
    pub fn message(&self) -> (text: String)
        ensures
            text@ == self@.text(),
    {
        match self {
            CamoError::InvalidDigest => String::from_str("invalid digest"),
            CamoError::InvalidUrlEncoding => String::from_str("invalid url encoding"),
            CamoError::InvalidUrl(reason) => String::from_str("invalid url: ").concat(
                reason.as_str(),
            ),
            CamoError::DigestMismatch => String::from_str("digest mismatch"),
            CamoError::ContentTypeNotAllowed(media_type) => String::from_str(
                "content type not allowed: ",
            ).concat(media_type.as_str()),
            CamoError::ContentTooLarge(size) => String::from_str("content too large: ").concat(
                u64_to_string(*size).as_str(),
            ).concat(" bytes"),
            CamoError::TooManyRedirects => String::from_str("too many redirects"),
            CamoError::Timeout => String::from_str("request timeout"),
            CamoError::Upstream(reason) => String::from_str("upstream error: ").concat(
                reason.as_str(),
            ),
            CamoError::PrivateNetworkNotAllowed => String::from_str(
                "private network not allowed",
            ),
        }
    }
}

} // verus!
