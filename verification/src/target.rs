//! Target URLs: what may be fetched at all.
//!
//! A target is an absolute URL with the scheme `http` or `https`.
use vstd::prelude::*;
use crate::error::{CamoError, Failure};
use crate::text::str_eq;

verus! {

broadcast use vstd::string::group_string_axioms;

/// What the fetch needs to know of a target URL.
#[derive(Debug, Clone)]
pub struct TargetUrl {
    /// The scheme.
    pub scheme: String,
    /// The host, if the URL has one.
    pub host: Option<String>,
    /// The port: the one written in the URL, else the default port of the scheme.
    pub port: Option<u16>,
}

/// A target URL with its texts as character sequences.
pub struct TargetParts {
    pub scheme: Seq<char>,
    pub host: Option<Seq<char>>,
    pub port: Option<u16>,
}

impl View for TargetUrl {
    type V = TargetParts;

    open spec fn view(&self) -> TargetParts {
        TargetParts {
            scheme: self.scheme@,
            host: match self.host {
                Some(host) => Some(host@),
                None => None,
            },
            port: self.port,
        }
    }
}

/// What parsing a text as an absolute URL gives: the parts of the URL, or the reason why
/// the text is none.
pub uninterp spec fn parsed_target(url: Seq<char>) -> Result<TargetParts, Seq<char>>;

/// `url::Url::parse`, read through `Url::scheme`, `Url::host_str` and
/// `Url::port_or_known_default`; a parse error is given as its message.
#[verifier::external_body]
pub(crate) fn parse_target(url: &str) -> (parsed: Result<TargetUrl, String>)
    ensures
        parse_view(parsed) == parsed_target(url@),
{
    match url::Url::parse(url) {
        Ok(parsed) => Ok(
            TargetUrl {
                scheme: String::from(parsed.scheme()),
                host: parsed.host_str().map(String::from),
                port: parsed.port_or_known_default(),
            },
        ),
        Err(error) => Err(error.to_string()),
    }
}

/// Whether a scheme is one the proxy fetches.
pub open spec fn is_web_scheme(scheme: Seq<char>) -> bool {
    scheme == "http"@ || scheme == "https"@
}

/// The target that a parse result stands for: only an absolute `http` or `https` URL is
/// one.
pub open spec fn checked_target(
    parsed: Result<TargetParts, Seq<char>>,
) -> Result<TargetParts, Failure> {
    match parsed {
        Ok(target) => if is_web_scheme(target.scheme) {
            Ok(target)
        } else {
            Err(Failure::InvalidUrl("Only http/https schemes allowed"@))
        },
        Err(reason) => Err(Failure::InvalidUrl(reason)),
    }
}

/// A parse result with its texts as character sequences.
pub open spec fn parse_view(parsed: Result<TargetUrl, String>) -> Result<TargetParts, Seq<char>> {
    match parsed {
        Ok(target) => Ok(target@),
        Err(reason) => Err(reason@),
    }
}

/// Accepts a parsed URL as a target if its scheme is `http` or `https`.
pub fn check_target(parsed: Result<TargetUrl, String>) -> (checked: Result<TargetUrl, CamoError>)
    ensures
        match checked {
            Ok(target) => parsed == Ok::<TargetUrl, String>(target) && checked_target(
                parse_view(parsed),
            ) is Ok,
            Err(error) => checked_target(parse_view(parsed))
                == Err::<TargetParts, Failure>(error@),
        },
{
    match parsed {
        Ok(target) => {
            if str_eq(target.scheme.as_str(), "http") || str_eq(target.scheme.as_str(), "https") {
                Ok(target)
            } else {
                Err(CamoError::InvalidUrl(String::from_str("Only http/https schemes allowed")))
            }
        },
        Err(reason) => Err(CamoError::InvalidUrl(reason)),
    }
}

/// Reads a text as a target: an absolute URL with the scheme `http` or `https`.
pub fn validate_target(url: &str) -> (checked: Result<TargetUrl, CamoError>)
    ensures
        match checked {
            Ok(target) => checked_target(parsed_target(url@))
                == Ok::<TargetParts, Failure>(target@),
            Err(error) => checked_target(parsed_target(url@))
                == Err::<TargetParts, Failure>(error@),
        },
{
    check_target(parse_target(url))
}

/// The host and port to look up for a target: its host, and its port or 80 where the URL
/// names none. A URL without a host is invalid.
pub fn resolution_target(target: &TargetUrl) -> (lookup: Result<(String, u16), CamoError>)
    ensures
        match lookup {
            Ok((host, port)) => target@.host == Some(host@) && port == match target.port {
                Some(p) => p,
                None => 80u16,
            },
            Err(error) => target@.host is None && error@ == Failure::InvalidUrl("No host"@),
        },
{
    match &target.host {
        Some(host) => {
            let port: u16 = match target.port {
                Some(p) => p,
                None => 80,
            };
            Ok((host.clone(), port))
        },
        None => Err(CamoError::InvalidUrl(String::from_str("No host"))),
    }
}

} // verus!
