//! Signed URLs for an SSL media proxy, and the rules the proxy applies to each request.
//!
//! A page that embeds media from an arbitrary origin hands the browser a proxy URL of the
//! form `<base>/<digest>/<encoded_url>` instead of the address of the media. The digest binds
//! the target URL to a secret key, so that the proxy only fetches what its operator signed.
use vstd::prelude::*;
use vstd::utf8::*;

pub mod text;
pub mod encoding;
pub mod crypto;
pub mod error;
pub mod config;
pub mod stage;
pub mod network;
pub mod target;
pub mod headers;
pub mod proxy;
pub mod server;
pub mod worker;

pub use crate::crypto::{constant_time_eq, generate_digest, verify_digest};
pub use crate::encoding::{decode_url, encode_url_base64, encode_url_hex};
use crate::crypto::{digest_matches, digest_of};
use crate::encoding::{base64_text, hex_text};
use crate::text::chars_of;

verus! {

broadcast use vstd::string::group_string_axioms;

/// How the target URL is written into a proxy URL.
#[derive(Debug, Clone, Copy, PartialEq, Eq, Structural)]
pub enum Encoding {
    /// Hexadecimal, the form every proxy of this kind reads.
    Hex,
    /// URL-safe base64 without padding.
    Base64,
}

impl Default for Encoding {
    fn default() -> (encoding: Self)
        ensures
            encoding == Encoding::Hex,
    {
        Encoding::Hex
    }
}

/// The token that stands for a URL under an encoding.
pub open spec fn encoded_form(encoding: Encoding, url: Seq<char>) -> Seq<char> {
    match encoding {
        Encoding::Hex => hex_text(encode_utf8(url)),
        Encoding::Base64 => base64_text(encode_utf8(url)),
    }
}

/// A text without the slashes at its end.
pub open spec fn without_trailing_slashes(base: Seq<char>) -> Seq<char>
    decreases base.len(),
{
    if base.len() > 0 && base.last() == '/' {
        without_trailing_slashes(base.drop_last())
    } else {
        base
    }
}

/// The path of a proxy URL: `/<digest>/<encoded_url>`.
pub open spec fn proxy_path(digest: Seq<char>, encoded_url: Seq<char>) -> Seq<char> {
    seq!['/'] + digest + seq!['/'] + encoded_url
}

/// A proxy URL: the base without its trailing slashes, then the path.
pub open spec fn proxy_url(
    base: Seq<char>,
    digest: Seq<char>,
    encoded_url: Seq<char>,
) -> Seq<char> {
    without_trailing_slashes(base) + proxy_path(digest, encoded_url)
}

/// A text without the slashes at its end.
pub fn trim_trailing_slashes(base: &str) -> (trimmed: &str)
    ensures
        trimmed@ == without_trailing_slashes(base@),
{
    let chars = chars_of(base);
    let mut end: usize = chars.len();
    assert(base@.take(end as int) =~= base@);
    while end > 0 && chars[end - 1] == '/'
        invariant
            end <= chars.len(),
            chars@ == base@,
            without_trailing_slashes(base@) == without_trailing_slashes(base@.take(end as int)),
        decreases end,
    {
        assert(base@.take(end as int).drop_last() =~= base@.take(end as int - 1));
        end -= 1;
    }
    assert(base@.take(end as int) =~= base@.subrange(0, end as int));
    base.substring_char(0, end)
}

/// A signed URL: a target URL with its digest and its token.
#[derive(Debug, Clone)]
pub struct SignedUrl {
    /// The target URL that was signed.
    pub original_url: String,
    /// The digest of the target URL under the signing key.
    pub digest: String,
    /// The token that stands for the target URL.
    pub encoded_url: String,
    /// The encoding of the token.
    pub encoding: Encoding,
}

impl SignedUrl {
    /// Whether the token stands for the target URL under the recorded encoding.
    pub open spec fn wf(&self) -> bool {
        self.encoded_url@ == encoded_form(self.encoding, self.original_url@)
    }

    /// The path of the proxy URL, `/<digest>/<encoded_url>`.
    pub fn to_path(&self) -> (path: String)
        ensures
            path@ == proxy_path(self.digest@, self.encoded_url@),
    {
        proof {
            reveal_strlit("/");
        }
        let mut path = String::from_str("/");
        path.append(self.digest.as_str());
        path.append("/");
        path.append(self.encoded_url.as_str());
        assert("/"@ =~= seq!['/']);
        path
    }

    /// The proxy URL under a base URL: `<base>/<digest>/<encoded_url>`, whatever number
    /// of slashes the base ends with.
    pub fn to_url(&self, base: &str) -> (url: String)
        ensures
            url@ == proxy_url(base@, self.digest@, self.encoded_url@),
    {
        let mut url = String::from_str(trim_trailing_slashes(base));
        let path = self.to_path();
        url.append(path.as_str());
        url
    }

    /// The same signed URL with its token in base64.
    pub fn base64(self) -> (switched: Self)
        ensures
            switched.original_url@ == self.original_url@,
            switched.digest@ == self.digest@,
            switched.encoding == Encoding::Base64,
            switched.encoded_url@ == if self.encoding == Encoding::Base64 {
                self.encoded_url@
            } else {
                base64_text(encode_utf8(self.original_url@))
            },
            self.wf() ==> switched.wf(),
    {
        if self.encoding != Encoding::Base64 {
            let encoded_url = encode_url_base64(self.original_url.as_str());
            SignedUrl {
                original_url: self.original_url,
                digest: self.digest,
                encoded_url,
                encoding: Encoding::Base64,
            }
        } else {
            self
        }
    }

    /// The same signed URL with its token in hexadecimal.
    pub fn hex(self) -> (switched: Self)
        ensures
            switched.original_url@ == self.original_url@,
            switched.digest@ == self.digest@,
            switched.encoding == Encoding::Hex,
            switched.encoded_url@ == if self.encoding == Encoding::Hex {
                self.encoded_url@
            } else {
                hex_text(encode_utf8(self.original_url@))
            },
            self.wf() ==> switched.wf(),
    {
        if self.encoding != Encoding::Hex {
            let encoded_url = encode_url_hex(self.original_url.as_str());
            SignedUrl {
                original_url: self.original_url,
                digest: self.digest,
                encoded_url,
                encoding: Encoding::Hex,
            }
        } else {
            self
        }
    }
}

/// A signer of target URLs: a secret key, and the encoding its tokens are written in.
#[derive(Debug, Clone)]
pub struct CamoUrl {
    key: String,
    default_encoding: Encoding,
}

impl CamoUrl {
    /// The signing key.
    pub closed spec fn key(&self) -> Seq<char> {
        self.key@
    }

    /// The encoding that `sign` writes tokens in.
    pub closed spec fn default_encoding(&self) -> Encoding {
        self.default_encoding
    }

    /// A signer under `key` that writes its tokens in hexadecimal.
    pub fn new(key: &str) -> (signer: Self)
        ensures
            signer.key() == key@,
            signer.default_encoding() == Encoding::Hex,
    {
        CamoUrl { key: String::from_str(key), default_encoding: Encoding::Hex }
    }

    /// The same signer, writing its tokens in `encoding`.
    pub fn with_encoding(self, encoding: Encoding) -> (signer: Self)
        ensures
            signer.key() == self.key(),
            signer.default_encoding() == encoding,
    {
        CamoUrl { key: self.key, default_encoding: encoding }
    }

    /// Signs a target URL: its digest under the key, and its token in the signer's
    /// encoding.
    pub fn sign(&self, url: &str) -> (signed: SignedUrl)
        ensures
            signed.original_url@ == url@,
            signed.digest@ == digest_of(self.key(), url@),
            signed.encoded_url@ == encoded_form(self.default_encoding(), url@),
            signed.encoding == self.default_encoding(),
            signed.wf(),
    {
        let digest = generate_digest(self.key.as_str(), url);
        let encoded_url = match self.default_encoding {
            Encoding::Hex => encode_url_hex(url),
            Encoding::Base64 => encode_url_base64(url),
        };
        SignedUrl {
            original_url: String::from_str(url),
            digest,
            encoded_url,
            encoding: self.default_encoding,
        }
    }

    /// Signs a target URL and writes the proxy URL for it under `base`.
    pub fn sign_url(&self, url: &str, base: &str) -> (proxied: String)
        ensures
            proxied@ == proxy_url(
                base@,
                digest_of(self.key(), url@),
                encoded_form(self.default_encoding(), url@),
            ),
    {
        self.sign(url).to_url(base)
    }

    /// Whether `digest` is the digest of `url` under the signer's key.
    pub fn verify(&self, url: &str, digest: &str) -> (valid: bool)
        ensures
            valid == digest_matches(self.key(), url@, digest@),
    {
        verify_digest(self.key.as_str(), url, digest)
    }
}

/// Signs a target URL under `key` and writes the proxy URL for it under `base`, with the
/// token in hexadecimal.
pub fn sign_url(key: &str, url: &str, base: &str) -> (proxied: String)
    ensures
        proxied@ == proxy_url(base@, digest_of(key@, url@), hex_text(encode_utf8(url@))),
{
    CamoUrl::new(key).sign_url(url, base)
}

/// What the signing utility prints for a URL: the proxy URL under the base, or, where
/// no base is given, the digest, the token and the path on a line each.
pub open spec fn signing_lines(
    key: Seq<char>,
    url: Seq<char>,
    base: Seq<char>,
    base64: bool,
) -> Seq<Seq<char>> {
    let digest = digest_of(key, url);
    let token = encoded_form(
        if base64 {
            Encoding::Base64
        } else {
            Encoding::Hex
        },
        url,
    );
    if base.len() == 0 {
        seq![
            "Digest: "@ + digest,
            "Encoded URL: "@ + token,
            "Path: "@ + proxy_path(digest, token),
        ]
    } else {
        seq![proxy_url(base, digest, token)]
    }
}

/// Signs a URL for the signing utility, and writes the lines it prints.
pub fn signing_report(key: &str, url: &str, base: &str, base64: bool) -> (lines: Vec<String>)
    ensures
        lines.deep_view() == signing_lines(key@, url@, base@, base64),
{
    let signer = CamoUrl::new(key).with_encoding(
        if base64 {
            Encoding::Base64
        } else {
            Encoding::Hex
        },
    );
    let signed = signer.sign(url);
    let mut lines: Vec<String> = Vec::new();
    if base.is_empty() {
        lines.push(String::from_str("Digest: ").concat(signed.digest.as_str()));
        lines.push(String::from_str("Encoded URL: ").concat(signed.encoded_url.as_str()));
        lines.push(String::from_str("Path: ").concat(signed.to_path().as_str()));
    } else {
        lines.push(signed.to_url(base));
    }
    assert(lines.deep_view() =~= signing_lines(key@, url@, base@, base64));
    lines
}

} // verus!
