//! The signer: a keyed digest that binds a secret to a target URL.
//!
//! The digest of a URL is the HMAC-SHA1 tag of its UTF-8 bytes under the key's UTF-8
//! bytes, written as forty lower-case hexadecimal digits. Verification recomputes the
//! digest and compares it with the presented one without stopping at the first difference.
use vstd::prelude::*;
use vstd::utf8::*;
use crate::encoding::{hex_encode, hex_text};
use crate::text::lemma_utf8_injective;

verus! {

broadcast use vstd::string::group_string_axioms;

/// The HMAC-SHA1 authentication tag of `message` under `key`.
pub uninterp spec fn hmac_sha1(key: Seq<u8>, message: Seq<u8>) -> Seq<u8>;

/// The digest of a URL under a key: the tag of their UTF-8 bytes in hexadecimal.
pub open spec fn digest_of(key: Seq<char>, url: Seq<char>) -> Seq<char> {
    hex_text(hmac_sha1(encode_utf8(key), encode_utf8(url)))
}

/// Whether `digest` is the digest of `url` under `key`.
pub open spec fn digest_matches(key: Seq<char>, url: Seq<char>, digest: Seq<char>) -> bool {
    digest == digest_of(key, url)
}

/// A byte string with one bit of one of its bytes inverted.
pub open spec fn with_bit_flipped(bytes: Seq<u8>, index: int, bit: u8) -> Seq<u8> {
    bytes.update(index, bytes[index] ^ (1u8 << bit))
}

/// `hmac::Hmac<sha1::Sha1>` through `Mac::new_from_slice`, `Mac::update` and
/// `Mac::finalize`: the tag of `message` under `key`. HMAC takes a key of any length, and
/// a SHA-1 tag has twenty bytes.
#[verifier::external_body]
fn hmac_sha1_tag(key: &[u8], message: &[u8]) -> (tag: Vec<u8>)
    ensures
        tag@ == hmac_sha1(key@, message@),
        tag@.len() == 20,
{
    let mut mac = <hmac::Hmac<sha1::Sha1> as hmac::Mac>::new_from_slice(key)
        .expect("HMAC accepts any key size");
    hmac::Mac::update(&mut mac, message);
    hmac::Mac::finalize(mac).into_bytes().to_vec()
}

/// Computes the digest of a URL under a key.
pub fn generate_digest(key: &str, url: &str) -> (digest: String)
    ensures
        digest@ == digest_of(key@, url@),
        digest@.len() == 40,
{
    let tag = hmac_sha1_tag(key.as_bytes(), url.as_bytes());
    hex_encode(tag.as_slice())
}

/// Whether two byte strings are equal. The strings are compared over their whole length,
/// so the time taken does not tell where they first differ; only a difference in length
/// returns at once.
pub fn constant_time_eq(a: &[u8], b: &[u8]) -> (same: bool)
    ensures
        same == (a@ == b@),
{
    if a.len() != b.len() {
        return false;
    }
    let mut result: u8 = 0;
    let mut i: usize = 0;
    while i < a.len()
        invariant
            i <= a.len(),
            a.len() == b.len(),
            result == 0 <==> (forall|j: int| 0 <= j < i ==> a@[j] == b@[j]),
        decreases a.len() - i,
    {
        let x: u8 = a[i];
        let y: u8 = b[i];
        let next: u8 = result | (x ^ y);
        assert(next == 0 <==> (result == 0 && x == y)) by (bit_vector)
            requires
                next == result | (x ^ y),
        ;
        result = next;
        i += 1;
    }
    if result == 0 {
        assert(a@ =~= b@);
    }
    result == 0
}

/// Whether `digest` is the digest of `url` under `key`.
pub fn verify_digest(key: &str, url: &str, digest: &str) -> (valid: bool)
    ensures
        valid == digest_matches(key@, url@, digest@),
{
    let expected = generate_digest(key, url);
    let valid = constant_time_eq(expected.as_str().as_bytes(), digest.as_bytes());
    proof {
        if valid {
            lemma_utf8_injective(expected@, digest@);
        }
    }
    valid
}

/// The digest generated for a URL under a key verifies for that URL under that key.
pub proof fn law_generated_digest_verifies(key: Seq<char>, url: Seq<char>)
    ensures
        digest_matches(key, url, digest_of(key, url)),
{
}

/// A digest that differs from the generated one in a single bit does not verify.
pub proof fn law_mutated_digest_rejected(
    key: Seq<char>,
    url: Seq<char>,
    mutated: Seq<char>,
    index: int,
    bit: u8,
)
    requires
        0 <= index < encode_utf8(digest_of(key, url)).len(),
        bit < 8,
        encode_utf8(mutated) == with_bit_flipped(encode_utf8(digest_of(key, url)), index, bit),
    ensures
        !digest_matches(key, url, mutated),
{
    let genuine = encode_utf8(digest_of(key, url));
    let byte = genuine[index];
    assert(byte ^ (1u8 << bit) != byte) by (bit_vector)
        requires
            bit < 8,
    ;
    assert(encode_utf8(mutated)[index] != genuine[index]);
}

} // verus!
