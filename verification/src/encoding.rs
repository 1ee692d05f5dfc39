//! Transport encodings of a target URL: hexadecimal, URL-safe base64 without padding, and
//! percent-encoding.
//!
//! A URL is encoded from its UTF-8 bytes. A token is decoded by trying the three encodings
//! in a fixed order (hexadecimal, then base64, then percent-encoding) and taking the first
//! that yields well-formed UTF-8. The alphabets overlap, so a base64 token that also reads
//! as hexadecimal is decoded as hexadecimal: the order is part of the wire format.
use vstd::prelude::*;
use vstd::utf8::*;
use crate::text::string_from_utf8;

verus! {

broadcast use vstd::string::group_string_axioms;

/// The lower-case hexadecimal digit for a value below 16.
pub open spec fn hex_digit(nibble: int) -> char {
    if nibble < 10 {
        ('0' as int + nibble) as char
    } else {
        ('a' as int + nibble - 10) as char
    }
}

/// The hexadecimal form of a byte string: two lower-case digits per byte, high nibble first.
pub open spec fn hex_text(bytes: Seq<u8>) -> Seq<char> {
    Seq::new(
        2 * bytes.len(),
        |i: int|
            if i % 2 == 0 {
                hex_digit(bytes[i / 2] as int / 16)
            } else {
                hex_digit(bytes[i / 2] as int % 16)
            },
    )
}

/// The value of a hexadecimal digit of either case, given by its code point.
pub open spec fn hex_value(code: int) -> Option<int> {
    if '0' as int <= code <= '9' as int {
        Some(code - '0' as int)
    } else if 'a' as int <= code <= 'f' as int {
        Some(code - 'a' as int + 10)
    } else if 'A' as int <= code <= 'F' as int {
        Some(code - 'A' as int + 10)
    } else {
        None
    }
}

/// Whether a token is made of an even number of hexadecimal digits.
pub open spec fn is_hex_token(token: Seq<char>) -> bool {
    &&& token.len() % 2 == 0
    &&& forall|i: int| 0 <= i < token.len() ==> hex_value(#[trigger] token[i] as int) is Some
}

/// The bytes that a hexadecimal token stands for, if it is one.
pub open spec fn hex_bytes(token: Seq<char>) -> Option<Seq<u8>> {
    if is_hex_token(token) {
        Some(
            Seq::new(
                token.len() / 2,
                |i: int|
                    (hex_value(token[2 * i] as int)->0 * 16 + hex_value(
                        token[2 * i + 1] as int,
                    )->0) as u8,
            ),
        )
    } else {
        None
    }
}

/// The symbol of the URL-safe base64 alphabet for a value below 64.
pub open spec fn base64_symbol(value: int) -> char {
    if value < 26 {
        ('A' as int + value) as char
    } else if value < 52 {
        ('a' as int + value - 26) as char
    } else if value < 62 {
        ('0' as int + value - 52) as char
    } else if value == 62 {
        '-'
    } else {
        '_'
    }
}

/// The URL-safe base64 form of a byte string, without padding: four symbols for every three
/// bytes, two symbols for one byte left over, three symbols for two.
pub open spec fn base64_text(bytes: Seq<u8>) -> Seq<char>
    decreases bytes.len(),
{
    if bytes.len() == 0 {
        Seq::empty()
    } else if bytes.len() == 1 {
        seq![base64_symbol(bytes[0] as int / 4), base64_symbol(bytes[0] as int % 4 * 16)]
    } else if bytes.len() == 2 {
        seq![
            base64_symbol(bytes[0] as int / 4),
            base64_symbol(bytes[0] as int % 4 * 16 + bytes[1] as int / 16),
            base64_symbol(bytes[1] as int % 16 * 4),
        ]
    } else {
        seq![
            base64_symbol(bytes[0] as int / 4),
            base64_symbol(bytes[0] as int % 4 * 16 + bytes[1] as int / 16),
            base64_symbol(bytes[1] as int % 16 * 4 + bytes[2] as int / 64),
            base64_symbol(bytes[2] as int % 64),
        ] + base64_text(bytes.skip(3))
    }
}

/// The bytes that a base64 token stands for: the byte string whose base64 form is the
/// token, if there is one.
pub open spec fn base64_bytes(token: Seq<char>) -> Option<Seq<u8>> {
    if exists|bytes: Seq<u8>| base64_text(bytes) == token {
        Some(choose|bytes: Seq<u8>| base64_text(bytes) == token)
    } else {
        None
    }
}

/// A byte string with every `%` that two hexadecimal digits follow replaced, together with
/// the digits, by the byte they name. Any other `%` stands for itself.
pub open spec fn percent_decoded(bytes: Seq<u8>) -> Seq<u8>
    decreases bytes.len(),
{
    if bytes.len() == 0 {
        Seq::empty()
    } else if bytes[0] == 0x25 && bytes.len() >= 3 && hex_value(bytes[1] as int) is Some
        && hex_value(bytes[2] as int) is Some {
        seq![(hex_value(bytes[1] as int)->0 * 16 + hex_value(bytes[2] as int)->0) as u8]
            + percent_decoded(bytes.skip(3))
    } else {
        seq![bytes[0]] + percent_decoded(bytes.skip(1))
    }
}

/// The text that decoded bytes spell, where there are bytes and they are UTF-8.
pub open spec fn text_of(bytes: Option<Seq<u8>>) -> Option<Seq<char>> {
    match bytes {
        Some(b) => if valid_utf8(b) {
            Some(decode_utf8(b))
        } else {
            None
        },
        None => None,
    }
}

/// The URL that a token stands for: its reading as hexadecimal if that is text, else its
/// reading as base64 if that is text, else its percent-decoded form if that is text.
pub open spec fn decoded_url(token: Seq<char>) -> Option<Seq<char>> {
    if text_of(hex_bytes(token)) is Some {
        text_of(hex_bytes(token))
    } else if text_of(base64_bytes(token)) is Some {
        text_of(base64_bytes(token))
    } else {
        text_of(Some(percent_decoded(encode_utf8(token))))
    }
}

/// `hex::encode`: two lower-case hexadecimal digits for each byte.
#[verifier::external_body]
pub(crate) fn hex_encode(bytes: &[u8]) -> (text: String)
    ensures
        text@ == hex_text(bytes@),
{
    hex::encode(bytes)
}

/// `hex::decode`: the bytes named by an even number of hexadecimal digits of either case;
/// nothing for any other input.
#[verifier::external_body]
pub(crate) fn hex_decode(token: &str) -> (bytes: Option<Vec<u8>>)
    ensures
        match bytes {
            Some(b) => hex_bytes(token@) == Some(b@),
            None => hex_bytes(token@) is None,
        },
{
    match hex::decode(token) {
        Ok(bytes) => Some(bytes),
        Err(_) => None,
    }
}

/// `Engine::encode` of `base64::engine::general_purpose::URL_SAFE_NO_PAD`: the unpadded
/// base64 form in the URL-safe alphabet.
#[verifier::external_body]
pub(crate) fn base64_encode(bytes: &[u8]) -> (text: String)
    ensures
        text@ == base64_text(bytes@),
{
    base64::Engine::encode(&base64::engine::general_purpose::URL_SAFE_NO_PAD, bytes)
}

/// `Engine::decode` of `base64::engine::general_purpose::URL_SAFE_NO_PAD`. That engine
/// refuses padding, symbols outside the alphabet, a lone trailing symbol and set bits
/// after the last byte, so it accepts exactly the tokens that encoding produces and gives
/// back the bytes that were encoded.
#[verifier::external_body]
pub(crate) fn base64_decode(token: &str) -> (bytes: Option<Vec<u8>>)
    ensures
        match bytes {
            Some(b) => base64_text(b@) == token@,
            None => forall|any: Seq<u8>| #[trigger] base64_text(any) != token@,
        },
{
    match base64::Engine::decode(&base64::engine::general_purpose::URL_SAFE_NO_PAD, token) {
        Ok(bytes) => Some(bytes),
        Err(_) => None,
    }
}

/// `urlencoding::decode`: the percent-decoded bytes read as UTF-8 text; nothing where
/// they are not UTF-8. A `+` stays a `+`.
#[verifier::external_body]
pub(crate) fn percent_decode(token: &str) -> (text: Option<String>)
    ensures
        match text {
            Some(t) => text_of(Some(percent_decoded(encode_utf8(token@)))) == Some(t@),
            None => text_of(Some(percent_decoded(encode_utf8(token@)))) is None,
        },
{
    match urlencoding::decode(token) {
        Ok(text) => Some(text.into_owned()),
        Err(_) => None,
    }
}

/// Encodes a URL as the hexadecimal form of its UTF-8 bytes.
pub fn encode_url_hex(url: &str) -> (token: String)
    ensures
        token@ == hex_text(encode_utf8(url@)),
{
    hex_encode(url.as_bytes())
}

/// Encodes a URL as the unpadded URL-safe base64 form of its UTF-8 bytes.
pub fn encode_url_base64(url: &str) -> (token: String)
    ensures
        token@ == base64_text(encode_utf8(url@)),
{
    base64_encode(url.as_bytes())
}

/// Decodes a token into the URL it stands for, trying hexadecimal, then base64, then
/// percent-encoding, and taking the first reading that is well-formed UTF-8.
pub fn decode_url(encoded: &str) -> (url: Option<String>)
    ensures
        match url {
            Some(u) => decoded_url(encoded@) == Some(u@),
            None => decoded_url(encoded@) is None,
        },
{
    if let Some(bytes) = hex_decode(encoded) {
        if let Some(text) = string_from_utf8(bytes) {
            return Some(text);
        }
    }
    if let Some(bytes) = base64_decode(encoded) {
        proof {
            lemma_base64_bytes(bytes@);
        }
        if let Some(text) = string_from_utf8(bytes) {
            return Some(text);
        }
    }
    percent_decode(encoded)
}

/// A hexadecimal digit has the value it was written for.
pub proof fn lemma_hex_digit_value(nibble: int)
    requires
        0 <= nibble < 16,
    ensures
        hex_value(hex_digit(nibble) as int) == Some(nibble),
{
}

/// Reading the hexadecimal form of a byte string gives the byte string back.
pub proof fn lemma_hex_round_trip(bytes: Seq<u8>)
    ensures
        hex_bytes(hex_text(bytes)) == Some(bytes),
{
    let token = hex_text(bytes);
    assert forall|i: int| 0 <= i < token.len() implies hex_value(#[trigger] token[i] as int)
        is Some by {
        lemma_hex_digit_value(bytes[i / 2] as int / 16);
        lemma_hex_digit_value(bytes[i / 2] as int % 16);
    }
    assert(is_hex_token(token));
    let read = hex_bytes(token)->0;
    assert forall|i: int| 0 <= i < bytes.len() implies read[i] == bytes[i] by {
        lemma_hex_digit_value(bytes[i] as int / 16);
        lemma_hex_digit_value(bytes[i] as int % 16);
        assert(token[2 * i] == hex_digit(bytes[i] as int / 16));
        assert(token[2 * i + 1] == hex_digit(bytes[i] as int % 16));
    }
    assert(read =~= bytes);
}

/// The number of symbols in the base64 form of `n` bytes.
pub open spec fn base64_len(n: nat) -> nat {
    4 * (n / 3) + if n % 3 == 0 {
        0nat
    } else if n % 3 == 1 {
        2nat
    } else {
        3nat
    }
}

/// The base64 form of a byte string has four symbols for every three bytes, and two or
/// three for what is left over.
pub proof fn lemma_base64_len(bytes: Seq<u8>)
    ensures
        base64_text(bytes).len() == base64_len(bytes.len()),
    decreases bytes.len(),
{
    if bytes.len() >= 3 {
        lemma_base64_len(bytes.skip(3));
    }
}

/// Different values below 64 have different base64 symbols.
pub proof fn lemma_base64_symbol_injective(x: int, y: int)
    requires
        0 <= x < 64,
        0 <= y < 64,
        base64_symbol(x) == base64_symbol(y),
    ensures
        x == y,
{
}

/// Different byte strings have different base64 forms.
pub proof fn lemma_base64_injective(a: Seq<u8>, b: Seq<u8>)
    requires
        base64_text(a) == base64_text(b),
    ensures
        a == b,
    decreases a.len(),
{
    lemma_base64_len(a);
    lemma_base64_len(b);
    assert(a.len() == b.len());
    let ta = base64_text(a);
    let tb = base64_text(b);
    if a.len() == 0 {
        assert(a =~= b);
    } else if a.len() == 1 {
        assert(ta[0] == tb[0] && ta[1] == tb[1]);
        lemma_base64_symbol_injective(a[0] as int / 4, b[0] as int / 4);
        lemma_base64_symbol_injective(a[0] as int % 4 * 16, b[0] as int % 4 * 16);
        assert(a =~= b);
    } else if a.len() == 2 {
        assert(ta[0] == tb[0] && ta[1] == tb[1] && ta[2] == tb[2]);
        lemma_base64_symbol_injective(a[0] as int / 4, b[0] as int / 4);
        lemma_base64_symbol_injective(
            a[0] as int % 4 * 16 + a[1] as int / 16,
            b[0] as int % 4 * 16 + b[1] as int / 16,
        );
        lemma_base64_symbol_injective(a[1] as int % 16 * 4, b[1] as int % 16 * 4);
        assert(a =~= b);
    } else {
        assert(ta[0] == tb[0] && ta[1] == tb[1] && ta[2] == tb[2] && ta[3] == tb[3]);
        lemma_base64_symbol_injective(a[0] as int / 4, b[0] as int / 4);
        lemma_base64_symbol_injective(
            a[0] as int % 4 * 16 + a[1] as int / 16,
            b[0] as int % 4 * 16 + b[1] as int / 16,
        );
        lemma_base64_symbol_injective(
            a[1] as int % 16 * 4 + a[2] as int / 64,
            b[1] as int % 16 * 4 + b[2] as int / 64,
        );
        lemma_base64_symbol_injective(a[2] as int % 64, b[2] as int % 64);
        assert(ta.skip(4) =~= base64_text(a.skip(3)));
        assert(tb.skip(4) =~= base64_text(b.skip(3)));
        lemma_base64_injective(a.skip(3), b.skip(3));
        assert forall|i: int| 0 <= i < a.len() implies a[i] == b[i] by {
            if i >= 3 {
                assert(a[i] == a.skip(3)[i - 3]);
                assert(b[i] == b.skip(3)[i - 3]);
            }
        }
        assert(a =~= b);
    }
}

/// Reading the base64 form of a byte string gives the byte string back.
pub proof fn lemma_base64_bytes(bytes: Seq<u8>)
    ensures
        base64_bytes(base64_text(bytes)) == Some(bytes),
{
    let token = base64_text(bytes);
    let read = choose|any: Seq<u8>| base64_text(any) == token;
    lemma_base64_injective(read, bytes);
}

/// Decoding the hexadecimal token of a URL gives the URL back.
pub proof fn law_hex_token_decodes(url: Seq<char>)
    ensures
        decoded_url(hex_text(encode_utf8(url))) == Some(url),
{
    lemma_hex_round_trip(encode_utf8(url));
    encode_utf8_valid_utf8(url);
    encode_utf8_decode_utf8(url);
}

/// Decoding the base64 token of a URL gives the URL back, provided that the token does
/// not also read as hexadecimal digits that spell a text: hexadecimal is tried first, and
/// such a token is taken for the text that its digits spell.
pub proof fn law_base64_token_decodes(url: Seq<char>)
    requires
        url.len() == 0 || text_of(hex_bytes(base64_text(encode_utf8(url)))) is None,
    ensures
        decoded_url(base64_text(encode_utf8(url))) == Some(url),
{
    lemma_base64_bytes(encode_utf8(url));
    encode_utf8_valid_utf8(url);
    encode_utf8_decode_utf8(url);
    if url.len() == 0 {
        lemma_hex_round_trip(encode_utf8(url));
        assert(hex_text(encode_utf8(url)) =~= base64_text(encode_utf8(url)));
    }
}

} // verus!
