use camo::text::{
    bytes_eq, chars_of, find_char, parse_u64, starts_with, str_eq, text_of_ascii, trim_bounds,
    u64_to_string,
};
use camo::trim_trailing_slashes;

#[test]
fn equality_of_bytes_and_texts() {
    assert!(bytes_eq(b"", b""));
    assert!(bytes_eq(b"ab", b"ab"));
    assert!(!bytes_eq(b"ab", b"ac"));
    assert!(!bytes_eq(b"ab", b"abc"));
    assert!(str_eq("\u{e9}", "\u{e9}"));
    assert!(!str_eq("\u{e9}", "e"));
    assert!(!str_eq("a", "A"));
}

#[test]
fn characters_of_a_text() {
    assert_eq!(chars_of("a\u{e9}\u{1f600}"), vec!['a', '\u{e9}', '\u{1f600}']);
    assert_eq!(chars_of(""), Vec::<char>::new());
}

#[test]
fn decimal_numbers() {
    assert_eq!(parse_u64("0"), Some(0));
    assert_eq!(parse_u64("007"), Some(7));
    assert_eq!(parse_u64("+42"), Some(42));
    assert_eq!(parse_u64("18446744073709551615"), Some(u64::MAX));
    assert_eq!(parse_u64("18446744073709551616"), None);
    assert_eq!(parse_u64("99999999999999999999999"), None);
    assert_eq!(parse_u64(""), None);
    assert_eq!(parse_u64("+"), None);
    assert_eq!(parse_u64("++1"), None);
    assert_eq!(parse_u64("-1"), None);
    assert_eq!(parse_u64("1 "), None);
    assert_eq!(parse_u64(" 1"), None);
    assert_eq!(parse_u64("1_000"), None);
    assert_eq!(parse_u64("12a"), None);
    assert_eq!(parse_u64("\u{661}"), None);
    for text in ["0", "007", "+42", "", "+", "-1", "1 ", "18446744073709551616", "\u{661}"] {
        assert_eq!(parse_u64(text), text.parse::<u64>().ok());
    }
}

#[test]
fn searching_and_trimming() {
    let chars: Vec<char> = "  a;b ; ".chars().collect();
    assert_eq!(find_char(&chars, 0, ';'), 3);
    assert_eq!(find_char(&chars, 4, ';'), 6);
    assert_eq!(find_char(&chars, 7, ';'), 8);
    assert_eq!(find_char(&chars, 8, ';'), 8);
    assert_eq!(trim_bounds(&chars, 0, 3), (2, 3));
    assert_eq!(trim_bounds(&chars, 0, 8), (2, 7));
    assert_eq!(trim_bounds(&chars, 4, 6), (4, 5));
    assert_eq!(trim_bounds(&chars, 0, 2), (2, 2));
    assert_eq!(trim_bounds(&chars, 3, 3), (3, 3));
}

#[test]
fn prefixes() {
    assert!(starts_with("http://a", "http://"));
    assert!(starts_with("http://", "http://"));
    assert!(!starts_with("http:/", "http://"));
    assert!(!starts_with("Http://a", "http://"));
    assert!(starts_with("abc", ""));
    assert!(starts_with("", ""));
    assert!(starts_with("\u{e9}a", "\u{e9}"));
}

#[test]
fn trailing_slashes() {
    assert_eq!(trim_trailing_slashes("https://camo.example.com/"), "https://camo.example.com");
    assert_eq!(trim_trailing_slashes("a//"), "a");
    assert_eq!(trim_trailing_slashes("/a/b"), "/a/b");
    assert_eq!(trim_trailing_slashes("///"), "");
    assert_eq!(trim_trailing_slashes(""), "");
}

#[test]
fn white_space_is_what_the_standard_library_takes_for_it() {
    let mut count = 0;
    for code in 0..=0x10ffffu32 {
        if let Some(c) = char::from_u32(code) {
            let (start, stop) = trim_bounds(&vec![c], 0, 1);
            let trimmed_away = start == stop;
            assert_eq!(trimmed_away, c.is_whitespace(), "U+{:04X}", code);
            let listed = matches!(
                c,
                '\u{9}'..='\u{d}'
                    | ' '
                    | '\u{85}'
                    | '\u{a0}'
                    | '\u{1680}'
                    | '\u{2000}'..='\u{200a}'
                    | '\u{2028}'
                    | '\u{2029}'
                    | '\u{202f}'
                    | '\u{205f}'
                    | '\u{3000}'
            );
            assert_eq!(listed, c.is_whitespace(), "U+{:04X}", code);
            if listed {
                count += 1;
            }
        }
    }
    assert_eq!(count, 25);
}

#[test]
fn numbers_are_written_in_decimal() {
    assert_eq!(u64_to_string(0), "0");
    assert_eq!(u64_to_string(7), "7");
    assert_eq!(u64_to_string(10), "10");
    assert_eq!(u64_to_string(5242881), "5242881");
    assert_eq!(u64_to_string(u64::MAX), "18446744073709551615");
    for n in [0u64, 9, 99, 100, 101, 1 << 32, u64::MAX - 1] {
        assert_eq!(u64_to_string(n), n.to_string());
        assert_eq!(parse_u64(&u64_to_string(n)), Some(n));
    }
    assert_eq!(text_of_ascii(b"a b\t~".to_vec()), "a b\t~");
    assert_eq!(text_of_ascii(vec![]), "");
}
