use blog_handlers::numbers::{format_i64, format_u64, parse_i64, parse_u64, parse_usize};
use blog_handlers::text::{
    chars_eq, chars_of, contains, ends_with, ends_with_ignore_ascii_case, is_blank, is_whitespace,
    matches_at, slice_chars, starts_with, str_eq, string_from, to_ascii_lower, trim,
};

fn cs(s: &str) -> Vec<char> {
    s.chars().collect()
}

const SAMPLES: [&str; 22] = [
    "0", "42", "+7", "-7", "", "+", "-", "007", "12a", " 1", "1 ", "18446744073709551615",
    "18446744073709551616", "9223372036854775807", "9223372036854775808", "-9223372036854775808",
    "-9223372036854775809", "++1", "+-1", "٣", "1_000", "-0",
];

#[test]
fn unsigned_parsing_agrees_with_std() {
    for s in SAMPLES {
        assert_eq!(parse_u64(&cs(s)), s.parse::<u64>().ok(), "{s:?}");
        assert_eq!(parse_usize(&cs(s)), s.parse::<usize>().ok(), "{s:?}");
    }
}

#[test]
fn signed_parsing_agrees_with_std() {
    for s in SAMPLES {
        assert_eq!(parse_i64(&cs(s)), s.parse::<i64>().ok(), "{s:?}");
    }
}

#[test]
fn decimal_rendering_agrees_with_std() {
    for n in [0u64, 1, 9, 10, 99, 100, 12345, u64::MAX] {
        assert_eq!(format_u64(n).into_iter().collect::<String>(), n.to_string());
    }
    for n in [0i64, -1, 1, -10, 250, i64::MIN, i64::MAX] {
        assert_eq!(format_i64(n).into_iter().collect::<String>(), n.to_string());
    }
}

#[test]
fn rendering_then_parsing_gives_the_number_back() {
    for n in [0u64, 5, 1000, 4294967296, u64::MAX] {
        assert_eq!(parse_u64(&format_u64(n)), Some(n));
    }
    for n in [i64::MIN, -42, 0, 42, i64::MAX] {
        assert_eq!(parse_i64(&format_i64(n)), Some(n));
    }
}

#[test]
fn trimming_agrees_with_std() {
    for s in ["", "  ", " a ", "\t\nab c\u{3000}", "x", "\u{a0}y\u{2028}"] {
        assert_eq!(trim(&cs(s)).into_iter().collect::<String>(), s.trim(), "{s:?}");
        assert_eq!(is_blank(&cs(s)), s.trim().is_empty(), "{s:?}");
    }
    for c in [' ', '\t', '\u{85}', '\u{200b}', 'a', '\u{3000}'] {
        assert_eq!(is_whitespace(c), c.is_whitespace(), "{c:?}");
    }
}

#[test]
fn string_helpers() {
    assert_eq!(chars_of("héllo"), cs("héllo"));
    assert_eq!(string_from(&cs("héllo")), "héllo");
    assert!(str_eq("abc", "abc"));
    assert!(!str_eq("abc", "abd"));
    assert!(chars_eq(&cs("ab"), &cs("ab")));
    assert!(!chars_eq(&cs("ab"), &cs("abc")));
    assert_eq!(to_ascii_lower('Q'), 'q');
    assert_eq!(to_ascii_lower('É'), 'É');
    assert!(ends_with_ignore_ascii_case(&cs("GAME.ZIP"), &cs(".zip")));
    assert!(!ends_with_ignore_ascii_case(&cs("zip"), &cs(".zip")));
    assert!(matches_at(&cs("abcabc"), &cs("ca"), 2));
    assert!(!matches_at(&cs("abcabc"), &cs("ca"), 3));
    assert!(contains(&cs("hello world"), &cs("o w")));
    assert!(!contains(&cs("hello"), &cs("world")));
    assert!(starts_with(&cs("hello"), &cs("he")));
    assert!(ends_with(&cs("hello"), &cs("llo")));
    assert!(!ends_with(&cs("lo"), &cs("hello")));
    assert_eq!(slice_chars(&cs("abcdef"), 1, 4), cs("bcd"));
}
