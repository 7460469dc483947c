use tikeo::text::{
    ascii_lowercase, chars_eq_text, decimal_text, is_blank_text, is_whitespace, parse_i64_chars,
    text_chars, text_eq, trim_bounds, trim_text,
};

fn parse(s: &str) -> Option<i64> {
    parse_i64_chars(&s.chars().collect())
}

#[test]
fn trimming_matches_std() {
    for s in ["", "   ", " a ", "\t\nab c\u{3000}", "\u{a0}x\u{85}", "plain", "\u{200b}z"] {
        assert_eq!(trim_text(s), s.trim(), "{s:?}");
        assert_eq!(is_blank_text(s), s.trim().is_empty(), "{s:?}");
    }
    assert_eq!(trim_bounds("  ab "), (2, 4));
}

#[test]
fn whitespace_matches_std() {
    for c in ['\t', '\n', '\u{b}', '\u{c}', '\r', ' ', '\u{85}', '\u{a0}', '\u{1680}', '\u{2000}',
        '\u{200a}', '\u{2028}', '\u{2029}', '\u{202f}', '\u{205f}', '\u{3000}', 'a', '\u{200b}',
        '\u{feff}', '0']
    {
        assert_eq!(is_whitespace(c), c.is_whitespace(), "{c:?}");
    }
}

#[test]
fn text_comparison_and_chars() {
    assert!(text_eq("abc", "abc"));
    assert!(!text_eq("abc", "abd"));
    assert!(!text_eq("abc", "ab"));
    assert_eq!(text_chars("h\u{e9}"), vec!['h', '\u{e9}']);
    assert!(chars_eq_text(&vec!['o', 'k'], "ok"));
    assert!(!chars_eq_text(&vec!['o'], "ok"));
    assert_eq!(ascii_lowercase(&"YeS\u{c9}".chars().collect()), vec!['y', 'e', 's', '\u{c9}']);
}

#[test]
fn integer_parsing_matches_std() {
    for s in ["0", "42", "+42", "-17", "007", "9223372036854775807", "-9223372036854775808",
        "9223372036854775808", "-9223372036854775809", "", "-", "+", "1.5", "12a", " 1", "--1"]
    {
        assert_eq!(parse(s), s.parse::<i64>().ok(), "{s:?}");
    }
}

#[test]
fn decimal_rendering_matches_std() {
    for n in [0u64, 7, 10, 99, 100, 12345, u64::MAX] {
        assert_eq!(decimal_text(n), n.to_string());
    }
}
