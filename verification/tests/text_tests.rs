use journal_viewer::text::{
    i32_to_string, is_blank, lines_of, parse_i32_or_default, parse_u32_or_default,
    str_contains, tokenize, u32_to_string,
};

#[test]
fn unsigned_parse_accepts_plain_numbers() {
    assert_eq!(parse_u32_or_default("100", 7), 100);
    assert_eq!(parse_u32_or_default("0", 7), 0);
    assert_eq!(parse_u32_or_default("+42", 7), 42);
    assert_eq!(parse_u32_or_default("4294967295", 7), u32::MAX);
}

#[test]
fn unsigned_parse_substitutes_on_rejects() {
    assert_eq!(parse_u32_or_default("abc", 7), 7);
    assert_eq!(parse_u32_or_default("", 7), 7);
    assert_eq!(parse_u32_or_default("+", 7), 7);
    assert_eq!(parse_u32_or_default("-1", 7), 7);
    assert_eq!(parse_u32_or_default("12x", 7), 7);
    assert_eq!(parse_u32_or_default("4294967296", 7), 7);
    assert_eq!(parse_u32_or_default("99999999999999999999", 7), 7);
}

#[test]
fn signed_parse_covers_the_whole_range() {
    assert_eq!(parse_i32_or_default("-1", 9), -1);
    assert_eq!(parse_i32_or_default("0", 9), 0);
    assert_eq!(parse_i32_or_default("+7", 9), 7);
    assert_eq!(parse_i32_or_default("2147483647", 9), i32::MAX);
    assert_eq!(parse_i32_or_default("-2147483648", 9), i32::MIN);
}

#[test]
fn signed_parse_substitutes_on_rejects() {
    assert_eq!(parse_i32_or_default("2147483648", 9), 9);
    assert_eq!(parse_i32_or_default("-2147483649", 9), 9);
    assert_eq!(parse_i32_or_default("abc", 9), 9);
    assert_eq!(parse_i32_or_default("-", 9), 9);
    assert_eq!(parse_i32_or_default("", 9), 9);
}

#[test]
fn rendering_matches_decimal_notation() {
    assert_eq!(u32_to_string(0), "0");
    assert_eq!(u32_to_string(100), "100");
    assert_eq!(u32_to_string(u32::MAX), "4294967295");
    assert_eq!(i32_to_string(0), "0");
    assert_eq!(i32_to_string(-17), "-17");
    assert_eq!(i32_to_string(i32::MIN), "-2147483648");
}

#[test]
fn tokenizer_collapses_whitespace_runs() {
    assert_eq!(tokenize("  a  bb\tc "), vec!["a", "bb", "c"]);
    assert_eq!(tokenize("").len(), 0);
    assert_eq!(tokenize(" \t ").len(), 0);
    assert_eq!(tokenize("single"), vec!["single"]);
}

#[test]
fn line_splitting_keeps_every_segment() {
    assert_eq!(lines_of("a\nb\n"), vec!["a", "b", ""]);
    assert_eq!(lines_of(""), vec![""]);
    assert_eq!(lines_of("no break"), vec!["no break"]);
}

#[test]
fn substring_search_finds_inner_matches() {
    assert!(str_contains("connection error", "err"));
    assert!(str_contains("abc", ""));
    assert!(str_contains("abc", "abc"));
    assert!(!str_contains("", "x"));
    assert!(!str_contains("abc", "abcd"));
    assert!(!str_contains("abc", "ac"));
}

#[test]
fn blank_detection_covers_whitespace_only_text() {
    assert!(is_blank(""));
    assert!(is_blank(" \t\r"));
    assert!(!is_blank(" x "));
}
