use arena::content::{content_type_or_default, delete_answered_nothing, file_content, is_textual_content_type};
use arena::text::{
    format_i64, format_u32, is_blank_str, lex_less, parse_i64, split_lines, str_contains,
    str_starts_with, trim_string,
};

fn chars(s: &str) -> Vec<char> {
    s.chars().collect()
}

#[test]
fn trimming_and_blank_text() {
    assert_eq!(trim_string("  a b \t\n"), "a b");
    assert_eq!(trim_string("\u{3000}x\u{a0}"), "x");
    assert!(is_blank_str(" \r\n\t"));
    assert!(is_blank_str(""));
    assert!(!is_blank_str(" . "));
}

#[test]
fn numbers_in_and_out() {
    assert_eq!(parse_i64("42"), Some(42));
    assert_eq!(parse_i64("+7"), Some(7));
    assert_eq!(parse_i64("-9223372036854775808"), Some(i64::MIN));
    assert_eq!(parse_i64("9223372036854775808"), None);
    assert_eq!(parse_i64("-"), None);
    assert_eq!(parse_i64(" 1"), None);
    assert_eq!(format_i64(-1234), "-1234");
    assert_eq!(format_i64(i64::MIN), i64::MIN.to_string());
    assert_eq!(format_u32(0), "0");
    assert_eq!(format_u32(u32::MAX), "4294967295");
}

#[test]
fn lines_as_std_splits_them() {
    for text in ["a\nb", "a\r\nb\n", "\n\nx", "", "tail\r", "one"] {
        let expected: Vec<String> = text.lines().map(|l| l.to_string()).collect();
        assert_eq!(split_lines(text), expected, "{text:?}");
    }
}

#[test]
fn string_order_and_search() {
    assert!(lex_less(&chars("a"), &chars("b")));
    assert!(lex_less(&chars("ab"), &chars("abc")));
    assert!(!lex_less(&chars("abc"), &chars("abc")));
    assert!(lex_less(&chars("Z"), &chars("a")));
    assert!(str_contains("hello world", "o w"));
    assert!(!str_contains("hello", "world"));
    assert!(str_starts_with("https://x", "https://"));
}

#[test]
fn file_contents() {
    let text = file_content(b"hello", "text/plain".to_string());
    assert_eq!(text.encoding, "text");
    assert_eq!(text.data, "hello");
    assert_eq!(text.size_bytes, 5);
    let lossy = file_content(b"a\xffb", "text/csv".to_string());
    assert_eq!(lossy.data, "a\u{fffd}b");
    let json = file_content(b"{}", "application/json; charset=utf-8".to_string());
    assert_eq!(json.encoding, "text");
    let binary = file_content(&[0xff, 0x00, 0x10], "image/png".to_string());
    assert_eq!(binary.encoding, "base64");
    assert_eq!(binary.data, "/wAQ");
    assert!(is_textual_content_type("application/xml"));
    assert!(!is_textual_content_type("application/pdf"));
    assert_eq!(content_type_or_default(None), "application/octet-stream");
    assert_eq!(content_type_or_default(Some("image/png".to_string())), "image/png");
    assert!(delete_answered_nothing(204, 10));
    assert!(delete_answered_nothing(200, 0));
    assert!(!delete_answered_nothing(200, 2));
}
