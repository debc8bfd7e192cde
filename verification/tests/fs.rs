use smop::fs::read_lines;
use smop::text::{chars_of, decimal_string, is_whitespace, lines, signed_decimal_string, str_eq, trim_end};

#[test]
fn read_lines_splits_on_newlines() {
    assert_eq!(read_lines("line1\nline2\nline3"), vec!["line1", "line2", "line3"]);
}

#[test]
fn read_lines_preserves_empty_lines() {
    assert_eq!(read_lines("line1\n\nline3"), vec!["line1", "", "line3"]);
}

#[test]
fn lines_drop_line_endings() {
    assert_eq!(lines("a\r\nb\n"), vec!["a", "b"]);
    assert_eq!(lines("a\rb"), vec!["a\rb"]);
    assert_eq!(lines("\n"), vec![""]);
    assert_eq!(lines(""), Vec::<String>::new());
    assert_eq!(lines("x\n\n"), vec!["x", ""]);
    assert_eq!(lines("é\nü"), vec!["é", "ü"]);
}

#[test]
fn text_helpers() {
    assert!(str_eq("héllo", "héllo"));
    assert!(!str_eq("abc", "abd"));
    assert!(!str_eq("ab", "abc"));
    assert_eq!(chars_of("añb"), vec!['a', 'ñ', 'b']);
    assert_eq!(decimal_string(0), "0");
    assert_eq!(decimal_string(7), "7");
    assert_eq!(decimal_string(1203), "1203");
    assert_eq!(decimal_string(usize::MAX), usize::MAX.to_string());
}

#[test]
fn signed_decimal_renders_sign() {
    assert_eq!(signed_decimal_string(0), "0");
    assert_eq!(signed_decimal_string(-1), "-1");
    assert_eq!(signed_decimal_string(42), "42");
    assert_eq!(signed_decimal_string(i32::MIN), i32::MIN.to_string());
    assert_eq!(signed_decimal_string(i32::MAX), i32::MAX.to_string());
}

#[test]
fn whitespace_matches_std() {
    for c in ['\t', '\n', '\u{b}', '\u{c}', '\r', ' ', '\u{85}', '\u{a0}', '\u{1680}', '\u{2000}', '\u{200a}', '\u{2028}', '\u{2029}', '\u{202f}', '\u{205f}', '\u{3000}', 'a', '0', '\u{200b}', '\u{feff}', '\u{8}', '\u{e}', '\u{1f}', '\u{180e}'] {
        assert_eq!(is_whitespace(c), c.is_whitespace(), "char {:?}", c);
    }
    for code in 0u32..0x3100 {
        if let Some(c) = char::from_u32(code) {
            assert_eq!(is_whitespace(c), c.is_whitespace(), "char {:?}", c);
        }
    }
}

#[test]
fn trim_end_drops_trailing_whitespace() {
    assert_eq!(trim_end("test\n\n"), "test");
    assert_eq!(trim_end("  a b \t\r\n"), "  a b");
    assert_eq!(trim_end(""), "");
    assert_eq!(trim_end(" \n"), "");
    assert_eq!(trim_end("x\u{3000}"), "x");
}

#[test]
fn lines_agree_with_str_lines() {
    for text in ["", "\n", "a", "a\n", "a\r\n", "a\r", "a\rb\r\n", "\r\n\r\n", "x\n\ny", "one\r\ntwo\nthree\r"] {
        let expected: Vec<String> = text.lines().map(String::from).collect();
        assert_eq!(lines(text), expected, "text {text:?}");
    }
}
