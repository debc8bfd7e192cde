use smop::experimental::download::content_length;
use smop::text::parse_u64;

#[test]
fn parse_u64_accepts_what_str_parse_accepts() {
    for s in ["0", "7", "007", "+42", "18446744073709551615", "", "+", "-1", "12a", " 1", "18446744073709551616", "++1"] {
        assert_eq!(parse_u64(s), s.parse::<u64>().ok(), "input {s:?}");
    }
    assert_eq!(parse_u64("+42"), Some(42));
    assert_eq!(parse_u64("99999999999999999999"), None);
}

#[test]
fn content_length_reads_header_value() {
    assert_eq!(content_length(Some("1024")), Some(1024));
    assert_eq!(content_length(Some("unknown")), None);
    assert_eq!(content_length(None), None);
}
