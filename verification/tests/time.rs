use smop::time::{parse, TimeError};

#[test]
fn parse_parses_datetime() {
    let dt = parse("2024-01-15 14:30:00", "%Y-%m-%d %H:%M:%S").unwrap();
    assert_eq!(dt.year(), 2024);
    assert_eq!(dt.month(), 1);
    assert_eq!(dt.day(), 15);
    assert_eq!(dt.hour(), 14);
    assert_eq!(dt.minute(), 30);
    assert_eq!(dt.second(), 0);
}

#[test]
fn parse_fails_on_invalid_format() {
    let result = parse("2024-01-15", "%Y-%m-%d %H:%M:%S");
    assert!(result.is_err());
}

#[test]
fn parse_error_names_input_and_format() {
    let err = parse("nope", "%Y").unwrap_err();
    assert_eq!(err, TimeError::Parse { input: "nope".to_string(), format: "%Y".to_string() });
    assert_eq!(err.message(), "Failed to parse datetime 'nope' with format '%Y'");
}

#[test]
fn parse_reads_two_digit_years_and_subseconds() {
    let dt = parse("94/9/4 7:15", "%y/%m/%d %H:%M").unwrap();
    assert_eq!((dt.year(), dt.month(), dt.day(), dt.hour(), dt.minute(), dt.second()), (1994, 9, 4, 7, 15, 0));
    let dt = parse("2024-02-29 23:59:59.5", "%Y-%m-%d %H:%M:%S%.f").unwrap();
    assert_eq!(dt.nanosecond(), 500_000_000);
    assert!(parse("2023-02-29 00:00:00", "%Y-%m-%d %H:%M:%S").is_err());
}
