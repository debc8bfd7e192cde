use std::str::FromStr;

use smop::env::{require_vars, var, var_or, EnvError, VarLookup};

/// What looking up a variable whose value is `value` (or that is unset) gives.
fn lookup<T: FromStr>(value: Option<&str>) -> VarLookup<T> {
    match value {
        None => VarLookup::NotSet,
        Some(text) => match text.parse() {
            Ok(parsed) => VarLookup::Parsed(parsed),
            Err(_) => VarLookup::Unparsable,
        },
    }
}

#[test]
fn var_reads_and_parses_existing_env_var() {
    let value: i32 = var("SCRIPTKIT_TEST_INT", lookup(Some("42"))).unwrap();
    assert_eq!(value, 42);
}

#[test]
fn var_reads_string() {
    let value: String = var("SCRIPTKIT_TEST_STR", lookup(Some("hello"))).unwrap();
    assert_eq!(value, "hello");
}

#[test]
fn var_fails_on_missing() {
    let result: Result<String, EnvError> = var("SCRIPTKIT_MISSING_VAR", lookup(None));
    assert!(result.is_err());
}

#[test]
fn var_fails_on_parse_error() {
    let result: Result<i32, EnvError> = var("SCRIPTKIT_BAD_INT", lookup(Some("not_a_number")));
    assert!(result.is_err());
}

#[test]
fn var_or_returns_value_when_set() {
    let value: i32 = var_or(lookup(Some("100")), 50);
    assert_eq!(value, 100);
}

#[test]
fn var_or_returns_default_when_missing() {
    let value: i32 = var_or(lookup(None), 50);
    assert_eq!(value, 50);
}

#[test]
fn var_or_returns_default_on_parse_error() {
    let value: i32 = var_or(lookup(Some("not_a_number")), 99);
    assert_eq!(value, 99);
}

#[test]
fn require_vars_succeeds_when_all_present() {
    let result = require_vars(&[("SCRIPTKIT_REQ_A", true), ("SCRIPTKIT_REQ_B", true)]);
    assert!(result.is_ok());
}

#[test]
fn require_vars_fails_when_any_missing() {
    let result = require_vars(&[("SCRIPTKIT_REQ_C", true), ("SCRIPTKIT_MISSING_REQ", false)]);
    assert!(result.is_err());
    let err_msg = result.unwrap_err().message();
    assert!(err_msg.contains("SCRIPTKIT_MISSING_REQ"));
}

#[test]
fn var_errors_name_the_variable() {
    let missing: Result<i32, EnvError> = var("SCRIPTKIT_MISSING_VAR", VarLookup::NotSet);
    assert_eq!(missing.unwrap_err().message(), "Environment variable SCRIPTKIT_MISSING_VAR not set");
    let bad: Result<i32, EnvError> = var("SCRIPTKIT_BAD_INT", VarLookup::Unparsable);
    assert_eq!(bad.unwrap_err().message(), "Failed to parse environment variable SCRIPTKIT_BAD_INT");
}

#[test]
fn require_vars_lists_every_missing_var() {
    assert!(require_vars(&[]).is_ok());
    let err = require_vars(&[("A", false), ("B", true), ("C", false)]).unwrap_err();
    assert_eq!(err, EnvError::Missing { names: vec!["A".to_string(), "C".to_string()] });
    assert_eq!(err.message(), "Missing required environment variables: A, C");
}
