use smop::retry::{exhausted_message, RetryCounter};

#[test]
fn retry_counter_allows_max_attempts() {
    let mut c = RetryCounter::start(3);
    assert_eq!(c.attempts_made(), 1);
    assert!(c.after_failure());
    assert!(c.after_failure());
    assert_eq!(c.attempts_made(), 3);
    assert!(!c.after_failure());
    assert_eq!(c.attempts_made(), 3);
}

#[test]
fn retry_counter_makes_one_attempt_when_none_allowed() {
    let mut c = RetryCounter::start(0);
    assert!(!c.after_failure());
    assert_eq!(c.attempts_made(), 1);
}

#[test]
fn exhausted_message_counts_attempts() {
    assert_eq!(exhausted_message(3), "Operation failed after 3 attempts");
    assert_eq!(exhausted_message(10), "Operation failed after 10 attempts");
}
