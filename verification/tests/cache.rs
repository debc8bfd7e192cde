use smop::cache::{cache_file_name, decide, is_fresh, to_lower_hex, CacheDecision};

#[test]
fn cache_file_name_is_sha256_hex() {
    assert_eq!(
        cache_file_name("test_key"),
        "92488e1e3eeecdf99f3ed2ce59233efb4b4fb612d5655c0ce9ea52b5a502e655.json"
    );
    assert_ne!(cache_file_name("key1"), cache_file_name("key2"));
}

#[test]
fn lower_hex_renders_two_digits_per_byte() {
    assert_eq!(to_lower_hex(&[0x0a, 0x14, 0x1e, 0xff, 0x00]), "0a141eff00");
    assert_eq!(to_lower_hex(&[]), "");
}

#[test]
fn freshness_and_decision() {
    assert!(is_fresh(Some(5), 10));
    assert!(!is_fresh(Some(10), 10));
    assert!(!is_fresh(None, 10));
    assert_eq!(decide(true, Some(1), 1000), CacheDecision::UseStored);
    assert_eq!(decide(false, Some(1), 1000), CacheDecision::Recompute);
    assert_eq!(decide(true, Some(2000), 1000), CacheDecision::Recompute);
    assert_eq!(decide(true, None, 1000), CacheDecision::Recompute);
}

/// One cache lookup, with the entry held in memory: `entry` is the stored
/// value and its age in nanoseconds.
fn lookup(entry: &mut Option<(i32, u128)>, ttl_nanos: u128, op: impl FnOnce() -> i32) -> i32 {
    let age = entry.map(|(_, age)| age);
    let stored = if is_fresh(age, ttl_nanos) { entry.map(|(value, _)| value) } else { None };
    match (decide(stored.is_some(), age, ttl_nanos), stored) {
        (CacheDecision::UseStored, Some(value)) => value,
        _ => {
            let value = op();
            *entry = Some((value, 0));
            value
        }
    }
}

#[test]
fn test_cache_hit_and_expiry() {
    let ttl = 1_000_000_000u128;
    let mut entry = None;

    // First run: execute op
    assert_eq!(lookup(&mut entry, ttl, || 1), 1);

    // Second run: should hit cache (op returns 2, but we get 1)
    assert_eq!(lookup(&mut entry, ttl, || 2), 1);

    // After 1100 ms the entry has expired: execute op (returns 3)
    if let Some((_, age)) = entry.as_mut() {
        *age += 1_100_000_000;
    }
    assert_eq!(lookup(&mut entry, ttl, || 3), 3);
}

#[test]
fn test_different_keys() {
    let ttl = 10_000_000_000u128;
    let mut entries: Vec<(String, Option<(i32, u128)>)> = vec![
        (cache_file_name("key1"), None),
        (cache_file_name("key2"), None),
    ];
    assert_ne!(entries[0].0, entries[1].0);
    let val1 = lookup(&mut entries[0].1, ttl, || 10);
    let val2 = lookup(&mut entries[1].1, ttl, || 20);
    assert_eq!(val1, 10);
    assert_eq!(val2, 20);
}
