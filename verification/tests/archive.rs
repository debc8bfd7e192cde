use smop::archive::{entry_name, is_directory_entry};

#[test]
fn entry_name_skips_root_and_normalizes_separators() {
    assert_eq!(entry_name(""), None);
    assert_eq!(entry_name("a\\b\\c.txt"), Some("a/b/c.txt".to_string()));
    assert_eq!(entry_name("plain.txt"), Some("plain.txt".to_string()));
}

#[test]
fn directory_entries_end_with_slash() {
    assert!(is_directory_entry("dir/"));
    assert!(is_directory_entry("a/b/"));
    assert!(!is_directory_entry("a/b.txt"));
    assert!(!is_directory_entry(""));
}
