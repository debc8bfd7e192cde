use smop::path::{expand, expanded_or_input, has_executable_extension, is_executable_mode};

#[test]
fn expand_preserves_regular_paths() {
    let path = "/regular/path/no/expansion";
    let expanded = expand(path);
    assert_eq!(expanded, path.to_string());
}

#[test]
fn expand_resolves_tilde() {
    let expanded = expand("~/test");
    assert!(!expanded.starts_with('~'), "Tilde should be expanded: {expanded}");
}

#[test]
fn expansion_failure_keeps_input() {
    assert_eq!(expanded_or_input(None, "$X/y"), "$X/y");
    assert_eq!(expanded_or_input(Some("/a/y".to_string()), "$X/y"), "/a/y");
}

#[test]
fn executable_mode_bits() {
    assert!(!is_executable_mode(0o644));
    assert!(is_executable_mode(0o755));
    assert!(is_executable_mode(0o001));
    assert!(is_executable_mode(0o100755));
}

#[test]
fn executable_extensions_ignore_case() {
    assert!(has_executable_extension(Some("exe")));
    assert!(has_executable_extension(Some("BAT")));
    assert!(has_executable_extension(Some("Cmd")));
    assert!(has_executable_extension(Some("com")));
    assert!(has_executable_extension(Some("PS1")));
    assert!(!has_executable_extension(Some("txt")));
    assert!(!has_executable_extension(None));
}

#[test]
fn is_executable_detects_unix_permissions() {
    // A file written with the usual umask, then given execute permission.
    assert_eq!(is_executable_mode(0o100644), false);
    assert_eq!(is_executable_mode(0o100755), true);
}

#[test]
fn is_executable_detects_windows_extensions() {
    let extension = |name: &str| std::path::Path::new(name).extension().and_then(|e| e.to_str()).map(String::from);
    for (name, expected) in [("test.exe", true), ("test.bat", true), ("test.cmd", true), ("test.txt", false)] {
        let ext = extension(name);
        assert_eq!(has_executable_extension(ext.as_deref()), expected, "{name}");
    }
}

#[test]
fn tilde_expansion_keeps_the_rest_of_the_path() {
    let expanded = expand("~/docs/notes.txt");
    assert!(expanded == "~/docs/notes.txt" || expanded.ends_with("/docs/notes.txt"));
    assert_eq!(expand("~otheruser/x"), "~otheruser/x");
}
