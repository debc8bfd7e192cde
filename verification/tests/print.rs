use smop::print::table;

#[test]
fn table_formats_correctly() {
    let headers = &["Name", "Age"];
    let rows = vec![
        vec!["Alice".to_string(), "30".to_string()],
        vec!["Bob".to_string(), "25".to_string()],
    ];

    let output = table(headers, &rows);

    assert!(output.contains("Name"));
    assert!(output.contains("Age"));
    assert!(output.contains("Alice"));
    assert!(output.contains("30"));
    assert!(output.contains("Bob"));
    assert!(output.contains("25"));
}

#[test]
fn table_handles_empty_rows() {
    let headers = &["Col1", "Col2"];
    let rows: Vec<Vec<String>> = vec![];

    let output = table(headers, &rows);

    assert!(output.contains("Col1"));
    assert!(output.contains("Col2"));
}

#[test]
fn table_draws_box_borders() {
    let output = table(&["H"], &[vec!["v".to_string()]]);
    assert!(output.contains('│'));
    assert!(output.contains('┌'));
    assert!(!output.contains('|'));
    assert!(output.lines().count() >= 5);
}
