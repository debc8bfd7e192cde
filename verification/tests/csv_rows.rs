use smop::fs::read_csv_rows;

#[test]
fn read_csv_rows_returns_all_rows() {
    let rows = read_csv_rows(b"a,b,c\n1,2,3\n4,5,6").unwrap();
    assert_eq!(rows.len(), 3);
    assert_eq!(rows[0], vec!["a", "b", "c"]);
    assert_eq!(rows[1], vec!["1", "2", "3"]);
    assert_eq!(rows[2], vec!["4", "5", "6"]);
}

#[test]
fn read_csv_rows_handles_quotes_and_rejects_ragged_rows() {
    let rows = read_csv_rows(b"name,note\n\"Smith, J\",\"said \"\"hi\"\"\"\n").unwrap();
    assert_eq!(rows[1], vec!["Smith, J", "said \"hi\""]);
    assert_eq!(read_csv_rows(b""), Some(vec![]));
    assert_eq!(read_csv_rows(b"a,b\n1\n"), None);
    assert_eq!(read_csv_rows(b"\xff,\xfe\n"), None);
}
