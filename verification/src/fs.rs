//! Reading the contents of files: lines and CSV rows. Reading and writing
//! the files themselves is left to the caller.
use vstd::prelude::*;

use crate::text::{lines, spec_lines};

verus! {

/// The lines of a file's contents: empty lines are kept, line endings
/// (`\n` or `\r\n`) are dropped, and a final line ending adds no empty line.
pub fn read_lines(content: &str) -> (r: Vec<String>)
    ensures
        r.deep_view() == spec_lines(content@),
{
    lines(content)
}

/// The rows that the csv crate reads from `data` with no header row and its
/// other settings at their defaults, each row as its fields' characters;
/// `None` when the csv crate reports an error for the data.
pub uninterp spec fn csv_rows(data: Seq<u8>) -> Option<Seq<Seq<Seq<char>>>>;

/// Calls csv's `ReaderBuilder::new().has_headers(false).from_reader(data)`
/// and collects every record as its fields, failing on the first record the
/// crate reports an error for (malformed data, fields that are not UTF-8,
/// or rows of unequal length). The contract names the outcome `csv_rows` of
/// the bytes; how the crate splits fields and quotes is not stated.
#[verifier::external_body]
fn parse_csv_rows(data: &[u8]) -> (r: Option<Vec<Vec<String>>>)
    ensures
        match r {
            Some(rows) => csv_rows(data@) == Some(rows.deep_view()),
            None => csv_rows(data@) is None,
        },
{
    let mut reader = csv::ReaderBuilder::new().has_headers(false).from_reader(data);
    reader.records().map(|record| record.map(|row| row.iter().map(String::from).collect())).collect::<Result<
        Vec<Vec<String>>,
        csv::Error,
    >>().ok()
}

/// Every row of CSV data, the first one included (it is not taken as a
/// header): the rows that the csv crate reads from `data`, or `None` when
/// the data is not valid CSV.
pub fn read_csv_rows(data: &[u8]) -> (r: Option<Vec<Vec<String>>>)
    ensures
        match r {
            Some(rows) => csv_rows(data@) == Some(rows.deep_view()),
            None => csv_rows(data@) is None,
        },
{
    parse_csv_rows(data)
}

} // verus!
