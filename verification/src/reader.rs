//! The records of a comma-separated text, as the `csv` crate reads them.

use vstd::prelude::*;
use crate::text::texts;

verus! {

/// `csv::Error`, as the reader returns it. It is passed on unopened.
#[verifier::external_type_specification]
#[verifier::external_body]
pub struct ExCsvError(csv::Error);

/// The first record that the reader finds in `content`, or `None` where it
/// fails on it. A content without any record has an empty first record.
pub uninterp spec fn csv_first_record(content: Seq<u8>, has_headers: bool) -> Option<
    Seq<Seq<char>>,
>;

/// What the reader yields for `content`, item by item: the fields of a record,
/// or `None` where it fails. With `has_headers` the first record is left out.
pub uninterp spec fn csv_records(content: Seq<u8>, has_headers: bool) -> Seq<
    Option<Seq<Seq<char>>>,
>;

/// The fields of a record that was read, or `None` for a failure.
pub open spec fn record_view(record: Result<Vec<String>, csv::Error>) -> Option<Seq<Seq<char>>> {
    match record {
        Ok(fields) => Some(texts(fields@)),
        Err(_) => None,
    }
}

/// What a list of read results holds.
pub open spec fn record_views(records: Seq<Result<Vec<String>, csv::Error>>) -> Seq<
    Option<Seq<Seq<char>>>,
> {
    records.map_values(|r: Result<Vec<String>, csv::Error>| record_view(r))
}

/// Builds a `csv::Reader` over `content` with `csv::ReaderBuilder::has_headers`
/// set as given and calls `csv::Reader::headers`, which parses the first record
/// whatever the setting. The contract only names the result
/// `csv_first_record(content, has_headers)`.
#[verifier::external_body]
pub(crate) fn read_first_record(content: &[u8], has_headers: bool) -> (first: Result<
    Vec<String>,
    csv::Error,
>)
    ensures
        record_view(first) == csv_first_record(content@, has_headers),
{
    let mut reader = csv::ReaderBuilder::new().has_headers(has_headers).from_reader(content);
    let first = reader.headers()?;
    Ok(first.iter().map(String::from).collect())
}

/// Builds a `csv::Reader` over `content` with `csv::ReaderBuilder::has_headers`
/// set as given and collects what `csv::Reader::records` yields, failures
/// included. The contract only names the result
/// `csv_records(content, has_headers)`.
#[verifier::external_body]
pub(crate) fn read_records(content: &[u8], has_headers: bool) -> (records: Vec<
    Result<Vec<String>, csv::Error>,
>)
    ensures
        record_views(records@) == csv_records(content@, has_headers),
{
    let mut reader = csv::ReaderBuilder::new().has_headers(has_headers).from_reader(content);
    reader.records().map(|read| read.map(|record| record.iter().map(String::from).collect())).collect()
}

} // verus!
