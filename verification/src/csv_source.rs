//! The `csv` crate as this library uses it: tabular text in, rows of cells out.
//!
//! What the crate's reader makes of given bytes is named, not restated. The
//! functions here are believed, not proved; each says what it takes on trust.

use vstd::prelude::*;

verus! {

/// The error type of the `csv` crate. Nothing inside it is visible to proofs.
#[verifier::external_type_specification]
#[verifier::external_body]
pub struct ExCsvError(csv::Error);

/// The first row of `data` as the `csv` reader with its default settings yields it from
/// `headers`: `Some` of its cells, or `None` where that row is not valid UTF-8.
/// Data without any row has the empty header.
pub uninterp spec fn csv_header(data: Seq<u8>) -> Option<Seq<Seq<char>>>;

/// The rows after the first as the `csv` reader with its default settings yields them
/// from `records`, in order: `Some` of a row's cells, or `None` for a row that the reader
/// reports as an error.
pub uninterp spec fn csv_records(data: Seq<u8>) -> Seq<Option<Seq<Seq<char>>>>;

/// A header as plain values.
pub open spec fn header_model(header: Result<Vec<String>, csv::Error>) -> Option<Seq<Seq<char>>> {
    match header {
        Ok(cells) => Some(cells.deep_view()),
        Err(_) => None,
    }
}

/// A row as plain values.
pub open spec fn record_model(record: Result<Vec<String>, csv::Error>) -> Option<Seq<Seq<char>>> {
    match record {
        Ok(cells) => Some(cells.deep_view()),
        Err(_) => None,
    }
}

/// Rows as plain values.
pub open spec fn records_model(records: Seq<Result<Vec<String>, csv::Error>>) -> Seq<
    Option<Seq<Seq<char>>>,
> {
    records.map_values(|record: Result<Vec<String>, csv::Error>| record_model(record))
}

/// Calls `csv::Reader::headers` on a reader over `data`. Believed: the outcome is a
/// function of the bytes alone, named [`csv_header`].
#[verifier::external_body]
pub(crate) fn read_header(data: &[u8]) -> (header: Result<Vec<String>, csv::Error>)
    ensures
        header_model(header) == csv_header(data@),
{
    let mut reader = csv::Reader::from_reader(data);
    let header = reader.headers()?;
    Ok(header.iter().map(|cell| cell.to_string()).collect())
}

/// Calls `csv::Reader::records` on a reader over `data` and collects what it yields.
/// Believed: the outcome is a function of the bytes alone, named [`csv_records`]; and,
/// as the reader is not flexible, a row that it accepts has as many cells as the first
/// row of the data.
#[verifier::external_body]
pub(crate) fn read_records(data: &[u8]) -> (records: Vec<Result<Vec<String>, csv::Error>>)
    ensures
        records_model(records@) == csv_records(data@),
        forall|i: int|
            0 <= i < records.len() && csv_header(data@) is Some && (#[trigger] records[i]) is Ok
                ==> records[i]->Ok_0.len() == csv_header(data@)->Some_0.len(),
{
    let mut reader = csv::Reader::from_reader(data);
    reader
        .records()
        .map(|row| row.map(|cells| cells.iter().map(|cell| cell.to_string()).collect()))
        .collect()
}

/// Calls `to_string` on a `csv::Error`. Nothing is claimed about the text.
#[verifier::external_body]
pub(crate) fn csv_error_text(error: &csv::Error) -> (text: String) {
    error.to_string()
}

} // verus!
