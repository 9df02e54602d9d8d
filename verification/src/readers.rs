//! Reading field definitions from tabular data: the columns are found by their
//! header, every row is validated in order, and the first row that fails ends the
//! reading.

use vstd::prelude::*;
use vstd::string::StringExecFns;
use vstd::string::StrSliceExecFns;
use crate::csv_source::{
    csv_header, csv_records, read_header, read_records, record_model, records_model,
};
use crate::error::{
    CustomError, CustomErrorView, FieldError, FieldErrorKind, FieldErrorKindView, FieldErrorView,
};
use crate::field::{Field, FieldView};
use crate::number::parse_u8;
use crate::rules::{
    check_input_type, check_label, check_name, check_options, check_type_id, input_type_verdict,
    label_verdict, lemma_accepted_row_is_valid, name_verdict, options_verdict, required_verdict,
    row_verdict, type_id_verdict,
};
use crate::text::{is_all_alphanumeric, lemma_blank_iff_trimmed_empty, same_text, trim};

verus! {

/// Where the five columns stand in a row.
#[derive(Debug, PartialEq, Eq)]
pub struct FieldPositions {
    pub name: usize,
    pub label: usize,
    pub type_id: usize,
    pub input_type_id: usize,
    pub options: usize,
}

/// Reads field definitions from CSV data.
pub struct CsvReader;

/// A refusal of a cell as the error of its row.
pub open spec fn at_row<T>(verdict: Result<T, FieldErrorKindView>, row: nat) -> Result<
    T,
    CustomErrorView,
> {
    match verdict {
        Ok(value) => Ok(value),
        Err(error) => Err(CustomErrorView::FieldError(FieldErrorView { row, error })),
    }
}

/// A result that holds a text, as plain values.
pub open spec fn text_result_view(result: Result<String, CustomError>) -> Result<
    Seq<char>,
    CustomErrorView,
> {
    match result {
        Ok(text) => Ok(text@),
        Err(e) => Err(e@),
    }
}

/// A result that holds a number, as plain values.
pub open spec fn number_result_view(result: Result<u8, CustomError>) -> Result<
    u8,
    CustomErrorView,
> {
    match result {
        Ok(value) => Ok(value),
        Err(e) => Err(e@),
    }
}

/// A result that holds a field, as plain values.
pub open spec fn field_result_view(result: Result<Field, CustomError>) -> Result<
    FieldView,
    CustomErrorView,
> {
    match result {
        Ok(field) => Ok(field@),
        Err(e) => Err(e@),
    }
}

/// Fields as plain values.
pub open spec fn fields_view(fields: Seq<Field>) -> Seq<FieldView> {
    fields.map_values(|field: Field| field@)
}

/// A result that holds fields, as plain values; the words of a CSV error are left out.
pub open spec fn fields_result_view(result: Result<Vec<Field>, CustomError>) -> Result<
    Seq<FieldView>,
    CustomErrorView,
> {
    match result {
        Ok(fields) => Ok(fields_view(fields@)),
        Err(e) => Err(e@.without_csv_text()),
    }
}

/// The first of the five columns that the header lacks, if it lacks any.
pub open spec fn missing_column(header: Seq<Seq<char>>) -> Option<Seq<char>> {
    if !header.contains("name"@) {
        Some("name"@)
    } else if !header.contains("label"@) {
        Some("label"@)
    } else if !header.contains("type_id"@) {
        Some("type_id"@)
    } else if !header.contains("input_type_id"@) {
        Some("input_type_id"@)
    } else if !header.contains("options"@) {
        Some("options"@)
    } else {
        None
    }
}

/// Where `column` first stands in the header.
pub open spec fn column_position(header: Seq<Seq<char>>, column: Seq<char>) -> int {
    header.index_of_first(column).unwrap()
}

/// The positions are those of the five columns in `header`, each where its name
/// first stands.
pub open spec fn positions_of(header: Seq<Seq<char>>, positions: FieldPositions) -> bool {
    &&& positions.name == column_position(header, "name"@)
    &&& positions.label == column_position(header, "label"@)
    &&& positions.type_id == column_position(header, "type_id"@)
    &&& positions.input_type_id == column_position(header, "input_type_id"@)
    &&& positions.options == column_position(header, "options"@)
}

/// The verdict on one row of cells, read by the header: the row's field, or its error
/// with the row's index.
pub open spec fn record_verdict(header: Seq<Seq<char>>, record: Seq<Seq<char>>, row: nat) -> Result<
    FieldView,
    CustomErrorView,
> {
    at_row(
        row_verdict(
            record[column_position(header, "name"@)],
            record[column_position(header, "label"@)],
            record[column_position(header, "type_id"@)],
            record[column_position(header, "input_type_id"@)],
            record[column_position(header, "options"@)],
        ),
        row,
    )
}

/// The verdict on rows in order: all their fields, or the error of the first row that
/// has one. A row that could not be read is a CSV error, here without its words.
pub open spec fn records_verdict(
    header: Seq<Seq<char>>,
    records: Seq<Option<Seq<Seq<char>>>>,
) -> Result<Seq<FieldView>, CustomErrorView>
    decreases records.len(),
{
    if records.len() == 0 {
        Ok(Seq::empty())
    } else {
        match records_verdict(header, records.drop_last()) {
            Err(e) => Err(e),
            Ok(fields) => match records.last() {
                None => Err(CustomErrorView::CsvError(Seq::empty())),
                Some(record) => match record_verdict(
                    header,
                    record,
                    (records.len() - 1) as nat,
                ) {
                    Err(e) => Err(e),
                    Ok(field) => Ok(fields.push(field)),
                },
            },
        }
    }
}

/// The verdict on a table: the header must be readable and hold the five columns,
/// then the rows decide. A header that could not be read is a CSV error, here without
/// its words.
pub open spec fn table_verdict(
    header: Option<Seq<Seq<char>>>,
    records: Seq<Option<Seq<Seq<char>>>>,
) -> Result<Seq<FieldView>, CustomErrorView> {
    match header {
        None => Err(CustomErrorView::CsvError(Seq::empty())),
        Some(cells) => match missing_column(cells) {
            Some(column) => Err(CustomErrorView::MissingColumn(column)),
            None => records_verdict(cells, records),
        },
    }
}

/// Every row that was read has a cell for every column of the header.
pub open spec fn rows_fit_header(
    header: Seq<Seq<char>>,
    records: Seq<Option<Seq<Seq<char>>>>,
) -> bool {
    forall|i: int|
        0 <= i < records.len() && (#[trigger] records[i]) is Some ==> records[i]->Some_0.len()
            == header.len()
}

/// Where `column` first stands among `cells`, if it does.
fn find_column(cells: &Vec<String>, column: &str) -> (position: Option<usize>)
    ensures
        match position {
            Some(i) => cells.deep_view().contains(column@) && i == column_position(
                cells.deep_view(),
                column@,
            ) && i < cells.len(),
            None => !cells.deep_view().contains(column@),
        },
{
    let ghost header = cells.deep_view();
    let mut i: usize = 0;
    while i < cells.len()
        invariant
            header == cells.deep_view(),
            i <= cells.len(),
            forall|j: int| 0 <= j < i ==> header[j] != column@,
        decreases cells.len() - i,
    {
        if same_text(cells[i].as_str(), column) {
            proof {
                assert(header[i as int] == column@);
                header.index_of_first_ensures(column@);
            }
            return Some(i);
        }
        i = i + 1;
    }
    proof {
        header.index_of_first_ensures(column@);
    }
    None
}

impl CsvReader {
    /// A reader.
    pub fn new() -> (reader: CsvReader) {
        CsvReader
    }

    /// Finds the five columns in the header. The column that is missing is reported;
    /// of several, the first in the order name, label, type_id, input_type_id,
    /// options.
    pub fn get_field_positions(&self, headers: &Vec<String>) -> (result: Result<
        FieldPositions,
        CustomError,
    >)
        ensures
            match result {
                Ok(positions) => missing_column(headers.deep_view()) is None && positions_of(
                    headers.deep_view(),
                    positions,
                ) && positions.name < headers.len() && positions.label < headers.len()
                    && positions.type_id < headers.len() && positions.input_type_id
                    < headers.len() && positions.options < headers.len(),
                Err(e) => missing_column(headers.deep_view()) matches Some(column) && e@
                    == CustomErrorView::MissingColumn(column),
            },
    {
        let name = match find_column(headers, "name") {
            Some(i) => i,
            None => { return Err(CustomError::MissingColumn(String::from_str("name"))); },
        };
        let label = match find_column(headers, "label") {
            Some(i) => i,
            None => { return Err(CustomError::MissingColumn(String::from_str("label"))); },
        };
        let type_id = match find_column(headers, "type_id") {
            Some(i) => i,
            None => { return Err(CustomError::MissingColumn(String::from_str("type_id"))); },
        };
        let input_type_id = match find_column(headers, "input_type_id") {
            Some(i) => i,
            None => { return Err(CustomError::MissingColumn(String::from_str("input_type_id"))); },
        };
        let options = match find_column(headers, "options") {
            Some(i) => i,
            None => { return Err(CustomError::MissingColumn(String::from_str("options"))); },
        };
        Ok(FieldPositions { name, label, type_id, input_type_id, options })
    }

    /// The error of a row.
    pub fn field_error(&self, row: usize, error: FieldErrorKind) -> (e: CustomError)
        ensures
            e@ == CustomErrorView::FieldError(FieldErrorView { row: row as nat, error: error@ }),
    {
        CustomError::FieldError(FieldError { row, error })
    }

    /// What is left of a required value after trimming; nothing left is an error that
    /// names the field.
    pub fn validate_required_field(&self, value: &str, field_name: &str, row: usize) -> (result:
        Result<String, CustomError>)
        ensures
            text_result_view(result) == at_row(required_verdict(value@, field_name@), row as nat),
    {
        let trimmed = trim(value);
        if trimmed.unicode_len() == 0 {
            let name = String::from_str(field_name);
            Err(self.field_error(row, FieldErrorKind::RequiredFieldEmpty(name)))
        } else {
            Ok(String::from_str(trimmed))
        }
    }

    /// The trimmed name, which must not be empty and must be alphanumeric throughout.
    pub fn validate_field_name(&self, name: &str, row: usize) -> (result: Result<
        String,
        CustomError,
    >)
        ensures
            text_result_view(result) == at_row(name_verdict(name@), row as nat),
    {
        let trimmed = trim(name);
        let alphanumeric = is_all_alphanumeric(trimmed);
        match check_name(trimmed, alphanumeric) {
            Ok(accepted) => Ok(accepted),
            Err(refusal) => Err(self.field_error(row, refusal)),
        }
    }

    /// The trimmed label. A label of exactly one space is an invalid label; any other
    /// label of which trimming leaves nothing is an empty required field.
    pub fn validate_label(&self, label: &str, row: usize) -> (result: Result<String, CustomError>)
        ensures
            text_result_view(result) == at_row(label_verdict(label@), row as nat),
    {
        let trimmed = trim(label);
        match check_label(label, trimmed) {
            Ok(accepted) => Ok(accepted),
            Err(refusal) => Err(self.field_error(row, refusal)),
        }
    }

    /// The type id, which must read as a `u8` and name a field type.
    pub fn validate_type_id(&self, type_id: &str, row: usize) -> (result: Result<u8, CustomError>)
        ensures
            number_result_view(result) == at_row(type_id_verdict(type_id@), row as nat),
    {
        match parse_u8(type_id) {
            None => Err(
                self.field_error(row, FieldErrorKind::ParseError(String::from_str("type_id"))),
            ),
            Some(value) => match check_type_id(value) {
                Ok(accepted) => Ok(accepted),
                Err(refusal) => Err(self.field_error(row, refusal)),
            },
        }
    }

    /// The input type, which must read as a `u8` and be one that the field type
    /// admits.
    pub fn validate_input_type(&self, input_type: &str, type_id: u8, row: usize) -> (result:
        Result<u8, CustomError>)
        ensures
            number_result_view(result) == at_row(
                input_type_verdict(input_type@, type_id),
                row as nat,
            ),
    {
        match parse_u8(input_type) {
            None => Err(
                self.field_error(
                    row,
                    FieldErrorKind::ParseError(String::from_str("input_type_id")),
                ),
            ),
            Some(value) => match check_input_type(type_id, value) {
                Ok(accepted) => Ok(accepted),
                Err(refusal) => Err(self.field_error(row, refusal)),
            },
        }
    }

    /// The options as they stand. The two selection types need options that are not
    /// blank; for every other type anything passes.
    pub fn validate_options(&self, options: &str, type_id: u8, row: usize) -> (result: Result<
        String,
        CustomError,
    >)
        ensures
            text_result_view(result) == at_row(options_verdict(options@, type_id), row as nat),
    {
        let blank = trim(options).unicode_len() == 0;
        proof {
            lemma_blank_iff_trimmed_empty(options@);
        }
        match check_options(options, blank, type_id) {
            Ok(accepted) => Ok(accepted),
            Err(refusal) => Err(self.field_error(row, refusal)),
        }
    }

    /// Validates the five cells of a row and makes its field. The type id is judged
    /// first, then name, label, input type and options; the first refusal is the
    /// error, with the row's index.
    pub fn validate_row(
        &self,
        name: &str,
        label: &str,
        type_id: &str,
        input_type_id: &str,
        options: &str,
        row: usize,
    ) -> (result: Result<Field, CustomError>)
        ensures
            field_result_view(result) == at_row(
                row_verdict(name@, label@, type_id@, input_type_id@, options@),
                row as nat,
            ),
    {
        let field_type = match self.validate_type_id(type_id, row) {
            Ok(value) => value,
            Err(e) => { return Err(e); },
        };
        let field_name = match self.validate_field_name(name, row) {
            Ok(value) => value,
            Err(e) => { return Err(e); },
        };
        let field_label = match self.validate_label(label, row) {
            Ok(value) => value,
            Err(e) => { return Err(e); },
        };
        let input_type = match self.validate_input_type(input_type_id, field_type, row) {
            Ok(value) => value,
            Err(e) => { return Err(e); },
        };
        let field_options = match self.validate_options(options, field_type, row) {
            Ok(value) => value,
            Err(e) => { return Err(e); },
        };
        proof {
            lemma_accepted_row_is_valid(name@, label@, type_id@, input_type_id@, options@);
        }
        Ok(Field::new(field_name, field_label, field_type, input_type, field_options))
    }

    /// Validates rows that were read from a table with the given header, in order, and
    /// stops at the first that fails: a row that could not be read, or one with a
    /// cell that breaks a rule.
    pub fn fields_from_records(
        &self,
        headers: &Vec<String>,
        records: Vec<std::result::Result<Vec<String>, csv::Error>>,
    ) -> (result: Result<Vec<Field>, CustomError>)
        requires
            rows_fit_header(headers.deep_view(), records_model(records@)),
        ensures
            fields_result_view(result) == table_verdict(
                Some(headers.deep_view()),
                records_model(records@),
            ),
    {
        let positions = match self.get_field_positions(headers) {
            Ok(positions) => positions,
            Err(e) => { return Err(e); },
        };
        let ghost header = headers.deep_view();
        let ghost rows = records_model(records@);
        let count = records.len();
        let mut fields: Vec<Field> = Vec::new();
        let mut row: usize = 0;
        assert(fields_view(fields@) =~= Seq::empty());
        for record in it: records
            invariant
                header == headers.deep_view(),
                rows == records_model(it.seq()),
                count == it.seq().len(),
                row == it.index(),
                rows_fit_header(header, rows),
                missing_column(header) is None,
                positions_of(header, positions),
                positions.name < header.len(),
                positions.label < header.len(),
                positions.type_id < header.len(),
                positions.input_type_id < header.len(),
                positions.options < header.len(),
                records_verdict(header, rows.take(row as int)) == Ok::<
                    Seq<FieldView>,
                    CustomErrorView,
                >(fields_view(fields@)),
        {
            assert(rows.take(row + 1).drop_last() =~= rows.take(row as int));
            match record {
                Err(e) => {
                    proof {
                        lemma_first_failure_stays(header, rows, row + 1);
                    }
                    return Err(CustomError::from_csv(&e));
                },
                Ok(cells) => {
                    match self.validate_row(
                        cells[positions.name].as_str(),
                        cells[positions.label].as_str(),
                        cells[positions.type_id].as_str(),
                        cells[positions.input_type_id].as_str(),
                        cells[positions.options].as_str(),
                        row,
                    ) {
                        Err(e) => {
                            proof {
                                lemma_first_failure_stays(header, rows, row + 1);
                            }
                            return Err(e);
                        },
                        Ok(field) => {
                            let ghost before = fields_view(fields@);
                            fields.push(field);
                            assert(fields_view(fields@) =~= before.push(field@));
                        },
                    }
                },
            }
            row = row + 1;
        }
        assert(rows.take(row as int) =~= rows);
        Ok(fields)
    }

    /// Reads field definitions from CSV data: a header row that names the five
    /// columns, then one row for each field. The fields come in the order of the
    /// rows. The first row that fails ends the reading with its error, and no field is
    /// returned.
    pub fn read_fields(&self, data: &[u8]) -> (result: Result<Vec<Field>, CustomError>)
        ensures
            fields_result_view(result) == table_verdict(csv_header(data@), csv_records(data@)),
    {
        let headers = match read_header(data) {
            Ok(headers) => headers,
            Err(e) => { return Err(CustomError::from_csv(&e)); },
        };
        let records = read_records(data);
        assert(rows_fit_header(headers.deep_view(), records_model(records@)));
        self.fields_from_records(&headers, records)
    }
}

/// Once the rows up to some point have an error, the rest does not change it.
pub proof fn lemma_first_failure_stays(
    header: Seq<Seq<char>>,
    records: Seq<Option<Seq<Seq<char>>>>,
    k: int,
)
    requires
        0 <= k <= records.len(),
        records_verdict(header, records.take(k)) is Err,
    ensures
        records_verdict(header, records) == records_verdict(header, records.take(k)),
    decreases records.len() - k,
{
    if k == records.len() {
        assert(records.take(k) =~= records);
    } else {
        assert(records.drop_last().take(k) =~= records.take(k));
        lemma_first_failure_stays(header, records.drop_last(), k);
    }
}

} // verus!
