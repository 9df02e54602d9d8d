use field_import::error::{CustomError, FieldError, FieldErrorKind};
use field_import::readers::{CsvReader, FieldPositions};

fn header(cells: &[&str]) -> Vec<String> {
    cells.iter().map(|cell| cell.to_string()).collect()
}

#[test]
fn reads_fields_in_the_order_of_the_rows() {
    let data = "name,label,type_id,input_type_id,options\n\
                age,Age,0,1,\n\
                color,Colour,2,0,\"red,green\"\n\
                notes, Notes ,1,0,\n";
    let fields = CsvReader::new().read_fields(data.as_bytes()).unwrap();
    assert_eq!(fields.len(), 3);
    assert_eq!(fields[0].name(), "age");
    assert_eq!(fields[0].label(), "Age");
    assert_eq!(fields[0].type_id(), 0);
    assert_eq!(fields[0].input_type_id(), 1);
    assert_eq!(fields[0].options(), "");
    assert_eq!(fields[1].name(), "color");
    assert_eq!(fields[1].type_id(), 2);
    assert_eq!(fields[1].options(), "red,green");
    assert_eq!(fields[2].label(), "Notes");
    assert_eq!(fields[2].type_id(), 1);
}

#[test]
fn columns_are_found_by_their_header_in_any_order() {
    let data = "options,extra,type_id,label,input_type_id,name\n\
                \"a,b\",ignored,3,Choice,0,choice\n";
    let fields = CsvReader::new().read_fields(data.as_bytes()).unwrap();
    assert_eq!(fields.len(), 1);
    assert_eq!(fields[0].name(), "choice");
    assert_eq!(fields[0].label(), "Choice");
    assert_eq!(fields[0].type_id(), 3);
    assert_eq!(fields[0].input_type_id(), 0);
    assert_eq!(fields[0].options(), "a,b");
}

#[test]
fn a_header_without_rows_gives_no_fields() {
    let data = "name,label,type_id,input_type_id,options\n";
    assert_eq!(CsvReader::new().read_fields(data.as_bytes()).unwrap().len(), 0);
}

#[test]
fn a_missing_column_is_reported_before_any_row_is_read() {
    let data = "name,label,type_id,options\nage,Age,99,\n";
    assert_eq!(
        CsvReader::new().read_fields(data.as_bytes()).unwrap_err(),
        CustomError::MissingColumn("input_type_id".to_string())
    );
}

#[test]
fn of_several_missing_columns_the_first_is_reported() {
    let reader = CsvReader::new();
    assert_eq!(
        reader.read_fields(b"").unwrap_err(),
        CustomError::MissingColumn("name".to_string())
    );
    assert_eq!(
        reader.get_field_positions(&header(&["name", "options"])).unwrap_err(),
        CustomError::MissingColumn("label".to_string())
    );
    assert_eq!(
        reader.get_field_positions(&header(&["label", "name", "input_type_id"])).unwrap_err(),
        CustomError::MissingColumn("type_id".to_string())
    );
    assert_eq!(
        reader.get_field_positions(&header(&["label", "name", "input_type_id", "type_id"]))
            .unwrap_err(),
        CustomError::MissingColumn("options".to_string())
    );
    assert_eq!(
        reader.get_field_positions(&header(&["Name", "label", "type_id", "input_type_id", "options"]))
            .unwrap_err(),
        CustomError::MissingColumn("name".to_string())
    );
}

#[test]
fn positions_are_those_of_the_first_occurrence() {
    let reader = CsvReader::new();
    let positions = reader
        .get_field_positions(&header(&[
            "x", "label", "name", "name", "options", "type_id", "input_type_id", "label",
        ]))
        .unwrap();
    assert_eq!(
        positions,
        FieldPositions { name: 2, label: 1, type_id: 5, input_type_id: 6, options: 4 }
    );
}

#[test]
fn the_first_invalid_row_ends_the_reading() {
    let data = "name,label,type_id,input_type_id,options\n\
                age,Age,0,1,\n\
                bad name,Bad,0,0,\n\
                worse,,77,0,\n";
    assert_eq!(
        CsvReader::new().read_fields(data.as_bytes()).unwrap_err(),
        CustomError::FieldError(FieldError {
            row: 1,
            error: FieldErrorKind::InvalidFieldName("bad name".to_string()),
        })
    );
}

#[test]
fn the_row_of_an_error_counts_from_zero_below_the_header() {
    let data = "name,label,type_id,input_type_id,options\n\
                a,A,0,0,\n\
                b,B,0,0,\n\
                c,C,12,0,\n";
    let error = CsvReader::new().read_fields(data.as_bytes()).unwrap_err();
    assert_eq!(
        error,
        CustomError::FieldError(FieldError {
            row: 2,
            error: FieldErrorKind::InvalidTypeId("12".to_string()),
        })
    );
    assert!(error.message().starts_with("Error in row 4: Invalid type_id: 12."));
}

#[test]
fn a_row_of_another_length_is_a_csv_error() {
    let data = "name,label,type_id,input_type_id,options\n\
                a,A,0,0,\n\
                b,B,0\n";
    let error = CsvReader::new().read_fields(data.as_bytes()).unwrap_err();
    match &error {
        CustomError::CsvError(text) => assert!(!text.is_empty()),
        other => panic!("{:?}", other),
    }
    assert!(error.message().starts_with("CSV error: "));
    assert!(error.message().len() > "CSV error: ".len());
}

#[test]
fn an_invalid_row_before_an_unreadable_one_is_reported() {
    let data = "name,label,type_id,input_type_id,options\n\
                a,A,0,9,\n\
                b,B,0\n";
    assert!(matches!(
        CsvReader::new().read_fields(data.as_bytes()).unwrap_err(),
        CustomError::FieldError(FieldError { row: 0, error: FieldErrorKind::InvalidInputType(_) })
    ));
}

#[test]
fn data_that_is_not_utf8_is_a_csv_error() {
    let reader = CsvReader::new();
    let mut data = b"name,label,type_id,input_type_id,options\na,".to_vec();
    data.extend_from_slice(&[0xff, 0xfe]);
    data.extend_from_slice(b",0,0,\n");
    assert!(matches!(reader.read_fields(&data).unwrap_err(), CustomError::CsvError(_)));
    let mut bad_header = vec![0xffu8, 0xfe];
    bad_header.extend_from_slice(b",label,type_id,input_type_id,options\na,A,0,0,\n");
    assert!(matches!(reader.read_fields(&bad_header).unwrap_err(), CustomError::CsvError(_)));
}

#[test]
fn quoted_cells_keep_their_commas_and_spaces() {
    let data = "name,label,type_id,input_type_id,options\n\
                \" age \",\"Age, in years\",2,1,\" a , b \"\n";
    let fields = CsvReader::new().read_fields(data.as_bytes()).unwrap();
    assert_eq!(fields[0].name(), "age");
    assert_eq!(fields[0].label(), "Age, in years");
    assert_eq!(fields[0].options(), " a , b ");
}

#[test]
fn rows_that_were_read_are_validated_in_order() {
    let reader = CsvReader::new();
    let headers = header(&["name", "label", "type_id", "input_type_id", "options"]);
    let records = vec![
        Ok(header(&["a", "A", "0", "0", ""])),
        Ok(header(&["b", "B", "4", "1", ""])),
    ];
    let fields = reader.fields_from_records(&headers, records).unwrap();
    assert_eq!(fields.len(), 2);
    assert_eq!(fields[1].name(), "b");
    assert_eq!(fields[1].input_type_id(), 1);
    let records = vec![
        Ok(header(&["a", "A", "0", "0", ""])),
        Ok(header(&["b", " ", "4", "1", ""])),
        Ok(header(&["", "", "", "", ""])),
    ];
    assert_eq!(
        reader.fields_from_records(&headers, records).unwrap_err(),
        CustomError::FieldError(FieldError {
            row: 1,
            error: FieldErrorKind::InvalidLabel("Label cannot be a single space".to_string()),
        })
    );
}

#[test]
fn a_row_that_could_not_be_read_ends_the_reading_with_its_words() {
    let reader = CsvReader::new();
    let headers = header(&["name", "label", "type_id", "input_type_id", "options"]);
    let broken = std::io::Error::new(std::io::ErrorKind::Other, "disk on fire");
    let records = vec![
        Ok(header(&["a", "A", "0", "0", ""])),
        Err(csv::Error::from(broken)),
        Ok(header(&["b", "B", "99", "0", ""])),
    ];
    match reader.fields_from_records(&headers, records).unwrap_err() {
        CustomError::CsvError(text) => assert!(text.contains("disk on fire"), "{:?}", text),
        other => panic!("{:?}", other),
    }
    let source = csv::Error::from(std::io::Error::new(std::io::ErrorKind::Other, "gone"));
    let shown = format!("{}", source);
    assert_eq!(CustomError::from_csv(&source), CustomError::CsvError(shown.clone()));
    assert_eq!(CustomError::from_csv(&source).message(), format!("CSV error: {}", shown));
}
