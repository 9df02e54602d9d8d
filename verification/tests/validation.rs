use field_import::error::{CustomError, FieldError, FieldErrorKind};
use field_import::field::Field;
use field_import::readers::CsvReader;
use field_import::rules::{
    check_input_type, check_label, check_name, check_options, check_type_id,
    is_input_type_allowed, is_valid_type_id, requires_options,
};

fn field_error(row: usize, error: FieldErrorKind) -> CustomError {
    CustomError::FieldError(FieldError { row, error })
}

fn refused(result: Result<Field, CustomError>) -> CustomError {
    match result {
        Ok(field) => panic!("accepted: {:?}", field),
        Err(e) => e,
    }
}

const KNOWN_TYPES: [u8; 8] = [0, 1, 2, 3, 4, 5, 6, 10];

#[test]
fn valid_row_gives_the_field() {
    let reader = CsvReader::new();
    let field = reader.validate_row("age", "Age", "0", "1", "", 0).unwrap();
    assert_eq!(field.name(), "age");
    assert_eq!(field.label(), "Age");
    assert_eq!(field.type_id(), 0);
    assert_eq!(field.input_type_id(), 1);
    assert_eq!(field.options(), "");
}

#[test]
fn every_unknown_type_id_is_refused_as_invalid() {
    let reader = CsvReader::new();
    for value in 0..=255u8 {
        let text = format!("{}", value);
        let result = reader.validate_type_id(&text, 4);
        if KNOWN_TYPES.contains(&value) {
            assert_eq!(result, Ok(value));
        } else {
            assert_eq!(result, Err(field_error(4, FieldErrorKind::InvalidTypeId(text))));
        }
    }
}

#[test]
fn unknown_type_id_wins_over_every_other_fault_of_the_row() {
    let reader = CsvReader::new();
    let error = refused(reader.validate_row("not valid!", " ", "7", "x", "", 2));
    assert_eq!(error, field_error(2, FieldErrorKind::InvalidTypeId("7".to_string())));
}

#[test]
fn type_id_that_is_no_u8_is_a_parse_error() {
    let reader = CsvReader::new();
    for text in ["", "abc", " 1", "1 ", "-1", "1.0", "256", "300", "+", "1_0", "0x1"] {
        assert_eq!(
            reader.validate_type_id(text, 0),
            Err(field_error(0, FieldErrorKind::ParseError("type_id".to_string()))),
            "{:?}",
            text
        );
    }
}

#[test]
fn type_id_may_have_a_plus_sign_and_leading_zeros() {
    let reader = CsvReader::new();
    assert_eq!(reader.validate_type_id("+4", 0), Ok(4));
    assert_eq!(reader.validate_type_id("0010", 0), Ok(10));
    assert_eq!(reader.validate_type_id("000", 0), Ok(0));
    assert_eq!(
        reader.validate_type_id("007", 0),
        Err(field_error(0, FieldErrorKind::InvalidTypeId("7".to_string())))
    );
}

#[test]
fn selection_types_need_options() {
    let reader = CsvReader::new();
    let missing = FieldErrorKind::MissingOptions(
        "Selection fields require at least one option".to_string(),
    );
    for type_id in [2u8, 3u8] {
        assert_eq!(
            reader.validate_options("", type_id, 1),
            Err(field_error(1, FieldErrorKind::MissingOptions(
                "Selection fields require at least one option".to_string()
            )))
        );
        for options in ["a", "a,b,c", "  padded  ", ",", "!?", "日本"] {
            assert_eq!(reader.validate_options(options, type_id, 1), Ok(options.to_string()));
        }
    }
    assert_eq!(check_options("", true, 2), Err(missing));
}

#[test]
fn blank_options_count_as_missing_for_selection_types() {
    let reader = CsvReader::new();
    for options in [" ", "   ", "\t", " \n "] {
        assert_eq!(
            reader.validate_options(options, 2, 0),
            Err(field_error(0, FieldErrorKind::MissingOptions(
                "Selection fields require at least one option".to_string()
            )))
        );
    }
}

#[test]
fn other_types_take_any_options() {
    let reader = CsvReader::new();
    for type_id in [0u8, 1, 4, 5, 6, 10] {
        for options in ["", "  ", "a,b"] {
            assert_eq!(reader.validate_options(options, type_id, 0), Ok(options.to_string()));
        }
    }
}

#[test]
fn plain_types_take_only_input_type_zero() {
    let reader = CsvReader::new();
    let names = [(1u8, "Memo"), (3, "Multiple Selection"), (5, "Time"), (6, "Checkbox"), (10, "Rich")];
    for (type_id, name) in names {
        assert_eq!(reader.validate_input_type("0", type_id, 0), Ok(0));
        for input_type in 1..=255u8 {
            let message = format!(
                "Field type {} only accepts input_type_id 0. This field type has no input options.",
                name
            );
            assert_eq!(
                reader.validate_input_type(&format!("{}", input_type), type_id, 9),
                Err(field_error(9, FieldErrorKind::InvalidInputType(message)))
            );
        }
    }
}

#[test]
fn text_type_takes_input_types_up_to_six() {
    let reader = CsvReader::new();
    for input_type in 0..=6u8 {
        assert_eq!(reader.validate_input_type(&format!("{}", input_type), 0, 0), Ok(input_type));
    }
    let message = "Text fields (type_id: 0) accept these input types:\n0: Anything\n1: Integer\n2: Money\n3: Alphanumeric\n4: Decimal\n5: URL\n6: Password";
    assert_eq!(
        reader.validate_input_type("7", 0, 0),
        Err(field_error(0, FieldErrorKind::InvalidInputType(message.to_string())))
    );
}

#[test]
fn single_selection_takes_input_types_up_to_two() {
    let reader = CsvReader::new();
    for input_type in 0..=2u8 {
        assert_eq!(reader.validate_input_type(&format!("{}", input_type), 2, 0), Ok(input_type));
    }
    let message = "Single Selection fields (type_id: 2) accept these input types:\n0: Standard dropdown\n1: Tree dropdown\n2: Radio selection";
    assert_eq!(
        reader.validate_input_type("3", 2, 0),
        Err(field_error(0, FieldErrorKind::InvalidInputType(message.to_string())))
    );
}

#[test]
fn date_takes_input_types_up_to_one() {
    let reader = CsvReader::new();
    assert_eq!(reader.validate_input_type("0", 4, 0), Ok(0));
    assert_eq!(reader.validate_input_type("1", 4, 0), Ok(1));
    let message = "Date fields (type_id: 4) accept these input types:\n0: Date only\n1: Date and time";
    assert_eq!(
        reader.validate_input_type("2", 4, 0),
        Err(field_error(0, FieldErrorKind::InvalidInputType(message.to_string())))
    );
}

#[test]
fn input_type_for_an_unknown_type_is_refused() {
    assert_eq!(
        check_input_type(7, 0),
        Err(FieldErrorKind::InvalidInputType("Invalid type_id".to_string()))
    );
}

#[test]
fn input_type_that_is_no_u8_is_a_parse_error() {
    let reader = CsvReader::new();
    for text in ["", "x", "256", "-0", " 0"] {
        assert_eq!(
            reader.validate_input_type(text, 0, 3),
            Err(field_error(3, FieldErrorKind::ParseError("input_type_id".to_string())))
        );
    }
}

#[test]
fn the_matrix_as_a_table() {
    for type_id in 0..=255u8 {
        assert_eq!(is_valid_type_id(type_id), KNOWN_TYPES.contains(&type_id));
        assert_eq!(requires_options(type_id), type_id == 2 || type_id == 3);
        let largest: i32 = match type_id {
            0 => 6,
            2 => 2,
            4 => 1,
            1 | 3 | 5 | 6 | 10 => 0,
            _ => -1,
        };
        for input_type in 0..=255u8 {
            assert_eq!(is_input_type_allowed(type_id, input_type), (input_type as i32) <= largest);
        }
        assert_eq!(check_type_id(type_id).is_ok(), KNOWN_TYPES.contains(&type_id));
    }
}

#[test]
fn single_space_label_is_invalid() {
    let reader = CsvReader::new();
    assert_eq!(
        reader.validate_label(" ", 0),
        Err(field_error(0, FieldErrorKind::InvalidLabel(
            "Label cannot be a single space".to_string()
        )))
    );
    let error = refused(reader.validate_row("age", " ", "0", "0", "", 5));
    assert!(matches!(
        error,
        CustomError::FieldError(FieldError { row: 5, error: FieldErrorKind::InvalidLabel(_) })
    ));
}

#[test]
fn several_spaces_label_is_empty() {
    let reader = CsvReader::new();
    for label in ["  ", "   ", "", "\t", " \t ", "\n"] {
        assert_eq!(
            reader.validate_label(label, 0),
            Err(field_error(0, FieldErrorKind::RequiredFieldEmpty("label".to_string()))),
            "{:?}",
            label
        );
    }
    let error = refused(reader.validate_row("age", "  ", "0", "0", "", 5));
    assert_eq!(error, field_error(5, FieldErrorKind::RequiredFieldEmpty("label".to_string())));
}

#[test]
fn label_is_trimmed() {
    let reader = CsvReader::new();
    assert_eq!(reader.validate_label("  First name \t", 0), Ok("First name".to_string()));
    assert_eq!(reader.validate_label("Age", 0), Ok("Age".to_string()));
    assert_eq!(reader.validate_label(" x", 0), Ok("x".to_string()));
    assert_eq!(check_label("  a b  ", "a b"), Ok("a b".to_string()));
}

#[test]
fn name_is_trimmed_and_must_be_alphanumeric() {
    let reader = CsvReader::new();
    assert_eq!(reader.validate_field_name("  age  ", 0), Ok("age".to_string()));
    assert_eq!(reader.validate_field_name("Field9", 0), Ok("Field9".to_string()));
    assert_eq!(reader.validate_field_name("größe٣", 0), Ok("größe٣".to_string()));
    for name in ["my_field", "a b", "a-b", "a.b", "x!", " a\tb "] {
        assert_eq!(
            reader.validate_field_name(name, 7),
            Err(field_error(7, FieldErrorKind::InvalidFieldName(name.trim().to_string()))),
            "{:?}",
            name
        );
    }
    for name in ["", " ", "\t\n"] {
        assert_eq!(
            reader.validate_field_name(name, 7),
            Err(field_error(7, FieldErrorKind::RequiredFieldEmpty("name".to_string())))
        );
    }
    assert_eq!(
        check_name("", false),
        Err(FieldErrorKind::RequiredFieldEmpty("name".to_string()))
    );
    assert_eq!(check_name("ab", false), Err(FieldErrorKind::InvalidFieldName("ab".to_string())));
    assert_eq!(check_name("ab", true), Ok("ab".to_string()));
}

#[test]
fn required_field_names_the_field() {
    let reader = CsvReader::new();
    assert_eq!(reader.validate_required_field("  v ", "thing", 0), Ok("v".to_string()));
    assert_eq!(
        reader.validate_required_field("   ", "thing", 3),
        Err(field_error(3, FieldErrorKind::RequiredFieldEmpty("thing".to_string())))
    );
}

#[test]
fn the_first_fault_in_the_fixed_order_is_reported() {
    let reader = CsvReader::new();
    let parse_type = field_error(0, FieldErrorKind::ParseError("type_id".to_string()));
    assert_eq!(refused(reader.validate_row("", "", "x", "x", "", 0)), parse_type);
    assert_eq!(
        refused(reader.validate_row("", "", "2", "x", "", 0)),
        field_error(0, FieldErrorKind::RequiredFieldEmpty("name".to_string()))
    );
    assert_eq!(
        refused(reader.validate_row("a", "", "2", "x", "", 0)),
        field_error(0, FieldErrorKind::RequiredFieldEmpty("label".to_string()))
    );
    assert_eq!(
        refused(reader.validate_row("a", "A", "2", "x", "", 0)),
        field_error(0, FieldErrorKind::ParseError("input_type_id".to_string()))
    );
    assert!(matches!(
        refused(reader.validate_row("a", "A", "2", "3", "", 0)),
        CustomError::FieldError(FieldError { row: 0, error: FieldErrorKind::InvalidInputType(_) })
    ));
    assert!(matches!(
        refused(reader.validate_row("a", "A", "2", "2", "", 0)),
        CustomError::FieldError(FieldError { row: 0, error: FieldErrorKind::MissingOptions(_) })
    ));
    let field = reader.validate_row(" a ", " A ", "2", "2", " x,y ", 0).unwrap();
    assert_eq!(field.name(), "a");
    assert_eq!(field.label(), "A");
    assert_eq!(field.type_id(), 2);
    assert_eq!(field.input_type_id(), 2);
    assert_eq!(field.options(), " x,y ");
}

#[test]
fn a_field_keeps_what_it_was_made_of() {
    let field = Field::new("age".to_string(), "Age".to_string(), 0, 1, "".to_string());
    let copy = field.clone();
    assert_eq!(copy.name(), "age");
    assert_eq!(copy.label(), "Age");
    assert_eq!(copy.type_id(), 0);
    assert_eq!(copy.input_type_id(), 1);
    assert_eq!(copy.options(), "");
}

#[test]
fn a_field_is_made_only_of_values_that_meet_the_rules() {
    let text = |value: &str| value.to_string();
    let field = Field::try_new(text("age"), text("Age"), 0, 1, text("")).unwrap();
    assert_eq!(field.name(), "age");
    assert_eq!(field.input_type_id(), 1);
    assert!(Field::try_new(text("c"), text(" padded "), 2, 2, text("a,b")).is_some());
    assert!(Field::try_new(text(""), text("Age"), 0, 1, text("")).is_none());
    assert!(Field::try_new(text("a b"), text("Age"), 0, 1, text("")).is_none());
    assert!(Field::try_new(text("age"), text(""), 0, 1, text("")).is_none());
    assert!(Field::try_new(text("age"), text(" "), 0, 1, text("")).is_none());
    assert!(Field::try_new(text("age"), text("Age"), 7, 0, text("")).is_none());
    assert!(Field::try_new(text("age"), text("Age"), 0, 7, text("")).is_none());
    assert!(Field::try_new(text("age"), text("Age"), 1, 1, text("")).is_none());
    assert!(Field::try_new(text("age"), text("Age"), 2, 0, text("")).is_none());
    assert!(Field::try_new(text("age"), text("Age"), 3, 0, text("  ")).is_none());
    assert!(Field::try_new(text("age"), text("Age"), 3, 0, text("x")).is_some());
}
