use field_import::number::{parse_u8, to_decimal};
use field_import::text::{is_all_alphanumeric, same_text, trim, trim_trailing_slashes};

#[test]
fn parse_u8_agrees_with_the_standard_library() {
    let mut texts: Vec<String> = Vec::new();
    for value in 0..=300u32 {
        texts.push(format!("{}", value));
        texts.push(format!("+{}", value));
        texts.push(format!("-{}", value));
        texts.push(format!("00{}", value));
        texts.push(format!(" {}", value));
        texts.push(format!("{} ", value));
        texts.push(format!("{}a", value));
    }
    for text in ["", "+", "-", "++1", "+-1", "1+", "٣", "1.5", "1e1", "0x10", "９"] {
        texts.push(text.to_string());
    }
    for text in texts {
        assert_eq!(parse_u8(&text), text.parse::<u8>().ok(), "{:?}", text);
    }
}

#[test]
fn parse_u8_at_the_limits() {
    assert_eq!(parse_u8("0"), Some(0));
    assert_eq!(parse_u8("255"), Some(255));
    assert_eq!(parse_u8("256"), None);
    assert_eq!(parse_u8("0000000000000000000000000000255"), Some(255));
    assert_eq!(parse_u8("99999999999999999999999999999999999999999"), None);
}

#[test]
fn to_decimal_agrees_with_the_standard_library() {
    for value in 0..=1000u128 {
        assert_eq!(to_decimal(value), format!("{}", value));
    }
    for value in [u64::MAX as u128, u128::MAX, 10u128.pow(20), 10u128.pow(20) - 1] {
        assert_eq!(to_decimal(value), format!("{}", value));
    }
}

#[test]
fn decimal_and_parse_are_inverse_on_u8() {
    for value in 0..=255u8 {
        assert_eq!(parse_u8(&to_decimal(value as u128)), Some(value));
    }
}

#[test]
fn trim_agrees_with_the_standard_library() {
    for text in [
        "", " ", "  ", "a", " a", "a ", " a ", "\t a b \n", "a  b", "\u{a0}x\u{3000}",
        " \u{2003}é ", "x\u{200b}", "\r\n", "  日本 語  ",
    ] {
        assert_eq!(trim(text), text.trim(), "{:?}", text);
    }
}

#[test]
fn trailing_slashes_are_removed() {
    assert_eq!(trim_trailing_slashes("https://host/"), "https://host");
    assert_eq!(trim_trailing_slashes("https://host///"), "https://host");
    assert_eq!(trim_trailing_slashes("https://host/a/b"), "https://host/a/b");
    assert_eq!(trim_trailing_slashes("/a/"), "/a");
    assert_eq!(trim_trailing_slashes("///"), "");
    assert_eq!(trim_trailing_slashes(""), "");
    assert_eq!(trim_trailing_slashes("é/"), "é");
}

#[test]
fn alphanumeric_means_letters_and_numbers_of_any_script() {
    assert!(is_all_alphanumeric(""));
    assert!(is_all_alphanumeric("abcXYZ019"));
    assert!(is_all_alphanumeric("größe"));
    assert!(is_all_alphanumeric("٣७"));
    assert!(!is_all_alphanumeric("a_b"));
    assert!(!is_all_alphanumeric("a b"));
    assert!(!is_all_alphanumeric("a-"));
    assert!(!is_all_alphanumeric("!"));
}

#[test]
fn same_text_compares_character_by_character() {
    assert!(same_text("", ""));
    assert!(same_text("name", "name"));
    assert!(same_text("é日", "é日"));
    assert!(!same_text("name", "Name"));
    assert!(!same_text("name", "names"));
    assert!(!same_text("names", "name"));
    assert!(!same_text("", "a"));
    assert!(!same_text("ab", "ba"));
    assert!(!same_text("é", "e"));
}
