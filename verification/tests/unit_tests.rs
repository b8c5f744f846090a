use rs_mrz_parser::constants::country_name;
use rs_mrz_parser::error::MrzError;
use rs_mrz_parser::field_formatter::{FieldFormatter, FieldType};
use rs_mrz_parser::mrz_field::MrzField;
use rs_mrz_parser::utils::{calculate_check_digits, check_same, is_value_valid, replace_digits,
    replace_letters, trimming_filler};

#[test]
fn test_is_value_valid() {
}

#[test]
fn test_check_digit_of_icao_samples() {
    // The specimen document number and dates with their published digits.
    assert_eq!(calculate_check_digits("D23145890").unwrap(), "7");
    assert_eq!(calculate_check_digits("740812").unwrap(), "2");
    assert_eq!(calculate_check_digits("120415").unwrap(), "9");
    // A string of fillers sums to zero.
    assert_eq!(calculate_check_digits("<<<<<").unwrap(), "0");
    // The computation folds case.
    assert_eq!(calculate_check_digits("d23145890").unwrap(), "7");
}

#[test]
fn test_check_digit_rejects_foreign_characters() {
    assert_eq!(calculate_check_digits("D2314!890"), Err(MrzError::InvalidCharacter));
    assert!(!is_value_valid("D2314!890", "7"));
}

#[test]
fn test_is_value_valid_matches_computed_digit() {
    assert!(is_value_valid("D23145890", "7"));
    assert!(!is_value_valid("D23145890", "1"));
    assert!(!is_value_valid("D23145890", ""));
    assert!(!is_value_valid("D23145890", "77"));
}

#[test]
fn test_replacement_tables() {
    assert_eq!(replace_letters("OQUDIZB"), "0000128");
    assert_eq!(replace_letters("740812"), "740812");
    assert_eq!(replace_digits("0128"), "OIZB");
    assert_eq!(replace_digits("ABC<"), "ABC<");
}

#[test]
fn test_trimming_filler() {
    assert_eq!(trimming_filler("<<ABC<<"), "ABC");
    assert_eq!(trimming_filler("<<<<"), "");
    assert_eq!(trimming_filler("A<B"), "A<B");
    assert_eq!(trimming_filler(""), "");
}

#[test]
fn test_check_same() {
    let empty: Vec<usize> = Vec::new();
    assert!(check_same(&empty));
    assert!(check_same(&[36, 36]));
    assert!(!check_same(&[36, 44]));
}

#[test]
fn test_country_lookup() {
    assert_eq!(country_name("UTO"), "Utopia");
    assert_eq!(country_name("DEU"), "Germany");
    assert_eq!(country_name("D<<"), "Germany");
    assert_eq!(country_name("ZZZ"), "Unknown");
}

#[test]
fn test_sex_formatting() {
    let formatter = FieldFormatter::new(true);
    assert_eq!(formatter.sex("M"), "MALE");
    assert_eq!(formatter.sex("F"), "FEMALE");
    assert_eq!(formatter.sex("<"), "UNSPECIFIED");
    assert_eq!(formatter.sex("X"), "");
}

#[test]
fn test_date_formatting() {
    let formatter = FieldFormatter::new(true);
    assert_eq!(formatter.date("740812").unwrap(), "740812");
    // A date still holding fillers passes through unchecked.
    assert_eq!(formatter.date("74<<12").unwrap(), "74<<12");
    assert_eq!(formatter.date("74081"), Err(MrzError::InvalidDateFormat));
    assert_eq!(formatter.date("74A812"), Err(MrzError::InvalidDateCharacter));
}

#[test]
fn test_names_split() {
    let formatter = FieldFormatter::new(true);
    let groups = formatter.names("ERIKSSON<<ANNA<MARIA<<<<<<<<<<");
    assert_eq!(groups.len(), 2);
    assert_eq!(groups[0], "ERIKSSON");
    assert_eq!(groups[1], "ANNA MARIA");

    // Without a double filler there is no secondary group.
    let groups = formatter.names("ERIKSSON");
    assert_eq!(groups[0], "ERIKSSON");
    assert_eq!(groups[1], "");
}

#[test]
fn test_text_replaces_fillers() {
    let formatter = FieldFormatter::new(true);
    assert_eq!(formatter.text("A<B<C"), "A B C");
}

#[test]
fn test_field_extraction_with_check_digit() {
    let formatter = FieldFormatter::new(true);
    let line = "D231458907UTO7408122F1204159<<<<<<<6";
    let field = formatter
        .field(FieldType::DocumentNumber, line, 0, 9, true)
        .unwrap();
    assert_eq!(field.get_raw_value(), "D23145890");
    assert_eq!(field.get_check_digit(), "7");
    assert!(field.is_valid);
}

#[test]
fn test_field_extraction_out_of_range() {
    let formatter = FieldFormatter::new(true);
    assert_eq!(
        formatter.field(FieldType::DocumentNumber, "SHORT", 0, 9, true).unwrap_err(),
        MrzError::IndexOutOfRange
    );
}

#[test]
fn test_field_corrects_ocr_confusions() {
    let formatter = FieldFormatter::new(true);
    // In a date window the letters O and B read as the digits 0 and 8.
    let field = formatter.field(FieldType::Birthdate, "74O8I2", 0, 6, false).unwrap();
    assert_eq!(field.get_raw_value(), "740812");
    assert_eq!(field.get_value(), "740812");
}

#[test]
fn test_filler_check_digit_rule() {
    // A filler check digit over an entirely blank value: valid, and the
    // digit is normalized to zero.
    let mut blank = MrzField::new("".to_string(), "<<<<".to_string(), "<".to_string(), true);
    assert!(blank.is_valid());
    assert_eq!(blank.get_check_digit(), "0");

    // A filler check digit over a non-blank value: invalid, untouched.
    let mut nonblank = MrzField::new("".to_string(), "A<<<".to_string(), "<".to_string(), true);
    assert!(!nonblank.is_valid());
    assert_eq!(nonblank.get_check_digit(), "<");
}
