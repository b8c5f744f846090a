use rs_mrz_parser::error::MrzError;
use rs_mrz_parser::parser::IMRZParser;
use rs_mrz_parser::td1::TD1;
use rs_mrz_parser::td2::TD2;
use rs_mrz_parser::td3::TD3;
use rs_mrz_parser::MRZParser;

#[test]
fn test_td1_vec() {
    let mrz_string: Vec<String> = vec![
        "I<UTOD231458907<<<<<<<<<<<<<<<".to_string(),
        "7408122F1204159UTO<<<<<<<<<<<6".to_string(),
        "ERIKSSON<<ANNA<MARIA<<<<<<<<<<".to_string(),
    ];

    let mut parser = MRZParser::new_mrz_line_parser(mrz_string);
    let result = parser.parse().unwrap();
    assert_eq!(result.is_valid, true);
    println!("{:?}", result)
}

#[test]
fn test_td1_str() {
    let mrz_string: &str = "\
        I<UTOD231458907<<<<<<<<<<<<<<<\n\
        7408122F1204159UTO<<<<<<<<<<<6\n\
        ERIKSSON<<ANNA<MARIA<<<<<<<<<<";
    let mut parser = MRZParser::new_mrz_string_parser(mrz_string);
    let result = parser.parse().unwrap();
    assert_eq!(result.is_valid, true);
    println!("{:?}", result)
}

#[test]
fn test_parse_td1() {
    let mrz_string: Vec<String> = vec![
        "I<UTOD231458907<<<<<<<<<<<<<<<".to_string(),
        "7408122F1204159UTO<<<<<<<<<<<6".to_string(),
        "ERIKSSON<<ANNA<MARIA<<<<<<<<<<".to_string(),
    ];

    let td1 = TD1::new();
    let result = td1.parse(&mrz_string).unwrap();

    println!("{:?}", result)
}

#[test]
fn test_parse_td2() {
    let mrz_string: Vec<String> = vec![
        "I<UTOERIKSSON<<ANNA<MARIA<<<<<<<<<<<".to_string(),
        "D231458907UTO7408122F1204159<<<<<<<6".to_string(),
    ];

    let td2 = TD2::new();
    let result = td2.parse(&mrz_string).unwrap();
    assert_eq!(result.is_visa, false);
    assert_eq!(result.is_valid, true);
    println!("{:?}", result)
}

#[test]
fn test_parse_td2_visa() {
    let mrz_string: Vec<String> = vec![
        "V<UTOERIKSSON<<ANNA<MARIA<<<<<<<<<<<".to_string(),
        "L8988901C4XXX4009078F9612109<<<<<<<<".to_string(),
    ];

    let td2 = TD2::new();
    let result = td2.parse(&mrz_string).unwrap();
    assert_eq!(result.is_visa, true);
    assert_eq!(result.is_valid, true);
    println!("{:?}", result)
}

#[test]
fn test_parse_td3() {
    let mrz_string: Vec<String> = vec![
        "P<UTOERIKSSON<<ANNA<MARIA<<<<<<<<<<<<<<<<<<<".to_string(),
        "L898902C36UTO7408122F1204159ZE184226B<<<<<10".to_string(),
    ];

    let td3 = TD3::new();
    let result = td3.parse(&mrz_string).unwrap();
    assert_eq!(result.is_visa, false);
    assert_eq!(result.is_valid, true);
    println!("{:?}", result)
}

#[test]
fn test_td1_field_values() {
    let mrz_string: Vec<String> = vec![
        "I<UTOD231458907<<<<<<<<<<<<<<<".to_string(),
        "7408122F1204159UTO<<<<<<<<<<<6".to_string(),
        "ERIKSSON<<ANNA<MARIA<<<<<<<<<<".to_string(),
    ];

    let mut parser = MRZParser::new_mrz_line_parser(mrz_string);
    let result = parser.parse().unwrap();
    assert_eq!(result.is_valid, true);
    assert_eq!(result.issuing_state, "Utopia");

    let fields = &result.fields;
    assert_eq!(fields.name.as_ref().unwrap().get_value(), "ERIKSSON ANNA MARIA");
    assert_eq!(fields.document_number.as_ref().unwrap().get_raw_value(), "D23145890");
    assert_eq!(fields.document_number.as_ref().unwrap().get_check_digit(), "7");
    assert!(fields.document_number.as_ref().unwrap().is_valid);
    assert_eq!(fields.birthdate.as_ref().unwrap().get_value(), "740812");
    assert_eq!(fields.sex.as_ref().unwrap().get_value(), "FEMALE");
    assert_eq!(fields.expiry_date.as_ref().unwrap().get_value(), "120415");
    assert_eq!(fields.nationality.as_ref().unwrap().get_raw_value(), "UTO");
    assert_eq!(fields.document_type.as_ref().unwrap().get_raw_value(), "I<");
    assert!(fields.optional_data_2.is_some());
}

#[test]
fn test_td1_tampered_document_number_is_invalid() {
    // The sample with the first document-number character changed from D
    // to E; the weighted value difference is not a multiple of ten, so
    // the local and the composite checksum both fail.
    let mrz_string: Vec<String> = vec![
        "I<UTOE231458907<<<<<<<<<<<<<<<".to_string(),
        "7408122F1204159UTO<<<<<<<<<<<6".to_string(),
        "ERIKSSON<<ANNA<MARIA<<<<<<<<<<".to_string(),
    ];

    let mut parser = MRZParser::new_mrz_line_parser(mrz_string);
    let result = parser.parse().unwrap();
    assert_eq!(result.is_valid, false);
    assert_eq!(result.fields.document_number.as_ref().unwrap().is_valid, false);
}

#[test]
fn test_td2_tampered_birthdate_is_invalid() {
    // One birthdate digit changed from 4 to 5.
    let mrz_string: Vec<String> = vec![
        "I<UTOERIKSSON<<ANNA<MARIA<<<<<<<<<<<".to_string(),
        "D231458907UTO7508122F1204159<<<<<<<6".to_string(),
    ];

    let td2 = TD2::new();
    let result = td2.parse(&mrz_string).unwrap();
    assert_eq!(result.is_valid, false);
}

#[test]
fn test_get_mrz_type_resolves_each_format() {
    let td1_lines: Vec<String> = vec![
        "I<UTOD231458907<<<<<<<<<<<<<<<".to_string(),
        "7408122F1204159UTO<<<<<<<<<<<6".to_string(),
        "ERIKSSON<<ANNA<MARIA<<<<<<<<<<".to_string(),
    ];
    let mut parser = MRZParser::new_mrz_line_parser(td1_lines);
    assert_eq!(parser.get_mrz_type().unwrap(), 1);
    // Detection is idempotent: asking again resolves the same type.
    assert_eq!(parser.get_mrz_type().unwrap(), 1);

    let td2_lines: Vec<String> = vec![
        "I<UTOERIKSSON<<ANNA<MARIA<<<<<<<<<<<".to_string(),
        "D231458907UTO7408122F1204159<<<<<<<6".to_string(),
    ];
    let mut parser = MRZParser::new_mrz_line_parser(td2_lines);
    assert_eq!(parser.get_mrz_type().unwrap(), 2);

    let td3_lines: Vec<String> = vec![
        "P<UTOERIKSSON<<ANNA<MARIA<<<<<<<<<<<<<<<<<<<".to_string(),
        "L898902C36UTO7408122F1204159ZE184226B<<<<<10".to_string(),
    ];
    let mut parser = MRZParser::new_mrz_line_parser(td3_lines);
    assert_eq!(parser.get_mrz_type().unwrap(), 3);
}

#[test]
fn test_detection_rejects_wrong_shapes() {
    // One line only.
    let mut parser = MRZParser::new_mrz_line_parser(vec!["I<UTOD231458907".to_string()]);
    assert_eq!(parser.get_mrz_type(), Err(MrzError::InvalidLineLength));

    // Three lines of a wrong width.
    let mut parser = MRZParser::new_mrz_line_parser(vec![
        "I<UTO".to_string(),
        "I<UTO".to_string(),
        "I<UTO".to_string(),
    ]);
    assert_eq!(parser.parse().unwrap_err(), MrzError::InvalidLineLength);

    // Two lines of differing supported widths resolve to no format.
    let mut parser = MRZParser::new_mrz_line_parser(vec![
        "I<UTOERIKSSON<<ANNA<MARIA<<<<<<<<<<<".to_string(),
        "L898902C36UTO7408122F1204159ZE184226B<<<<<10".to_string(),
    ]);
    assert_eq!(parser.get_mrz_type(), Err(MrzError::InvalidLineLength));
}

#[test]
fn test_parse_propagates_date_errors() {
    // A letter in the birthdate window that no OCR table repairs.
    let mrz_string: Vec<String> = vec![
        "I<UTOD231458907<<<<<<<<<<<<<<<".to_string(),
        "74A8122F1204159UTO<<<<<<<<<<<6".to_string(),
        "ERIKSSON<<ANNA<MARIA<<<<<<<<<<".to_string(),
    ];
    let mut parser = MRZParser::new_mrz_line_parser(mrz_string);
    assert_eq!(parser.parse().unwrap_err(), MrzError::InvalidDateCharacter);
}

#[test]
fn test_parse_rejects_character_outside_alphabet() {
    // An exclamation mark in the optional data reaches the composite
    // checksum, which only accepts the MRZ alphabet.
    let mrz_string: Vec<String> = vec![
        "I<UTOD231458907!<<<<<<<<<<<<<<".to_string(),
        "7408122F1204159UTO<<<<<<<<<<<6".to_string(),
        "ERIKSSON<<ANNA<MARIA<<<<<<<<<<".to_string(),
    ];
    let mut parser = MRZParser::new_mrz_line_parser(mrz_string);
    assert_eq!(parser.parse().unwrap_err(), MrzError::InvalidCharacter);
}

#[test]
fn test_string_parser_without_line_breaks() {
    // A TD1 zone handed over as one unbroken ninety-character string.
    let mrz_string = "I<UTOD231458907<<<<<<<<<<<<<<<\
                      7408122F1204159UTO<<<<<<<<<<<6\
                      ERIKSSON<<ANNA<MARIA<<<<<<<<<<";
    let mut parser = MRZParser::new_mrz_string_parser(mrz_string);
    let result = parser.parse().unwrap();
    assert_eq!(result.is_valid, true);

    // A TD2 zone as one unbroken seventy-two-character string.
    let mrz_string =
        "I<UTOERIKSSON<<ANNA<MARIA<<<<<<<<<<<D231458907UTO7408122F1204159<<<<<<<6";
    let mut parser = MRZParser::new_mrz_string_parser(mrz_string);
    let result = parser.parse().unwrap();
    assert_eq!(result.is_valid, true);

    // Any other length is cut at forty-four characters, the TD3 width.
    let mrz_string = "P<UTOERIKSSON<<ANNA<MARIA<<<<<<<<<<<<<<<<<<<\
                      L898902C36UTO7408122F1204159ZE184226B<<<<<10";
    let mut parser = MRZParser::new_mrz_string_parser(mrz_string);
    let result = parser.parse().unwrap();
    assert_eq!(result.is_valid, true);
}

#[test]
fn test_string_parser_with_carriage_returns() {
    let mrz_string = "I<UTOERIKSSON<<ANNA<MARIA<<<<<<<<<<<\r\nD231458907UTO7408122F1204159<<<<<<<6";
    let mut parser = MRZParser::new_mrz_string_parser(mrz_string);
    let result = parser.parse().unwrap();
    assert_eq!(result.is_valid, true);
    assert_eq!(result.is_visa, false);
}
