use vstd::prelude::*;

verus! {

use crate::constants::{country_name, country_name_of, TYPE2_NUMBER_OF_CHARACTERS_PER_LINE};
use crate::error::MrzError;
use crate::field_formatter::{FieldFormatter, FieldType, extract_field, lemma_clean_date_field,
    lemma_clean_plain_field};
use crate::mrz_field::{MrzField, FieldModel};
use crate::parser::{IMRZParser, MRZResult, MrzFields, FieldsModel, ResultModel, lines_view,
    result_matches};
use crate::utils::{calculate_check_digits, check_digit_char, check_digit_seq, lemma_mrz_ok_concat,
    mrz_ok, str_eq};

/// The field record a TD2 parse uses where a field does not apply: empty
/// strings and a vacuously true validity flag.
pub open spec fn empty_field_model() -> FieldModel {
    FieldModel {
        value: Seq::empty(),
        raw_value: Seq::empty(),
        check_digit: Seq::empty(),
        is_valid: true,
    }
}

/// The composite checksum input of a TD2 document: document number,
/// birthdate and expiry date with their check digits, then the optional
/// data without one.
pub open spec fn td2_composite(
    document_number: FieldModel,
    birthdate: FieldModel,
    expiry_date: FieldModel,
    optional_data: FieldModel,
) -> Seq<char> {
    document_number.raw_value + document_number.check_digit + birthdate.raw_value
        + birthdate.check_digit + expiry_date.raw_value + expiry_date.check_digit
        + optional_data.raw_value
}

/// The overall TD2 verdict. With a final check digit present (the
/// non-visa branch) the composite check digit must match the final
/// field's raw character; a visa carries no final check digit, so only
/// the three local verdicts count.
pub open spec fn td2_validate(
    document_number: FieldModel,
    birthdate: FieldModel,
    expiry_date: FieldModel,
    optional_data: FieldModel,
    final_check_digit: Option<FieldModel>,
) -> Result<bool, MrzError> {
    match final_check_digit {
        Some(final_check) => {
            let composite = td2_composite(document_number, birthdate, expiry_date, optional_data);
            if !mrz_ok(composite) {
                Err(MrzError::InvalidCharacter)
            } else {
                Ok(
                    document_number.is_valid && birthdate.is_valid && expiry_date.is_valid
                        && final_check.raw_value == check_digit_seq(composite),
                )
            }
        },
        None => Ok(document_number.is_valid && birthdate.is_valid && expiry_date.is_valid),
    }
}

/// The model of a TD2 parse: two lines of thirty-six characters, the
/// fixed TD2 field layout, with the visa branch selected by a leading `V`.
pub open spec fn td2_model(input: Seq<Seq<char>>) -> Result<ResultModel, MrzError> {
    if input.len() != 2 {
        Err(MrzError::InvalidLineLength)
    } else if !(input[0].len() == 36 && input[1].len() == 36) {
        Err(MrzError::InvalidLineLength)
    } else {
        let l1 = input[0];
        let l2 = input[1];
        let is_visa = l1[0] == 'V';
        let document_type = extract_field(true, FieldType::DocumentType, l1, 0, 2, false)->Ok_0;
        let country_code = extract_field(true, FieldType::CountryCode, l1, 2, 3, false)->Ok_0;
        let name = extract_field(true, FieldType::Names, l1, 5, 31, false)->Ok_0;
        let document_number = extract_field(true, FieldType::DocumentNumber, l2, 0, 9, true)->Ok_0;
        let nationality = extract_field(true, FieldType::Nationality, l2, 10, 3, false)->Ok_0;
        let sex = extract_field(true, FieldType::Sex, l2, 20, 1, false)->Ok_0;
        match extract_field(true, FieldType::Birthdate, l2, 13, 6, true) {
            Err(e) => Err(e),
            Ok(birthdate) => match extract_field(true, FieldType::ExpiryDate, l2, 21, 6, true) {
                Err(e) => Err(e),
                Ok(expiry_date) => {
                    let optional_data = if is_visa {
                        extract_field(true, FieldType::PersonalNumber, l2, 28, 8, false)->Ok_0
                    } else {
                        extract_field(true, FieldType::PersonalNumber, l2, 28, 7, true)->Ok_0
                    };
                    let final_check_digit = if is_visa {
                        empty_field_model()
                    } else {
                        extract_field(true, FieldType::Hash, l2, 35, 1, false)->Ok_0
                    };
                    let final_opt = if is_visa {
                        None
                    } else {
                        Some(final_check_digit)
                    };
                    match td2_validate(
                        document_number,
                        birthdate,
                        expiry_date,
                        optional_data,
                        final_opt,
                    ) {
                        Err(e) => Err(e),
                        Ok(valid) => Ok(
                            ResultModel {
                                is_visa,
                                is_valid: valid,
                                fields: FieldsModel {
                                    document_type: Some(document_type),
                                    country_code: Some(country_code),
                                    name: Some(name),
                                    document_number: Some(document_number),
                                    nationality: Some(nationality),
                                    birthdate: Some(birthdate),
                                    sex: Some(sex),
                                    expiry_date: Some(expiry_date),
                                    optional_data_1: Some(optional_data),
                                    optional_data_2: None,
                                    final_check_digit: Some(final_check_digit),
                                },
                                issuing_state: country_name_of(country_code.value),
                            },
                        ),
                    }
                },
            },
        }
    }
}

/// A TD2 document whose first character is the visa marker is reported as
/// a visa, and its verdict asks nothing of a final composite check digit:
/// it is exactly the conjunction of the three local field verdicts.
pub proof fn lemma_visa_has_no_composite_requirement(input: Seq<Seq<char>>)
    requires
        td2_model(input) is Ok,
        input.len() == 2,
        input[0].len() == 36,
        input[0][0] == 'V',
    ensures
        td2_model(input)->Ok_0.is_visa,
        td2_model(input)->Ok_0.is_valid == {
            let l2 = input[1];
            let document_number = extract_field(true, FieldType::DocumentNumber, l2, 0, 9, true)->Ok_0;
            let birthdate = extract_field(true, FieldType::Birthdate, l2, 13, 6, true)->Ok_0;
            let expiry_date = extract_field(true, FieldType::ExpiryDate, l2, 21, 6, true)->Ok_0;
            document_number.is_valid && birthdate.is_valid && expiry_date.is_valid
        },
{
}

/// The composite checksum input of a well-formed non-visa TD2 zone, read
/// straight off the second line: the three checked windows with their
/// check digit positions, then the optional-data window.
pub open spec fn td2_clean_composite(input: Seq<Seq<char>>) -> Seq<char> {
    input[1].subrange(0, 9) + seq![input[1][9]] + input[1].subrange(13, 19) + seq![input[1][19]]
        + input[1].subrange(21, 27) + seq![input[1][27]] + input[1].subrange(28, 35)
}

/// Round trip for a non-visa TD2 zone: two lines of thirty-six whose
/// field windows lie in the MRZ alphabet, whose date windows hold only
/// digits and fillers, and whose four check digits are the correctly
/// computed ones, parse successfully and are reported valid.
pub proof fn lemma_td2_round_trip(input: Seq<Seq<char>>)
    requires
        input.len() == 2,
        input[0].len() == 36,
        input[1].len() == 36,
        input[0][0] != 'V',
        mrz_ok(input[1].subrange(0, 9)),
        mrz_ok(input[1].subrange(28, 35)),
        forall|j: int|
            13 <= j < 19 ==> ('0' as int <= #[trigger] input[1][j] as int <= '9' as int
                || input[1][j] == '<'),
        forall|j: int|
            21 <= j < 27 ==> ('0' as int <= #[trigger] input[1][j] as int <= '9' as int
                || input[1][j] == '<'),
        input[1][9] == check_digit_char(input[1].subrange(0, 9)),
        input[1][19] == check_digit_char(input[1].subrange(13, 19)),
        input[1][27] == check_digit_char(input[1].subrange(21, 27)),
        input[1][35] == check_digit_char(td2_clean_composite(input)),
    ensures
        td2_model(input) is Ok,
        td2_model(input)->Ok_0.is_valid,
        !td2_model(input)->Ok_0.is_visa,
{
    let l2 = input[1];
    lemma_clean_plain_field(FieldType::DocumentNumber, l2, 0, 9);
    lemma_clean_date_field(FieldType::Birthdate, l2, 13, 6);
    lemma_clean_date_field(FieldType::ExpiryDate, l2, 21, 6);

    let dn = extract_field(true, FieldType::DocumentNumber, l2, 0, 9, true)->Ok_0;
    let bd = extract_field(true, FieldType::Birthdate, l2, 13, 6, true)->Ok_0;
    let ed = extract_field(true, FieldType::ExpiryDate, l2, 21, 6, true)->Ok_0;
    let od = extract_field(true, FieldType::PersonalNumber, l2, 28, 7, true)->Ok_0;
    let fcd = extract_field(true, FieldType::Hash, l2, 35, 1, false)->Ok_0;
    // The optional data's own trailing check digit plays no part in the
    // composite; only its window does.
    assert(od.raw_value == l2.subrange(28, 35));

    let comp = td2_clean_composite(input);
    crate::utils::lemma_check_digit_char_is_digit(comp);
    let hash_raw = l2.subrange(35, 36);
    assert(hash_raw =~= seq![l2[35]]);
    assert forall|j: int|
        0 <= j < hash_raw.len() implies ('0' as int <= #[trigger] hash_raw[j] as int <= '9' as int
        || hash_raw[j] == '<') by {
        assert(hash_raw[j] == l2[35]);
    }
    crate::utils::lemma_letter_to_digit_identity(hash_raw);
    assert(fcd.raw_value == hash_raw);

    assert(td2_composite(dn, bd, ed, od) =~= comp);

    crate::utils::lemma_check_digit_char_is_digit(l2.subrange(0, 9));
    crate::utils::lemma_check_digit_char_is_digit(l2.subrange(13, 19));
    crate::utils::lemma_check_digit_char_is_digit(l2.subrange(21, 27));
    assert(mrz_ok(dn.check_digit)) by {
        assert(dn.check_digit[0] == l2[9]);
    }
    assert(mrz_ok(bd.raw_value)) by {
        assert forall|j: int| 0 <= j < bd.raw_value.len() implies crate::utils::is_mrz_char(
            #[trigger] bd.raw_value[j],
        ) by {
            assert(bd.raw_value[j] == l2[13 + j]);
        }
    }
    assert(mrz_ok(bd.check_digit)) by {
        assert(bd.check_digit[0] == l2[19]);
    }
    assert(mrz_ok(ed.raw_value)) by {
        assert forall|j: int| 0 <= j < ed.raw_value.len() implies crate::utils::is_mrz_char(
            #[trigger] ed.raw_value[j],
        ) by {
            assert(ed.raw_value[j] == l2[21 + j]);
        }
    }
    assert(mrz_ok(ed.check_digit)) by {
        assert(ed.check_digit[0] == l2[27]);
    }
    lemma_mrz_ok_concat(dn.raw_value, dn.check_digit);
    lemma_mrz_ok_concat(dn.raw_value + dn.check_digit, bd.raw_value);
    lemma_mrz_ok_concat(dn.raw_value + dn.check_digit + bd.raw_value, bd.check_digit);
    lemma_mrz_ok_concat(
        dn.raw_value + dn.check_digit + bd.raw_value + bd.check_digit,
        ed.raw_value,
    );
    lemma_mrz_ok_concat(
        dn.raw_value + dn.check_digit + bd.raw_value + bd.check_digit + ed.raw_value,
        ed.check_digit,
    );
    lemma_mrz_ok_concat(
        dn.raw_value + dn.check_digit + bd.raw_value + bd.check_digit + ed.raw_value
            + ed.check_digit,
        od.raw_value,
    );
    assert(mrz_ok(td2_composite(dn, bd, ed, od)));

    assert(fcd.raw_value =~= check_digit_seq(td2_composite(dn, bd, ed, od)));
    assert(td2_validate(dn, bd, ed, od, Some(fcd)) == Ok::<bool, MrzError>(true));
}

/// Round trip for a TD2 visa: with the visa marker in front, only the
/// three checked fields decide, so a zone whose document number window
/// lies in the MRZ alphabet, whose date windows hold only digits and
/// fillers, and whose three check digits are the correctly computed ones,
/// parses successfully and is reported a valid visa.
pub proof fn lemma_td2_visa_round_trip(input: Seq<Seq<char>>)
    requires
        input.len() == 2,
        input[0].len() == 36,
        input[1].len() == 36,
        input[0][0] == 'V',
        mrz_ok(input[1].subrange(0, 9)),
        forall|j: int|
            13 <= j < 19 ==> ('0' as int <= #[trigger] input[1][j] as int <= '9' as int
                || input[1][j] == '<'),
        forall|j: int|
            21 <= j < 27 ==> ('0' as int <= #[trigger] input[1][j] as int <= '9' as int
                || input[1][j] == '<'),
        input[1][9] == check_digit_char(input[1].subrange(0, 9)),
        input[1][19] == check_digit_char(input[1].subrange(13, 19)),
        input[1][27] == check_digit_char(input[1].subrange(21, 27)),
    ensures
        td2_model(input) is Ok,
        td2_model(input)->Ok_0.is_valid,
        td2_model(input)->Ok_0.is_visa,
{
    let l2 = input[1];
    lemma_clean_plain_field(FieldType::DocumentNumber, l2, 0, 9);
    lemma_clean_date_field(FieldType::Birthdate, l2, 13, 6);
    lemma_clean_date_field(FieldType::ExpiryDate, l2, 21, 6);
}

/// The view of an optional borrowed field.
pub open spec fn opt_ref_view(o: Option<&MrzField>) -> Option<FieldModel> {
    match o {
        Some(f) => Some(f@),
        None => None,
    }
}

/// The layout parser for TD2 documents: two lines of thirty-six
/// characters.
#[derive(Default, Debug, Clone)]
pub struct TD2 {}

impl TD2 {
    /// Builds a TD2 layout parser.
    pub fn new() -> Self {
        TD2 {}
    }

    /// Runs the composite checksum (where a final check digit applies)
    /// and joins it with the local verdicts.
    fn validate_all_check_digits(
        &self,
        document_number: &MrzField,
        birthdate: &MrzField,
        expiry_date: &MrzField,
        optional_data: &MrzField,
        final_check_digit: Option<&MrzField>,
    ) -> (r: Result<bool, MrzError>)
        ensures
            r == td2_validate(
                document_number@,
                birthdate@,
                expiry_date@,
                optional_data@,
                opt_ref_view(final_check_digit),
            ),
    {
        if let Some(final_check) = final_check_digit {
            let mut composite = String::new();
            composite.append(document_number.raw_value.as_str());
            composite.append(document_number.check_digit.as_str());
            composite.append(birthdate.raw_value.as_str());
            composite.append(birthdate.check_digit.as_str());
            composite.append(expiry_date.raw_value.as_str());
            composite.append(expiry_date.check_digit.as_str());
            composite.append(optional_data.raw_value.as_str());
            proof {
                assert(composite@ =~= td2_composite(
                    document_number@,
                    birthdate@,
                    expiry_date@,
                    optional_data@,
                ));
            }
            let calculated_check_digit = match calculate_check_digits(composite.as_str()) {
                Ok(d) => d,
                Err(e) => {
                    return Err(e);
                },
            };
            Ok(
                document_number.is_valid && birthdate.is_valid && expiry_date.is_valid && str_eq(
                    calculated_check_digit.as_str(),
                    final_check.raw_value.as_str(),
                ),
            )
        } else {
            Ok(document_number.is_valid && birthdate.is_valid && expiry_date.is_valid)
        }
    }
}

impl IMRZParser for TD2 {
    /// Parses a TD2 zone: extracts the fields at their fixed offsets,
    /// takes the visa branch where the document type starts with `V`, and
    /// finishes with the composite checksum verdict.
    fn parse(&self, input: &Vec<String>) -> (r: Result<MRZResult, MrzError>)
        ensures
            result_matches(r, td2_model(lines_view(input@))),
    {
        if input.len() != 2 {
            return Err(MrzError::InvalidLineLength);
        }
        let mut i: usize = 0;
        while i < input.len()
            invariant
                input@.len() == 2,
                i <= 2,
                forall|j: int| 0 <= j < i ==> #[trigger] input@[j]@.len() == 36,
            decreases input@.len() - i,
        {
            if input[i].as_str().unicode_len() != TYPE2_NUMBER_OF_CHARACTERS_PER_LINE {
                return Err(MrzError::InvalidLineLength);
            }
            i = i + 1;
        }
        let first_line = input[0].as_str();
        let second_line = input[1].as_str();
        let formatter = FieldFormatter::new(true);

        let mut is_visa = false;
        if first_line.get_char(0) == 'V' {
            is_visa = true;
        }

        let document_type = match formatter.field(FieldType::DocumentType, first_line, 0, 2, false) {
            Ok(f) => f,
            Err(e) => {
                return Err(e);
            },
        };
        let country_code = match formatter.field(FieldType::CountryCode, first_line, 2, 3, false) {
            Ok(f) => f,
            Err(e) => {
                return Err(e);
            },
        };
        let name = match formatter.field(FieldType::Names, first_line, 5, 31, false) {
            Ok(f) => f,
            Err(e) => {
                return Err(e);
            },
        };

        let document_number = match formatter.field(
            FieldType::DocumentNumber,
            second_line,
            0,
            9,
            true,
        ) {
            Ok(f) => f,
            Err(e) => {
                return Err(e);
            },
        };
        let nationality = match formatter.field(FieldType::Nationality, second_line, 10, 3, false) {
            Ok(f) => f,
            Err(e) => {
                return Err(e);
            },
        };
        let birthdate = match formatter.field(FieldType::Birthdate, second_line, 13, 6, true) {
            Ok(f) => f,
            Err(e) => {
                return Err(e);
            },
        };
        let sex = match formatter.field(FieldType::Sex, second_line, 20, 1, false) {
            Ok(f) => f,
            Err(e) => {
                return Err(e);
            },
        };
        let expiry_date = match formatter.field(FieldType::ExpiryDate, second_line, 21, 6, true) {
            Ok(f) => f,
            Err(e) => {
                return Err(e);
            },
        };

        let optional_data: MrzField;
        let final_check_digit: MrzField;
        let is_valid: bool;

        if is_visa {
            optional_data = match formatter.field(
                FieldType::PersonalNumber,
                second_line,
                28,
                8,
                false,
            ) {
                Ok(f) => f,
                Err(e) => {
                    return Err(e);
                },
            };
            final_check_digit = MrzField {
                value: String::new(),
                raw_value: String::new(),
                check_digit: String::new(),
                is_valid: true,
            };
            is_valid = match self.validate_all_check_digits(
                &document_number,
                &birthdate,
                &expiry_date,
                &optional_data,
                None,
            ) {
                Ok(b) => b,
                Err(e) => {
                    return Err(e);
                },
            };
        } else {
            optional_data = match formatter.field(
                FieldType::PersonalNumber,
                second_line,
                28,
                7,
                true,
            ) {
                Ok(f) => f,
                Err(e) => {
                    return Err(e);
                },
            };
            final_check_digit = match formatter.field(FieldType::Hash, second_line, 35, 1, false) {
                Ok(f) => f,
                Err(e) => {
                    return Err(e);
                },
            };
            is_valid = match self.validate_all_check_digits(
                &document_number,
                &birthdate,
                &expiry_date,
                &optional_data,
                Some(&final_check_digit),
            ) {
                Ok(b) => b,
                Err(e) => {
                    return Err(e);
                },
            };
        }

        let issuing_state = country_name(country_code.value.as_str());

        let fields = MrzFields {
            document_type: Some(document_type),
            country_code: Some(country_code),
            name: Some(name),
            document_number: Some(document_number),
            nationality: Some(nationality),
            birthdate: Some(birthdate),
            sex: Some(sex),
            expiry_date: Some(expiry_date),
            optional_data_1: Some(optional_data),
            optional_data_2: None,
            final_check_digit: Some(final_check_digit),
        };

        Ok(MRZResult { is_visa, is_valid, fields, issuing_state })
    }
}

} // verus!
