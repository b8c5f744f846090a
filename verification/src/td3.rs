use vstd::prelude::*;

verus! {

use crate::constants::{country_name, country_name_of, TYPE3_NUMBER_OF_CHARACTERS_PER_LINE};
use crate::error::MrzError;
use crate::field_formatter::{FieldFormatter, FieldType, extract_field, lemma_clean_date_field,
    lemma_clean_plain_field};
use crate::mrz_field::{MrzField, FieldModel};
use crate::parser::{IMRZParser, MRZResult, MrzFields, FieldsModel, ResultModel, lines_view,
    result_matches};
use crate::utils::{calculate_check_digits, check_digit_char, check_digit_seq, lemma_mrz_ok_concat,
    mrz_ok, str_eq};

/// The composite checksum input of a TD3 document: document number,
/// birthdate, expiry date and personal number, each with its check digit.
pub open spec fn td3_composite(
    document_number: FieldModel,
    birthdate: FieldModel,
    expiry_date: FieldModel,
    personal_number: FieldModel,
) -> Seq<char> {
    document_number.raw_value + document_number.check_digit + birthdate.raw_value
        + birthdate.check_digit + expiry_date.raw_value + expiry_date.check_digit
        + personal_number.raw_value + personal_number.check_digit
}

/// The overall TD3 verdict. The document number, birthdate and expiry
/// fields each pass their own check, and the final check digit equals
/// the composite check digit. Fails
/// where the composite string leaves the MRZ alphabet.
pub open spec fn td3_validate(
    document_number: FieldModel,
    birthdate: FieldModel,
    expiry_date: FieldModel,
    personal_number: FieldModel,
    final_check_digit: FieldModel,
) -> Result<bool, MrzError> {
    let composite = td3_composite(document_number, birthdate, expiry_date, personal_number);
    if !mrz_ok(composite) {
        Err(MrzError::InvalidCharacter)
    } else {
        Ok(
            document_number.is_valid && birthdate.is_valid && expiry_date.is_valid
                && final_check_digit.value == check_digit_seq(composite),
        )
    }
}

/// The model of a TD3 parse: two lines of forty-four characters, the
/// fixed TD3 field layout, and the composite checksum verdict.
pub open spec fn td3_model(input: Seq<Seq<char>>) -> Result<ResultModel, MrzError> {
    if input.len() != 2 {
        Err(MrzError::InvalidLineLength)
    } else if !(input[0].len() == 44 && input[1].len() == 44) {
        Err(MrzError::InvalidLineLength)
    } else {
        let l1 = input[0];
        let l2 = input[1];
        let document_type = extract_field(true, FieldType::DocumentType, l1, 0, 2, false)->Ok_0;
        let country_code = extract_field(true, FieldType::CountryCode, l1, 2, 3, false)->Ok_0;
        let name = extract_field(true, FieldType::Names, l1, 5, 39, false)->Ok_0;
        let document_number = extract_field(true, FieldType::DocumentNumber, l2, 0, 9, true)->Ok_0;
        let nationality = extract_field(true, FieldType::Nationality, l2, 10, 3, false)->Ok_0;
        let sex = extract_field(true, FieldType::Sex, l2, 20, 1, false)->Ok_0;
        let personal_number = extract_field(true, FieldType::PersonalNumber, l2, 28, 14, true)->Ok_0;
        let final_check_digit = extract_field(true, FieldType::Hash, l2, 43, 1, false)->Ok_0;
        match extract_field(true, FieldType::Birthdate, l2, 13, 6, true) {
            Err(e) => Err(e),
            Ok(birthdate) => match extract_field(true, FieldType::ExpiryDate, l2, 21, 6, true) {
                Err(e) => Err(e),
                Ok(expiry_date) => match td3_validate(
                    document_number,
                    birthdate,
                    expiry_date,
                    personal_number,
                    final_check_digit,
                ) {
                    Err(e) => Err(e),
                    Ok(valid) => Ok(
                        ResultModel {
                            is_visa: false,
                            is_valid: valid,
                            fields: FieldsModel {
                                document_type: Some(document_type),
                                country_code: Some(country_code),
                                name: Some(name),
                                document_number: Some(document_number),
                                nationality: Some(nationality),
                                birthdate: Some(birthdate),
                                sex: Some(sex),
                                expiry_date: Some(expiry_date),
                                optional_data_1: Some(personal_number),
                                optional_data_2: None,
                                final_check_digit: Some(final_check_digit),
                            },
                            issuing_state: country_name_of(country_code.value),
                        },
                    ),
                },
            },
        }
    }
}

/// The composite checksum input of a well-formed TD3 zone, read straight
/// off the second line: the four covered windows with their check digit
/// positions.
pub open spec fn td3_clean_composite(input: Seq<Seq<char>>) -> Seq<char> {
    input[1].subrange(0, 9) + seq![input[1][9]] + input[1].subrange(13, 19) + seq![input[1][19]]
        + input[1].subrange(21, 27) + seq![input[1][27]] + input[1].subrange(28, 42) + seq![
        input[1][42],
    ]
}

/// Round trip for TD3: two lines of forty-four whose field windows lie
/// in the MRZ alphabet, whose date windows hold only digits and fillers,
/// and whose five check digits are the correctly computed ones, parse
/// successfully and are reported valid.
pub proof fn lemma_td3_round_trip(input: Seq<Seq<char>>)
    requires
        input.len() == 2,
        input[0].len() == 44,
        input[1].len() == 44,
        mrz_ok(input[1].subrange(0, 9)),
        mrz_ok(input[1].subrange(28, 42)),
        forall|j: int|
            13 <= j < 19 ==> ('0' as int <= #[trigger] input[1][j] as int <= '9' as int
                || input[1][j] == '<'),
        forall|j: int|
            21 <= j < 27 ==> ('0' as int <= #[trigger] input[1][j] as int <= '9' as int
                || input[1][j] == '<'),
        input[1][9] == check_digit_char(input[1].subrange(0, 9)),
        input[1][19] == check_digit_char(input[1].subrange(13, 19)),
        input[1][27] == check_digit_char(input[1].subrange(21, 27)),
        input[1][42] == check_digit_char(input[1].subrange(28, 42)),
        input[1][43] == check_digit_char(td3_clean_composite(input)),
    ensures
        td3_model(input) is Ok,
        td3_model(input)->Ok_0.is_valid,
{
    let l2 = input[1];
    lemma_clean_plain_field(FieldType::DocumentNumber, l2, 0, 9);
    lemma_clean_date_field(FieldType::Birthdate, l2, 13, 6);
    lemma_clean_date_field(FieldType::ExpiryDate, l2, 21, 6);
    lemma_clean_plain_field(FieldType::PersonalNumber, l2, 28, 14);

    let dn = extract_field(true, FieldType::DocumentNumber, l2, 0, 9, true)->Ok_0;
    let bd = extract_field(true, FieldType::Birthdate, l2, 13, 6, true)->Ok_0;
    let ed = extract_field(true, FieldType::ExpiryDate, l2, 21, 6, true)->Ok_0;
    let pn = extract_field(true, FieldType::PersonalNumber, l2, 28, 14, true)->Ok_0;
    let fcd = extract_field(true, FieldType::Hash, l2, 43, 1, false)->Ok_0;

    let comp = td3_clean_composite(input);
    crate::utils::lemma_check_digit_char_is_digit(comp);
    let hash_raw = l2.subrange(43, 44);
    assert(hash_raw =~= seq![l2[43]]);
    assert forall|j: int|
        0 <= j < hash_raw.len() implies ('0' as int <= #[trigger] hash_raw[j] as int <= '9' as int
        || hash_raw[j] == '<') by {
        assert(hash_raw[j] == l2[43]);
    }
    crate::utils::lemma_letter_to_digit_identity(hash_raw);
    assert(fcd.value == hash_raw);

    assert(td3_composite(dn, bd, ed, pn) =~= comp);

    crate::utils::lemma_check_digit_char_is_digit(l2.subrange(0, 9));
    crate::utils::lemma_check_digit_char_is_digit(l2.subrange(13, 19));
    crate::utils::lemma_check_digit_char_is_digit(l2.subrange(21, 27));
    crate::utils::lemma_check_digit_char_is_digit(l2.subrange(28, 42));
    assert(mrz_ok(dn.check_digit)) by {
        assert(dn.check_digit[0] == l2[9]);
    }
    assert(mrz_ok(bd.raw_value)) by {
        assert forall|j: int| 0 <= j < bd.raw_value.len() implies crate::utils::is_mrz_char(
            #[trigger] bd.raw_value[j],
        ) by {
            assert(bd.raw_value[j] == l2[13 + j]);
        }
    }
    assert(mrz_ok(bd.check_digit)) by {
        assert(bd.check_digit[0] == l2[19]);
    }
    assert(mrz_ok(ed.raw_value)) by {
        assert forall|j: int| 0 <= j < ed.raw_value.len() implies crate::utils::is_mrz_char(
            #[trigger] ed.raw_value[j],
        ) by {
            assert(ed.raw_value[j] == l2[21 + j]);
        }
    }
    assert(mrz_ok(ed.check_digit)) by {
        assert(ed.check_digit[0] == l2[27]);
    }
    assert(mrz_ok(pn.check_digit)) by {
        assert(pn.check_digit[0] == l2[42]);
    }
    lemma_mrz_ok_concat(dn.raw_value, dn.check_digit);
    lemma_mrz_ok_concat(dn.raw_value + dn.check_digit, bd.raw_value);
    lemma_mrz_ok_concat(dn.raw_value + dn.check_digit + bd.raw_value, bd.check_digit);
    lemma_mrz_ok_concat(
        dn.raw_value + dn.check_digit + bd.raw_value + bd.check_digit,
        ed.raw_value,
    );
    lemma_mrz_ok_concat(
        dn.raw_value + dn.check_digit + bd.raw_value + bd.check_digit + ed.raw_value,
        ed.check_digit,
    );
    lemma_mrz_ok_concat(
        dn.raw_value + dn.check_digit + bd.raw_value + bd.check_digit + ed.raw_value
            + ed.check_digit,
        pn.raw_value,
    );
    lemma_mrz_ok_concat(
        dn.raw_value + dn.check_digit + bd.raw_value + bd.check_digit + ed.raw_value
            + ed.check_digit + pn.raw_value,
        pn.check_digit,
    );
    assert(mrz_ok(td3_composite(dn, bd, ed, pn)));

    assert(fcd.value =~= check_digit_seq(td3_composite(dn, bd, ed, pn)));
    assert(td3_validate(dn, bd, ed, pn, fcd) == Ok::<bool, MrzError>(true));
}

/// The layout parser for TD3 documents: two lines of forty-four
/// characters.
#[derive(Default, Debug, Clone)]
pub struct TD3 {}

impl TD3 {
    /// Builds a TD3 layout parser.
    pub fn new() -> Self {
        TD3 {}
    }

    /// Runs the composite checksum over the four covered fields and joins
    /// it with their local verdicts.
    fn validate_all_check_digits(
        &self,
        document_number: &MrzField,
        birthdate: &MrzField,
        expiry_date: &MrzField,
        personal_number: &MrzField,
        final_check_digit: &MrzField,
    ) -> (r: Result<bool, MrzError>)
        ensures
            r == td3_validate(
                document_number@,
                birthdate@,
                expiry_date@,
                personal_number@,
                final_check_digit@,
            ),
    {
        let mut composite = String::new();
        composite.append(document_number.raw_value.as_str());
        composite.append(document_number.check_digit.as_str());
        composite.append(birthdate.raw_value.as_str());
        composite.append(birthdate.check_digit.as_str());
        composite.append(expiry_date.raw_value.as_str());
        composite.append(expiry_date.check_digit.as_str());
        composite.append(personal_number.raw_value.as_str());
        composite.append(personal_number.check_digit.as_str());
        proof {
            assert(composite@ =~= td3_composite(
                document_number@,
                birthdate@,
                expiry_date@,
                personal_number@,
            ));
        }
        let calculated_check_digit = match calculate_check_digits(composite.as_str()) {
            Ok(d) => d,
            Err(e) => {
                return Err(e);
            },
        };
        Ok(
            document_number.is_valid && birthdate.is_valid && expiry_date.is_valid && str_eq(
                calculated_check_digit.as_str(),
                final_check_digit.value.as_str(),
            ),
        )
    }
}

impl IMRZParser for TD3 {
    /// Parses a TD3 zone: extracts the fields at their fixed offsets and
    /// finishes with the composite checksum verdict.
    fn parse(&self, input: &Vec<String>) -> (r: Result<MRZResult, MrzError>)
        ensures
            result_matches(r, td3_model(lines_view(input@))),
    {
        if input.len() != 2 {
            return Err(MrzError::InvalidLineLength);
        }
        let mut i: usize = 0;
        while i < input.len()
            invariant
                input@.len() == 2,
                i <= 2,
                forall|j: int| 0 <= j < i ==> #[trigger] input@[j]@.len() == 44,
            decreases input@.len() - i,
        {
            if input[i].as_str().unicode_len() != TYPE3_NUMBER_OF_CHARACTERS_PER_LINE {
                return Err(MrzError::InvalidLineLength);
            }
            i = i + 1;
        }
        let first_line = input[0].as_str();
        let second_line = input[1].as_str();
        let formatter = FieldFormatter::new(true);

        let document_type = match formatter.field(FieldType::DocumentType, first_line, 0, 2, false) {
            Ok(f) => f,
            Err(e) => {
                return Err(e);
            },
        };
        let country_code = match formatter.field(FieldType::CountryCode, first_line, 2, 3, false) {
            Ok(f) => f,
            Err(e) => {
                return Err(e);
            },
        };
        let name = match formatter.field(FieldType::Names, first_line, 5, 39, false) {
            Ok(f) => f,
            Err(e) => {
                return Err(e);
            },
        };

        let document_number = match formatter.field(
            FieldType::DocumentNumber,
            second_line,
            0,
            9,
            true,
        ) {
            Ok(f) => f,
            Err(e) => {
                return Err(e);
            },
        };
        let nationality = match formatter.field(FieldType::Nationality, second_line, 10, 3, false) {
            Ok(f) => f,
            Err(e) => {
                return Err(e);
            },
        };
        let birthdate = match formatter.field(FieldType::Birthdate, second_line, 13, 6, true) {
            Ok(f) => f,
            Err(e) => {
                return Err(e);
            },
        };
        let sex = match formatter.field(FieldType::Sex, second_line, 20, 1, false) {
            Ok(f) => f,
            Err(e) => {
                return Err(e);
            },
        };
        let expiry_date = match formatter.field(FieldType::ExpiryDate, second_line, 21, 6, true) {
            Ok(f) => f,
            Err(e) => {
                return Err(e);
            },
        };
        let personal_number = match formatter.field(
            FieldType::PersonalNumber,
            second_line,
            28,
            14,
            true,
        ) {
            Ok(f) => f,
            Err(e) => {
                return Err(e);
            },
        };
        let final_check_digit = match formatter.field(FieldType::Hash, second_line, 43, 1, false) {
            Ok(f) => f,
            Err(e) => {
                return Err(e);
            },
        };

        let is_valid = match self.validate_all_check_digits(
            &document_number,
            &birthdate,
            &expiry_date,
            &personal_number,
            &final_check_digit,
        ) {
            Ok(b) => b,
            Err(e) => {
                return Err(e);
            },
        };

        let issuing_state = country_name(country_code.value.as_str());

        let fields = MrzFields {
            document_type: Some(document_type),
            country_code: Some(country_code),
            name: Some(name),
            document_number: Some(document_number),
            nationality: Some(nationality),
            birthdate: Some(birthdate),
            sex: Some(sex),
            expiry_date: Some(expiry_date),
            optional_data_1: Some(personal_number),
            optional_data_2: None,
            final_check_digit: Some(final_check_digit),
        };

        Ok(MRZResult { is_visa: false, is_valid, fields, issuing_state })
    }
}

} // verus!
