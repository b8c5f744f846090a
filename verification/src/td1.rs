use vstd::prelude::*;

verus! {

use crate::constants::{country_name, country_name_of, TYPE1_NUMBER_OF_CHARACTERS_PER_LINE};
use crate::error::MrzError;
use crate::field_formatter::{FieldFormatter, FieldType, extract_field, lemma_clean_date_field,
    lemma_clean_plain_field};
use crate::mrz_field::{MrzField, FieldModel};
use crate::parser::{IMRZParser, MRZResult, MrzFields, FieldsModel, ResultModel, lines_view,
    result_matches};
use crate::utils::{calculate_check_digits, check_digit_char, check_digit_seq, lemma_mrz_ok_concat,
    mrz_ok, str_eq};

/// The composite checksum input of a TD1 document: the raw values and
/// check digits of the five checksum-covered fields, concatenated.
pub open spec fn td1_composite(
    document_number: FieldModel,
    optional_data1: FieldModel,
    birthdate: FieldModel,
    expiry_date: FieldModel,
    optional_data2: FieldModel,
) -> Seq<char> {
    document_number.raw_value + document_number.check_digit + optional_data1.raw_value
        + optional_data1.check_digit + birthdate.raw_value + birthdate.check_digit
        + expiry_date.raw_value + expiry_date.check_digit + optional_data2.raw_value
        + optional_data2.check_digit
}

/// The overall TD1 verdict. The document number, birthdate and expiry
/// fields each pass their own check, and the final check digit equals
/// the composite check digit. Fails
/// where the composite string leaves the MRZ alphabet.
pub open spec fn td1_validate(
    document_number: FieldModel,
    optional_data1: FieldModel,
    birthdate: FieldModel,
    expiry_date: FieldModel,
    optional_data2: FieldModel,
    final_check_digit: FieldModel,
) -> Result<bool, MrzError> {
    let composite = td1_composite(
        document_number,
        optional_data1,
        birthdate,
        expiry_date,
        optional_data2,
    );
    if !mrz_ok(composite) {
        Err(MrzError::InvalidCharacter)
    } else {
        Ok(
            document_number.is_valid && birthdate.is_valid && expiry_date.is_valid
                && final_check_digit.value == check_digit_seq(composite),
        )
    }
}

/// The model of a TD1 parse: three lines of thirty characters, the fixed
/// TD1 field layout, and the composite checksum verdict.
pub open spec fn td1_model(input: Seq<Seq<char>>) -> Result<ResultModel, MrzError> {
    if input.len() != 3 {
        Err(MrzError::InvalidLineLength)
    } else if !(input[0].len() == 30 && input[1].len() == 30 && input[2].len() == 30) {
        Err(MrzError::InvalidLineLength)
    } else {
        let l1 = input[0];
        let l2 = input[1];
        let l3 = input[2];
        let document_type = extract_field(true, FieldType::DocumentType, l1, 0, 2, false)->Ok_0;
        let country_code = extract_field(true, FieldType::CountryCode, l1, 2, 3, false)->Ok_0;
        let document_number = extract_field(true, FieldType::DocumentNumber, l1, 5, 9, true)->Ok_0;
        let optional_data1 = extract_field(true, FieldType::OptionalData, l1, 15, 15, false)->Ok_0;
        let sex = extract_field(true, FieldType::Sex, l2, 7, 1, false)->Ok_0;
        let nationality = extract_field(true, FieldType::Nationality, l2, 15, 3, false)->Ok_0;
        let optional_data2 = extract_field(true, FieldType::OptionalData, l2, 18, 11, false)->Ok_0;
        let final_check_digit = extract_field(true, FieldType::Hash, l2, 29, 1, false)->Ok_0;
        let name = extract_field(true, FieldType::Names, l3, 0, 30, false)->Ok_0;
        match extract_field(true, FieldType::Birthdate, l2, 0, 6, true) {
            Err(e) => Err(e),
            Ok(birthdate) => match extract_field(true, FieldType::ExpiryDate, l2, 8, 6, true) {
                Err(e) => Err(e),
                Ok(expiry_date) => match td1_validate(
                    document_number,
                    optional_data1,
                    birthdate,
                    expiry_date,
                    optional_data2,
                    final_check_digit,
                ) {
                    Err(e) => Err(e),
                    Ok(valid) => Ok(
                        ResultModel {
                            is_visa: false,
                            is_valid: valid,
                            fields: FieldsModel {
                                document_type: Some(document_type),
                                country_code: Some(country_code),
                                name: Some(name),
                                document_number: Some(document_number),
                                nationality: Some(nationality),
                                birthdate: Some(birthdate),
                                sex: Some(sex),
                                expiry_date: Some(expiry_date),
                                optional_data_1: Some(optional_data1),
                                optional_data_2: Some(optional_data2),
                                final_check_digit: Some(final_check_digit),
                            },
                            issuing_state: country_name_of(country_code.value),
                        },
                    ),
                },
            },
        }
    }
}

/// The composite checksum input of a well-formed TD1 zone, read straight
/// off the lines: the five covered windows with their check digit
/// positions.
pub open spec fn td1_clean_composite(input: Seq<Seq<char>>) -> Seq<char> {
    input[0].subrange(5, 14) + seq![input[0][14]] + input[0].subrange(15, 30) + input[1].subrange(
        0,
        6,
    ) + seq![input[1][6]] + input[1].subrange(8, 14) + seq![input[1][14]] + input[1].subrange(
        18,
        29,
    )
}

/// Round trip for TD1: a three-by-thirty zone whose field windows lie in
/// the MRZ alphabet, whose date windows hold only digits and fillers, and
/// whose four check digits are the correctly computed ones, parses
/// successfully and is reported valid.
pub proof fn lemma_td1_round_trip(input: Seq<Seq<char>>)
    requires
        input.len() == 3,
        input[0].len() == 30,
        input[1].len() == 30,
        input[2].len() == 30,
        mrz_ok(input[0].subrange(5, 14)),
        mrz_ok(input[0].subrange(15, 30)),
        mrz_ok(input[1].subrange(18, 29)),
        forall|j: int|
            0 <= j < 6 ==> ('0' as int <= #[trigger] input[1][j] as int <= '9' as int
                || input[1][j] == '<'),
        forall|j: int|
            8 <= j < 14 ==> ('0' as int <= #[trigger] input[1][j] as int <= '9' as int
                || input[1][j] == '<'),
        input[0][14] == check_digit_char(input[0].subrange(5, 14)),
        input[1][6] == check_digit_char(input[1].subrange(0, 6)),
        input[1][14] == check_digit_char(input[1].subrange(8, 14)),
        input[1][29] == check_digit_char(td1_clean_composite(input)),
    ensures
        td1_model(input) is Ok,
        td1_model(input)->Ok_0.is_valid,
{
    let l1 = input[0];
    let l2 = input[1];
    lemma_clean_plain_field(FieldType::DocumentNumber, l1, 5, 9);
    lemma_clean_date_field(FieldType::Birthdate, l2, 0, 6);
    lemma_clean_date_field(FieldType::ExpiryDate, l2, 8, 6);

    let dn = extract_field(true, FieldType::DocumentNumber, l1, 5, 9, true)->Ok_0;
    let bd = extract_field(true, FieldType::Birthdate, l2, 0, 6, true)->Ok_0;
    let ed = extract_field(true, FieldType::ExpiryDate, l2, 8, 6, true)->Ok_0;
    let od1 = extract_field(true, FieldType::OptionalData, l1, 15, 15, false)->Ok_0;
    let od2 = extract_field(true, FieldType::OptionalData, l2, 18, 11, false)->Ok_0;
    let fcd = extract_field(true, FieldType::Hash, l2, 29, 1, false)->Ok_0;

    assert(od1.raw_value == l1.subrange(15, 30));
    assert(od1.check_digit == Seq::<char>::empty());
    assert(od2.raw_value == l2.subrange(18, 29));
    assert(od2.check_digit == Seq::<char>::empty());

    let comp = td1_clean_composite(input);
    crate::utils::lemma_check_digit_char_is_digit(comp);
    let hash_raw = l2.subrange(29, 30);
    assert(hash_raw =~= seq![l2[29]]);
    assert forall|j: int|
        0 <= j < hash_raw.len() implies ('0' as int <= #[trigger] hash_raw[j] as int <= '9' as int
        || hash_raw[j] == '<') by {
        assert(hash_raw[j] == l2[29]);
    }
    crate::utils::lemma_letter_to_digit_identity(hash_raw);
    assert(fcd.value == hash_raw);

    // the composite the model builds is the one read off the lines
    assert(td1_composite(dn, od1, bd, ed, od2) =~= comp);

    // the composite stays inside the MRZ alphabet
    crate::utils::lemma_check_digit_char_is_digit(l1.subrange(5, 14));
    crate::utils::lemma_check_digit_char_is_digit(l2.subrange(0, 6));
    crate::utils::lemma_check_digit_char_is_digit(l2.subrange(8, 14));
    assert(mrz_ok(dn.check_digit)) by {
        assert(dn.check_digit[0] == l1[14]);
    }
    assert(mrz_ok(bd.raw_value)) by {
        assert forall|j: int| 0 <= j < bd.raw_value.len() implies crate::utils::is_mrz_char(
            #[trigger] bd.raw_value[j],
        ) by {
            assert(bd.raw_value[j] == l2[j]);
        }
    }
    assert(mrz_ok(bd.check_digit)) by {
        assert(bd.check_digit[0] == l2[6]);
    }
    assert(mrz_ok(ed.raw_value)) by {
        assert forall|j: int| 0 <= j < ed.raw_value.len() implies crate::utils::is_mrz_char(
            #[trigger] ed.raw_value[j],
        ) by {
            assert(ed.raw_value[j] == l2[8 + j]);
        }
    }
    assert(mrz_ok(ed.check_digit)) by {
        assert(ed.check_digit[0] == l2[14]);
    }
    lemma_mrz_ok_concat(dn.raw_value, dn.check_digit);
    lemma_mrz_ok_concat(dn.raw_value + dn.check_digit, od1.raw_value);
    lemma_mrz_ok_concat(dn.raw_value + dn.check_digit + od1.raw_value, od1.check_digit);
    lemma_mrz_ok_concat(
        dn.raw_value + dn.check_digit + od1.raw_value + od1.check_digit,
        bd.raw_value,
    );
    lemma_mrz_ok_concat(
        dn.raw_value + dn.check_digit + od1.raw_value + od1.check_digit + bd.raw_value,
        bd.check_digit,
    );
    lemma_mrz_ok_concat(
        dn.raw_value + dn.check_digit + od1.raw_value + od1.check_digit + bd.raw_value
            + bd.check_digit,
        ed.raw_value,
    );
    lemma_mrz_ok_concat(
        dn.raw_value + dn.check_digit + od1.raw_value + od1.check_digit + bd.raw_value
            + bd.check_digit + ed.raw_value,
        ed.check_digit,
    );
    lemma_mrz_ok_concat(
        dn.raw_value + dn.check_digit + od1.raw_value + od1.check_digit + bd.raw_value
            + bd.check_digit + ed.raw_value + ed.check_digit,
        od2.raw_value,
    );
    lemma_mrz_ok_concat(
        dn.raw_value + dn.check_digit + od1.raw_value + od1.check_digit + bd.raw_value
            + bd.check_digit + ed.raw_value + ed.check_digit + od2.raw_value,
        od2.check_digit,
    );
    assert(mrz_ok(td1_composite(dn, od1, bd, ed, od2)));

    assert(fcd.value =~= check_digit_seq(td1_composite(dn, od1, bd, ed, od2)));
    assert(td1_validate(dn, od1, bd, ed, od2, fcd) == Ok::<bool, MrzError>(true));
}

/// Tamper sensitivity at the parse level: in a TD1 zone that parses with
/// a locally valid document number and a proper (non-filler) check digit,
/// replacing one character of the document-number window by another MRZ
/// character makes the whole parse come back with `is_valid` false —
/// whenever the weighted difference of the two character values is not a
/// multiple of ten.
pub proof fn lemma_td1_tampered_document_number(input: Seq<Seq<char>>, j: int, c: char)
    requires
        input.len() == 3,
        input[0].len() == 30,
        input[1].len() == 30,
        input[2].len() == 30,
        td1_model(input) is Ok,
        5 <= j < 14,
        input[0][14] != '<',
        crate::utils::is_mrz_char(c),
        extract_field(true, FieldType::DocumentNumber, input[0], 5, 9, true)->Ok_0.is_valid,
        (crate::utils::weight_at(j - 5) * (crate::utils::char_value(c)
            - crate::utils::char_value(input[0][j]))) % 10 != 0,
    ensures
        td1_model(input.update(0, input[0].update(j, c))) is Ok,
        !td1_model(input.update(0, input[0].update(j, c)))->Ok_0.is_valid,
{
    let l1 = input[0];
    let l2 = input[1];
    let tampered = input.update(0, l1.update(j, c));
    assert(tampered[0] == l1.update(j, c));
    assert(tampered[1] == l2);
    assert(tampered[2] == input[2]);

    let raw = l1.subrange(5, 14);
    let raw2 = tampered[0].subrange(5, 14);
    assert(raw2 =~= raw.update(j - 5, c));
    let cd = seq![l1[14]];
    assert(cd != seq!['<']) by {
        assert(cd[0] == l1[14]);
        assert(seq!['<'][0] == '<');
    }
    assert(tampered[0][14] == l1[14]);

    // the untampered document number validated, so its check digit is the
    // computed one; the tampered window computes another
    let dn = extract_field(true, FieldType::DocumentNumber, l1, 5, 9, true)->Ok_0;
    assert(dn.is_valid == crate::mrz_field::finalized_valid(raw, cd));
    crate::mrz_field::lemma_tamper_invalidates_field(raw, cd, j - 5, c);

    let dn2 = extract_field(true, FieldType::DocumentNumber, tampered[0], 5, 9, true)->Ok_0;
    assert(dn2.raw_value == raw2);
    assert(dn2.check_digit == cd);
    assert(!dn2.is_valid);

    // every other field reads a window the flip does not touch
    assert(tampered[0].subrange(0, 2) =~= l1.subrange(0, 2));
    assert(tampered[0].subrange(2, 5) =~= l1.subrange(2, 5));
    assert(tampered[0].subrange(15, 30) =~= l1.subrange(15, 30));
    let od1 = extract_field(true, FieldType::OptionalData, l1, 15, 15, false)->Ok_0;
    let od12 = extract_field(true, FieldType::OptionalData, tampered[0], 15, 15, false)->Ok_0;
    assert(od12 == od1);

    // the untampered parse got past its composite checksum
    let bd = extract_field(true, FieldType::Birthdate, l2, 0, 6, true)->Ok_0;
    let ed = extract_field(true, FieldType::ExpiryDate, l2, 8, 6, true)->Ok_0;
    let od2 = extract_field(true, FieldType::OptionalData, l2, 18, 11, false)->Ok_0;
    let composite1 = td1_composite(dn, od1, bd, ed, od2);
    assert(mrz_ok(composite1));

    // the tampered composite differs in exactly the flipped position
    let composite2 = td1_composite(dn2, od1, bd, ed, od2);
    assert(composite2 =~= composite1.update(j - 5, c));
    assert(mrz_ok(composite2)) by {
        assert forall|k: int| 0 <= k < composite2.len() implies crate::utils::is_mrz_char(
            #[trigger] composite2[k],
        ) by {
            if k != j - 5 {
                assert(composite2[k] == composite1[k]);
            }
        }
    }
    assert(td1_validate(dn2, od1, bd, ed, od2, extract_field(true, FieldType::Hash, l2, 29, 1, false)->Ok_0)
        == Ok::<bool, MrzError>(false));
}

/// The layout parser for TD1 documents: three lines of thirty characters.
#[derive(Default, Debug, Clone)]
pub struct TD1 {}

impl TD1 {
    /// Builds a TD1 layout parser.
    pub fn new() -> Self {
        TD1 {}
    }

    /// Runs the composite checksum over the five covered fields and joins
    /// it with their local verdicts.
    pub fn validate_all_check_digits(
        &self,
        document_number: &MrzField,
        optional_data1: &MrzField,
        birthdate: &MrzField,
        expiry_date: &MrzField,
        optional_data2: &MrzField,
        final_check_digit: &MrzField,
    ) -> (r: Result<bool, MrzError>)
        ensures
            r == td1_validate(
                document_number@,
                optional_data1@,
                birthdate@,
                expiry_date@,
                optional_data2@,
                final_check_digit@,
            ),
    {
        let mut composite = String::new();
        composite.append(document_number.raw_value.as_str());
        composite.append(document_number.check_digit.as_str());
        composite.append(optional_data1.raw_value.as_str());
        composite.append(optional_data1.check_digit.as_str());
        composite.append(birthdate.raw_value.as_str());
        composite.append(birthdate.check_digit.as_str());
        composite.append(expiry_date.raw_value.as_str());
        composite.append(expiry_date.check_digit.as_str());
        composite.append(optional_data2.raw_value.as_str());
        composite.append(optional_data2.check_digit.as_str());
        proof {
            assert(composite@ =~= td1_composite(
                document_number@,
                optional_data1@,
                birthdate@,
                expiry_date@,
                optional_data2@,
            ));
        }
        let calculated_check_digit = match calculate_check_digits(composite.as_str()) {
            Ok(d) => d,
            Err(e) => {
                return Err(e);
            },
        };
        Ok(
            document_number.is_valid && birthdate.is_valid && expiry_date.is_valid && str_eq(
                calculated_check_digit.as_str(),
                final_check_digit.value.as_str(),
            ),
        )
    }
}

impl IMRZParser for TD1 {
    /// Parses a TD1 zone: extracts the eleven fields at their fixed
    /// offsets and finishes with the composite checksum verdict.
    fn parse(&self, input: &Vec<String>) -> (r: Result<MRZResult, MrzError>)
        ensures
            result_matches(r, td1_model(lines_view(input@))),
    {
        if input.len() != 3 {
            return Err(MrzError::InvalidLineLength);
        }
        let mut i: usize = 0;
        while i < input.len()
            invariant
                input@.len() == 3,
                i <= 3,
                forall|j: int| 0 <= j < i ==> #[trigger] input@[j]@.len() == 30,
            decreases input@.len() - i,
        {
            if input[i].as_str().unicode_len() != TYPE1_NUMBER_OF_CHARACTERS_PER_LINE {
                return Err(MrzError::InvalidLineLength);
            }
            i = i + 1;
        }
        let first_line = input[0].as_str();
        let second_line = input[1].as_str();
        let third_line = input[2].as_str();

        let formatter = FieldFormatter::new(true);

        let document_type = match formatter.field(FieldType::DocumentType, first_line, 0, 2, false) {
            Ok(f) => f,
            Err(e) => {
                return Err(e);
            },
        };
        let country_code = match formatter.field(FieldType::CountryCode, first_line, 2, 3, false) {
            Ok(f) => f,
            Err(e) => {
                return Err(e);
            },
        };
        let document_number = match formatter.field(
            FieldType::DocumentNumber,
            first_line,
            5,
            9,
            true,
        ) {
            Ok(f) => f,
            Err(e) => {
                return Err(e);
            },
        };
        let optional_data1 = match formatter.field(
            FieldType::OptionalData,
            first_line,
            15,
            15,
            false,
        ) {
            Ok(f) => f,
            Err(e) => {
                return Err(e);
            },
        };

        let birthdate = match formatter.field(FieldType::Birthdate, second_line, 0, 6, true) {
            Ok(f) => f,
            Err(e) => {
                return Err(e);
            },
        };
        let sex = match formatter.field(FieldType::Sex, second_line, 7, 1, false) {
            Ok(f) => f,
            Err(e) => {
                return Err(e);
            },
        };
        let expiry_date = match formatter.field(FieldType::ExpiryDate, second_line, 8, 6, true) {
            Ok(f) => f,
            Err(e) => {
                return Err(e);
            },
        };
        let nationality = match formatter.field(FieldType::Nationality, second_line, 15, 3, false) {
            Ok(f) => f,
            Err(e) => {
                return Err(e);
            },
        };
        let optional_data2 = match formatter.field(
            FieldType::OptionalData,
            second_line,
            18,
            11,
            false,
        ) {
            Ok(f) => f,
            Err(e) => {
                return Err(e);
            },
        };
        let final_check_digit = match formatter.field(FieldType::Hash, second_line, 29, 1, false) {
            Ok(f) => f,
            Err(e) => {
                return Err(e);
            },
        };

        let name = match formatter.field(FieldType::Names, third_line, 0, 30, false) {
            Ok(f) => f,
            Err(e) => {
                return Err(e);
            },
        };

        let is_valid = match self.validate_all_check_digits(
            &document_number,
            &optional_data1,
            &birthdate,
            &expiry_date,
            &optional_data2,
            &final_check_digit,
        ) {
            Ok(b) => b,
            Err(e) => {
                return Err(e);
            },
        };

        let issuing_state = country_name(country_code.value.as_str());

        let fields = MrzFields {
            document_type: Some(document_type),
            country_code: Some(country_code),
            name: Some(name),
            document_number: Some(document_number),
            nationality: Some(nationality),
            birthdate: Some(birthdate),
            sex: Some(sex),
            expiry_date: Some(expiry_date),
            optional_data_1: Some(optional_data1),
            optional_data_2: Some(optional_data2),
            final_check_digit: Some(final_check_digit),
        };

        Ok(MRZResult { is_visa: false, is_valid, fields, issuing_state })
    }
}

} // verus!
