use vstd::prelude::*;

verus! {

use crate::error::MrzError;
use crate::mrz_field::{MrzField, FieldModel, finalized_check_digit, finalized_valid};
use crate::utils::{replace_digits, replace_letters, digit_to_letter, letter_to_digit, mrz_ok,
    check_digit_char, char_string, str_contains_char, str_eq, chars_to_string};

/// The semantic type of a field, which selects its OCR-correction table
/// and its display formatting.
#[derive(Debug, Clone, Copy)]
pub enum FieldType {
    Names,
    Birthdate,
    ExpiryDate,
    Sex,
    PersonalNumber,
    OptionalData,
    DocumentType,
    DocumentNumber,
    CountryCode,
    Nationality,
    Alphabetic,
    Numeric,
    Hash,
}

// ------------------------------------------------------------------
// Correction, as specification.
// ------------------------------------------------------------------

/// The sex-field substitution: a `P` is read as an `F`.
pub open spec fn p_to_f(c: char) -> char {
    if c == 'P' {
        'F'
    } else {
        c
    }
}

/// The corrected form of a raw value: date-like and numeric fields get the
/// letter-to-digit table, alphabetic fields the digit-to-letter table, the
/// sex field its own substitution; all other fields pass through.
pub open spec fn corrected_value(field_type: FieldType, s: Seq<char>) -> Seq<char> {
    match field_type {
        FieldType::Birthdate | FieldType::ExpiryDate | FieldType::Hash | FieldType::Numeric => s
            .map_values(|c: char| letter_to_digit(c)),
        FieldType::Names
        | FieldType::DocumentType
        | FieldType::CountryCode
        | FieldType::Nationality
        | FieldType::Alphabetic => s.map_values(|c: char| digit_to_letter(c)),
        FieldType::Sex => s.map_values(|c: char| p_to_f(c)),
        _ => s,
    }
}

// ------------------------------------------------------------------
// Formatting, as specification.
// ------------------------------------------------------------------

/// A filler character displays as a space.
pub open spec fn filler_to_space(c: char) -> char {
    if c == '<' {
        ' '
    } else {
        c
    }
}

/// Whether positions `i` and `i + 1` of `s` hold the name-group separator,
/// a double filler.
pub open spec fn sep_at(s: Seq<char>, i: int) -> bool {
    0 <= i && i + 1 < s.len() && s[i] == '<' && s[i + 1] == '<'
}

/// The position of the first name-group separator in `s`, or -1 where
/// there is none.
pub open spec fn find_sep(s: Seq<char>) -> int
    decreases s.len(),
{
    if s.len() < 2 {
        -1
    } else if s[0] == '<' && s[1] == '<' {
        0
    } else if find_sep(s.drop_first()) < 0 {
        -1
    } else {
        find_sep(s.drop_first()) + 1
    }
}

/// The primary (surname) group: everything before the first separator, or
/// the whole string where there is none.
pub open spec fn primary_group(s: Seq<char>) -> Seq<char> {
    if find_sep(s) < 0 {
        s
    } else {
        s.take(find_sep(s))
    }
}

/// The secondary (given-names) group: the segment between the first
/// separator and the next one, or empty where there is no separator.
pub open spec fn secondary_group(s: Seq<char>) -> Seq<char> {
    if find_sep(s) < 0 {
        Seq::empty()
    } else {
        let rest = s.skip(find_sep(s) + 2);
        if find_sep(rest) < 0 {
            rest
        } else {
            rest.take(find_sep(rest))
        }
    }
}

/// The display value of a name field: both groups with fillers replaced by
/// spaces, joined by a single space.
pub open spec fn names_value(s: Seq<char>) -> Seq<char> {
    primary_group(s).map_values(|c: char| filler_to_space(c)) + seq![' '] + secondary_group(
        s,
    ).map_values(|c: char| filler_to_space(c))
}

/// Whether `c` is a decimal digit.
pub open spec fn is_digit_char(c: char) -> bool {
    '0' as int <= c as int <= '9' as int
}

/// Whether every character of `s` is a decimal digit.
pub open spec fn all_digits(s: Seq<char>) -> bool {
    forall|i: int| 0 <= i < s.len() ==> is_digit_char(#[trigger] s[i])
}

/// The display value of a date field: a value still holding a filler
/// passes through unchecked; otherwise every character must be a digit and
/// the length must be exactly six.
pub open spec fn date_value(s: Seq<char>) -> Result<Seq<char>, MrzError> {
    if s.contains('<') {
        Ok(s)
    } else if !all_digits(s) {
        Err(MrzError::InvalidDateCharacter)
    } else if s.len() != 6 {
        Err(MrzError::InvalidDateFormat)
    } else {
        Ok(s)
    }
}

/// The display value of a sex field.
pub open spec fn sex_value(s: Seq<char>) -> Seq<char> {
    if s == seq!['M'] {
        "MALE"@
    } else if s == seq!['F'] {
        "FEMALE"@
    } else if s == seq!['<'] {
        "UNSPECIFIED"@
    } else {
        Seq::empty()
    }
}

/// The formatted display value of a corrected raw value, by field type.
pub open spec fn format_value(field_type: FieldType, s: Seq<char>) -> Result<Seq<char>, MrzError> {
    match field_type {
        FieldType::Names => Ok(names_value(s)),
        FieldType::Birthdate | FieldType::ExpiryDate => date_value(s),
        FieldType::Sex => Ok(sex_value(s)),
        _ => Ok(s),
    }
}

/// Whether the string result `r` carries the characters and the error of
/// the model result `m`.
pub open spec fn str_result_matches(
    r: Result<String, MrzError>,
    m: Result<Seq<char>, MrzError>,
) -> bool {
    match (r, m) {
        (Ok(s), Ok(v)) => s@ == v,
        (Err(e), Err(f)) => e == f,
        _ => false,
    }
}

/// Whether the field result `r` carries the model result `m`.
pub open spec fn field_result_matches(
    r: Result<MrzField, MrzError>,
    m: Result<FieldModel, MrzError>,
) -> bool {
    match (r, m) {
        (Ok(f), Ok(fm)) => f@ == fm,
        (Err(e), Err(f)) => e == f,
        _ => false,
    }
}

/// The model of one field extraction: slice the raw value and the trailing
/// check digit out of the line, correct, format, and, where a check digit
/// follows, finalize the local validity.
pub open spec fn extract_field(
    corr: bool,
    field_type: FieldType,
    line: Seq<char>,
    start: int,
    len: int,
    check_digit_follows: bool,
) -> Result<FieldModel, MrzError> {
    if start + len > line.len() {
        Err(MrzError::IndexOutOfRange)
    } else {
        let raw = line.subrange(start, start + len);
        let cd = if check_digit_follows && start + len < line.len() {
            seq![line[start + len]]
        } else {
            Seq::<char>::empty()
        };
        let corrected = if corr {
            corrected_value(field_type, raw)
        } else {
            raw
        };
        match format_value(field_type, corrected) {
            Err(e) => Err(e),
            Ok(v) => Ok(
                if check_digit_follows {
                    FieldModel {
                        value: v,
                        raw_value: corrected,
                        check_digit: finalized_check_digit(corrected, cd),
                        is_valid: finalized_valid(corrected, cd),
                    }
                } else {
                    FieldModel { value: v, raw_value: corrected, check_digit: cd, is_valid: true }
                },
            ),
        }
    }
}

// ------------------------------------------------------------------
// Extraction of well-formed checked fields.
// ------------------------------------------------------------------

/// A date field whose window holds only digits and fillers, followed by
/// its correctly computed check digit, extracts into a locally valid
/// field that carries the window unchanged.
pub proof fn lemma_clean_date_field(field_type: FieldType, line: Seq<char>, start: int, len: int)
    requires
        field_type is Birthdate || field_type is ExpiryDate,
        0 <= start,
        len == 6,
        start + len < line.len(),
        forall|j: int|
            start <= j < start + len ==> ('0' as int <= #[trigger] line[j] as int <= '9' as int
                || line[j] == '<'),
        line[start + len] == check_digit_char(line.subrange(start, start + len)),
    ensures
        extract_field(true, field_type, line, start, len, true) matches Ok(f) && f.raw_value
            == line.subrange(start, start + len) && f.check_digit == seq![line[start + len]]
            && f.is_valid,
{
    let raw = line.subrange(start, start + len);
    assert forall|j: int|
        0 <= j < raw.len() implies ('0' as int <= #[trigger] raw[j] as int <= '9' as int || raw[j]
        == '<') by {
        assert(raw[j] == line[start + j]);
    }
    crate::utils::lemma_letter_to_digit_identity(raw);
    assert(corrected_value(field_type, raw) == raw);
    if !raw.contains('<') {
        assert forall|j: int| 0 <= j < raw.len() implies is_digit_char(#[trigger] raw[j]) by {}
        assert(all_digits(raw));
    }
    assert(date_value(raw) == Ok::<Seq<char>, MrzError>(raw));
    crate::utils::lemma_check_digit_char_is_digit(raw);
    let cd = seq![line[start + len]];
    assert(cd != seq!['<']) by {
        assert(seq!['<'][0] == '<');
        assert(cd[0] != '<');
    }
    assert(finalized_check_digit(raw, cd) == cd);
    assert(mrz_ok(raw));
    assert(cd =~= crate::utils::check_digit_seq(raw));
    assert(finalized_valid(raw, cd));
}

/// A field that is neither corrected nor reformatted, whose window lies
/// in the MRZ alphabet and is followed by its correctly computed check
/// digit, extracts into a locally valid field that carries the window
/// unchanged.
pub proof fn lemma_clean_plain_field(field_type: FieldType, line: Seq<char>, start: int, len: int)
    requires
        field_type is DocumentNumber || field_type is PersonalNumber || field_type
            is OptionalData,
        0 <= start,
        0 <= len,
        start + len < line.len(),
        mrz_ok(line.subrange(start, start + len)),
        line[start + len] == check_digit_char(line.subrange(start, start + len)),
    ensures
        extract_field(true, field_type, line, start, len, true) matches Ok(f) && f.raw_value
            == line.subrange(start, start + len) && f.check_digit == seq![line[start + len]]
            && f.is_valid,
{
    let raw = line.subrange(start, start + len);
    assert(corrected_value(field_type, raw) == raw);
    assert(format_value(field_type, raw) == Ok::<Seq<char>, MrzError>(raw));
    crate::utils::lemma_check_digit_char_is_digit(raw);
    let cd = seq![line[start + len]];
    assert(cd != seq!['<']) by {
        assert(seq!['<'][0] == '<');
        assert(cd[0] != '<');
    }
    assert(finalized_check_digit(raw, cd) == cd);
    assert(cd =~= crate::utils::check_digit_seq(raw));
    assert(finalized_valid(raw, cd));
}

// ------------------------------------------------------------------
// Properties of the separator search.
// ------------------------------------------------------------------

proof fn lemma_find_sep_props(s: Seq<char>)
    ensures
        find_sep(s) == -1 ==> (forall|i: int| !(#[trigger] sep_at(s, i))),
        find_sep(s) >= 0 ==> sep_at(s, find_sep(s)) && (forall|i: int|
            0 <= i < find_sep(s) ==> !(#[trigger] sep_at(s, i))),
    decreases s.len(),
{
    if s.len() < 2 {
        assert forall|i: int| !(#[trigger] sep_at(s, i)) by {}
    } else if s[0] == '<' && s[1] == '<' {
    } else {
        let t = s.drop_first();
        lemma_find_sep_props(t);
        assert forall|i: int| 1 <= i implies sep_at(s, i) == sep_at(t, i - 1) by {
            if i + 1 < s.len() {
                assert(t[i - 1] == s[i]);
                assert(t[i] == s[i + 1]);
            }
        }
        if find_sep(t) < 0 {
            assert forall|i: int| !(#[trigger] sep_at(s, i)) by {
                if i == 0 {
                    assert(!(s[0] == '<' && s[1] == '<'));
                } else if i >= 1 {
                    assert(!sep_at(t, i - 1));
                }
            }
        } else {
            let f = find_sep(t);
            assert(sep_at(t, f));
            assert(sep_at(s, f + 1));
            assert forall|i: int| 0 <= i < f + 1 implies !(#[trigger] sep_at(s, i)) by {
                if i == 0 {
                    assert(!(s[0] == '<' && s[1] == '<'));
                } else {
                    assert(!sep_at(t, i - 1));
                }
            }
        }
    }
}

proof fn lemma_find_sep_is(s: Seq<char>, i: int)
    requires
        sep_at(s, i),
        forall|j: int| 0 <= j < i ==> !(#[trigger] sep_at(s, j)),
    ensures
        find_sep(s) == i,
{
    lemma_find_sep_props(s);
    if find_sep(s) == -1 {
        assert(!sep_at(s, i));
    } else {
        let f = find_sep(s);
        if f < i {
            assert(!sep_at(s, f));
        } else if f > i {
            assert(!sep_at(s, i));
        }
    }
}

proof fn lemma_find_sep_none(s: Seq<char>)
    requires
        forall|j: int| !(#[trigger] sep_at(s, j)),
    ensures
        find_sep(s) == -1,
{
    lemma_find_sep_props(s);
    if find_sep(s) >= 0 {
        assert(!sep_at(s, find_sep(s)));
    }
}

/// The position of the first double-filler separator, executable.
fn find_separator(from: &str) -> (r: Option<usize>)
    ensures
        match r {
            Some(i) => find_sep(from@) == i && i + 1 < from@.len(),
            None => find_sep(from@) == -1,
        },
{
    let n = from.unicode_len();
    if n < 2 {
        return None;
    }
    let mut i: usize = 0;
    while i + 1 < n
        invariant
            n == from@.len(),
            n >= 2,
            i <= n - 1,
            forall|j: int| 0 <= j < i ==> !(#[trigger] sep_at(from@, j)),
        decreases n - i,
    {
        if from.get_char(i) == '<' && from.get_char(i + 1) == '<' {
            proof {
                assert(sep_at(from@, i as int));
                lemma_find_sep_is(from@, i as int);
            }
            return Some(i);
        }
        proof {
            assert(!sep_at(from@, i as int));
        }
        i = i + 1;
    }
    proof {
        assert forall|j: int| !(#[trigger] sep_at(from@, j)) by {
            if 0 <= j < i {
            } else if j >= i {
                assert(j + 1 >= n);
            }
        }
        lemma_find_sep_none(from@);
    }
    None
}

/// Whether every character of `from` is a decimal digit, executable.
fn check_all_digits(from: &str) -> (r: bool)
    ensures
        r == all_digits(from@),
{
    let n = from.unicode_len();
    let mut i: usize = 0;
    while i < n
        invariant
            i <= n,
            n == from@.len(),
            forall|j: int| 0 <= j < i ==> is_digit_char(#[trigger] from@[j]),
        decreases n - i,
    {
        let u = from.get_char(i) as u32;
        if u < 48 || u > 57 {
            proof {
                assert(!is_digit_char(from@[i as int]));
            }
            return false;
        }
        i = i + 1;
    }
    true
}

// ------------------------------------------------------------------
// The formatter.
// ------------------------------------------------------------------

/// Corrects and formats raw field values into display values.
#[derive(Debug)]
pub struct FieldFormatter {
    ocr_correction: bool,
}

impl FieldFormatter {
    /// Whether this formatter applies OCR correction before formatting.
    pub closed spec fn ocr_enabled(&self) -> bool {
        self.ocr_correction
    }

    /// Builds a formatter; `ocr_correction` selects whether raw values are
    /// corrected before validation and formatting.
    pub fn new(ocr_correction: bool) -> (r: Self)
        ensures
            r.ocr_enabled() == ocr_correction,
    {
        FieldFormatter { ocr_correction }
    }

    /// The display value of a sex code: `M`, `F` and the filler map to the
    /// three display words, anything else to the empty string.
    pub fn sex(&self, from: &str) -> (r: &str)
        ensures
            r@ == sex_value(from@),
    {
        proof {
            reveal_strlit("M");
            reveal_strlit("F");
            reveal_strlit("<");
            reveal_strlit("MALE");
            reveal_strlit("FEMALE");
            reveal_strlit("UNSPECIFIED");
            reveal_strlit("");
            assert("M"@ =~= seq!['M']);
            assert("F"@ =~= seq!['F']);
            assert("<"@ =~= seq!['<']);
            assert(""@ =~= Seq::<char>::empty());
        }
        if str_eq(from, "M") {
            "MALE"
        } else if str_eq(from, "F") {
            "FEMALE"
        } else if str_eq(from, "<") {
            "UNSPECIFIED"
        } else {
            ""
        }
    }

    /// Splits a name field at the first double filler into the primary and
    /// the secondary group, with remaining fillers shown as spaces.
    pub fn names(&self, from: &str) -> (r: Vec<String>)
        ensures
            r@.len() == 2,
            r@[0]@ == primary_group(from@).map_values(|c: char| filler_to_space(c)),
            r@[1]@ == secondary_group(from@).map_values(|c: char| filler_to_space(c)),
    {
        let n = from.unicode_len();
        let sep = find_separator(from);
        let primary = match sep {
            Some(i) => self.text(from.substring_char(0, i)),
            None => self.text(from),
        };
        proof {
            if sep is Some {
                assert(from@.subrange(0, find_sep(from@)) =~= from@.take(find_sep(from@)));
            }
        }
        let secondary = match sep {
            Some(i) => {
                let rest = from.substring_char(i + 2, n);
                proof {
                    assert(rest@ =~= from@.skip(find_sep(from@) + 2));
                }
                match find_separator(rest) {
                    Some(j) => {
                        let second = self.text(rest.substring_char(0, j));
                        proof {
                            assert(rest@.subrange(0, find_sep(rest@)) =~= rest@.take(
                                find_sep(rest@),
                            ));
                        }
                        second
                    },
                    None => self.text(rest),
                }
            },
            None => {
                proof {
                    reveal_strlit("");
                    assert(""@.map_values(|c: char| filler_to_space(c)) =~= Seq::<
                        char,
                    >::empty().map_values(|c: char| filler_to_space(c)));
                    assert(Seq::<char>::empty().map_values(|c: char| filler_to_space(c)) =~= Seq::<
                        char,
                    >::empty());
                }
                String::new()
            },
        };
        let mut r: Vec<String> = Vec::new();
        r.push(primary);
        r.push(secondary);
        r
    }

    /// `from` with every filler character shown as a space.
    pub fn text(&self, from: &str) -> (r: String)
        ensures
            r@ == from@.map_values(|c: char| filler_to_space(c)),
    {
        let n = from.unicode_len();
        let mut v: Vec<char> = Vec::new();
        let mut i: usize = 0;
        while i < n
            invariant
                i <= n,
                n == from@.len(),
                v@ == from@.take(i as int).map_values(|c: char| filler_to_space(c)),
            decreases n - i,
        {
            let c = from.get_char(i);
            let m = if c == '<' {
                ' '
            } else {
                c
            };
            v.push(m);
            proof {
                assert(from@.take(i as int + 1).map_values(|c: char| filler_to_space(c))
                    =~= from@.take(i as int).map_values(|c: char| filler_to_space(c)) + seq![
                    filler_to_space(from@[i as int]),
                ]);
            }
            i = i + 1;
        }
        proof {
            assert(from@.take(n as int) =~= from@);
        }
        chars_to_string(&v)
    }

    /// Checks the shape of a date field: a value holding a filler passes
    /// through; otherwise it must be exactly six digits.
    pub fn date(&self, from: &str) -> (r: Result<String, MrzError>)
        ensures
            str_result_matches(r, date_value(from@)),
    {
        if str_contains_char(from, '<') {
            return Ok(String::from_str(from));
        }
        if !check_all_digits(from) {
            return Err(MrzError::InvalidDateCharacter);
        }
        if from.unicode_len() == 6 {
            Ok(String::from_str(from))
        } else {
            Err(MrzError::InvalidDateFormat)
        }
    }

    /// The letter-expected OCR substitution.
    pub fn replace_digits(&self, from: &str) -> (r: String)
        ensures
            r@ == from@.map_values(|c: char| digit_to_letter(c)),
    {
        replace_digits(from)
    }

    /// The digit-expected OCR substitution.
    pub fn replace_letters(&self, from: &str) -> (r: String)
        ensures
            r@ == from@.map_values(|c: char| letter_to_digit(c)),
    {
        replace_letters(from)
    }

    /// Applies the OCR-correction table selected by the field type.
    pub fn correct(&self, from: &str, field_type: FieldType) -> (r: String)
        ensures
            r@ == corrected_value(field_type, from@),
    {
        match field_type {
            FieldType::Birthdate | FieldType::ExpiryDate | FieldType::Hash | FieldType::Numeric => {
                self.replace_letters(from)
            },
            FieldType::Names
            | FieldType::DocumentType
            | FieldType::CountryCode
            | FieldType::Nationality
            | FieldType::Alphabetic => self.replace_digits(from),
            FieldType::Sex => {
                let n = from.unicode_len();
                let mut v: Vec<char> = Vec::new();
                let mut i: usize = 0;
                while i < n
                    invariant
                        i <= n,
                        n == from@.len(),
                        v@ == from@.take(i as int).map_values(|c: char| p_to_f(c)),
                    decreases n - i,
                {
                    let c = from.get_char(i);
                    let m = if c == 'P' {
                        'F'
                    } else {
                        c
                    };
                    v.push(m);
                    proof {
                        assert(from@.take(i as int + 1).map_values(|c: char| p_to_f(c))
                            =~= from@.take(i as int).map_values(|c: char| p_to_f(c)) + seq![
                            p_to_f(from@[i as int]),
                        ]);
                    }
                    i = i + 1;
                }
                proof {
                    assert(from@.take(n as int) =~= from@);
                }
                chars_to_string(&v)
            },
            _ => String::from_str(from),
        }
    }

    /// Formats a corrected raw value into its display value.
    pub fn format(&self, from: &str, field_type: FieldType) -> (r: Result<String, MrzError>)
        ensures
            str_result_matches(r, format_value(field_type, from@)),
    {
        match field_type {
            FieldType::Names => {
                let groups = self.names(from);
                let mut joined = groups[0].clone();
                joined.append(" ");
                joined.append(groups[1].as_str());
                proof {
                    reveal_strlit(" ");
                    assert(" "@ =~= seq![' ']);
                }
                Ok(joined)
            },
            FieldType::Birthdate | FieldType::ExpiryDate => self.date(from),
            FieldType::Sex => Ok(String::from_str(self.sex(from))),
            _ => Ok(String::from_str(from)),
        }
    }

    /// Extracts one field: slices `length` characters of `from` starting
    /// at `start_idx` (and the following character as check digit where
    /// one follows), corrects, formats, and finalizes local validity.
    ///
    /// Fails with `IndexOutOfRange` where the slice exceeds the line, and
    /// with a date error where a date field is malformed.
    pub fn field(
        &self,
        field_type: FieldType,
        from: &str,
        start_idx: usize,
        length: usize,
        check_digit_follow: bool,
    ) -> (r: Result<MrzField, MrzError>)
        ensures
            field_result_matches(
                r,
                extract_field(
                    self.ocr_enabled(),
                    field_type,
                    from@,
                    start_idx as int,
                    length as int,
                    check_digit_follow,
                ),
            ),
    {
        let n = from.unicode_len();
        if start_idx > n || n - start_idx < length {
            return Err(MrzError::IndexOutOfRange);
        }
        let end_idx = start_idx + length;
        let raw_value = from.substring_char(start_idx, end_idx);
        let mut check_digit = String::new();
        if check_digit_follow && end_idx < n {
            check_digit = char_string(from.get_char(end_idx));
        }
        let corrected_raw_value = if self.ocr_correction {
            self.correct(raw_value, field_type)
        } else {
            String::from_str(raw_value)
        };
        let formatted_value = match self.format(corrected_raw_value.as_str(), field_type) {
            Ok(s) => s,
            Err(e) => {
                return Err(e);
            },
        };
        let mut result = MrzField {
            value: formatted_value,
            raw_value: corrected_raw_value,
            check_digit,
            is_valid: true,
        };
        if check_digit_follow {
            let valid = result.is_valid();
            result.is_valid = valid;
        }
        Ok(result)
    }
}

} // verus!
