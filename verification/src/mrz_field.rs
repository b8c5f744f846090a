use vstd::prelude::*;

verus! {

use crate::utils::{check_digit_seq, char_value, mrz_ok, weighted_sum, trim_fillers,
    is_value_valid, trimming_filler, str_eq};

/// The mathematical content of one decoded field.
pub ghost struct FieldModel {
    /// Characters of the formatted display value.
    pub value: Seq<char>,
    /// Characters of the corrected raw value.
    pub raw_value: Seq<char>,
    /// Characters of the trailing check digit; empty where none follows.
    pub check_digit: Seq<char>,
    /// The local validity flag.
    pub is_valid: bool,
}

/// Whether every character of `s` is the filler `<`.
pub open spec fn all_filler(s: Seq<char>) -> bool {
    forall|i: int| 0 <= i < s.len() ==> #[trigger] s[i] == '<'
}

/// The check digit of a field after validity finalization: an explicit
/// "no check digit" filler over an entirely blank raw value is normalized
/// to the digit 0; anything else is kept.
pub open spec fn finalized_check_digit(raw: Seq<char>, cd: Seq<char>) -> Seq<char> {
    if cd == seq!['<'] && all_filler(raw) {
        seq!['0']
    } else {
        cd
    }
}

/// The validity of a field after finalization: a filler check digit
/// validates exactly a blank raw value; otherwise the check digit must be
/// the computed one and the raw value must lie in the MRZ alphabet.
pub open spec fn finalized_valid(raw: Seq<char>, cd: Seq<char>) -> bool {
    if cd == seq!['<'] {
        all_filler(raw)
    } else {
        mrz_ok(raw) && cd == check_digit_seq(raw)
    }
}

/// One decoded MRZ field: its display value, its corrected raw substring,
/// its trailing check digit (possibly empty), and its local validity.
#[derive(Debug, Clone)]
pub struct MrzField {
    pub value: String,
    pub raw_value: String,
    pub check_digit: String,
    pub is_valid: bool,
}

impl View for MrzField {
    type V = FieldModel;

    open spec fn view(&self) -> FieldModel {
        FieldModel {
            value: self.value@,
            raw_value: self.raw_value@,
            check_digit: self.check_digit@,
            is_valid: self.is_valid,
        }
    }
}

proof fn lemma_all_filler_drop_first(s: Seq<char>)
    requires
        s.len() > 0,
        s[0] == '<',
    ensures
        all_filler(s) <==> all_filler(s.drop_first()),
{
    if all_filler(s.drop_first()) {
        assert forall|i: int| 0 <= i < s.len() implies #[trigger] s[i] == '<' by {
            if i > 0 {
                assert(s.drop_first()[i - 1] == s[i]);
            }
        }
    }
    if all_filler(s) {
        assert forall|i: int| 0 <= i < s.drop_first().len() implies #[trigger] s.drop_first()[i]
            == '<' by {
            assert(s.drop_first()[i] == s[i + 1]);
        }
    }
}

proof fn lemma_all_filler_drop_last(s: Seq<char>)
    requires
        s.len() > 0,
        s.last() == '<',
    ensures
        all_filler(s) <==> all_filler(s.drop_last()),
{
    if all_filler(s.drop_last()) {
        assert forall|i: int| 0 <= i < s.len() implies #[trigger] s[i] == '<' by {
            if i < s.len() - 1 {
                assert(s.drop_last()[i] == s[i]);
            }
        }
    }
    if all_filler(s) {
        assert forall|i: int| 0 <= i < s.drop_last().len() implies #[trigger] s.drop_last()[i]
            == '<' by {
            assert(s.drop_last()[i] == s[i]);
        }
    }
}

/// An entirely blank string trims to nothing, and conversely.
pub proof fn lemma_trim_empty_iff_all_filler(s: Seq<char>)
    ensures
        (trim_fillers(s).len() == 0) <==> all_filler(s),
    decreases s.len(),
{
    if s.len() > 0 && s[0] == '<' {
        lemma_trim_empty_iff_all_filler(s.drop_first());
        lemma_all_filler_drop_first(s);
    } else if s.len() > 0 && s.last() == '<' {
        lemma_trim_empty_iff_all_filler(s.drop_last());
        lemma_all_filler_drop_last(s);
    } else {
        if s.len() > 0 {
            assert(!all_filler(s)) by {
                assert(s[0] != '<');
            }
        }
    }
}

/// The weighted sum of an entirely blank string is zero: the filler has
/// checksum value zero at every position.
proof fn lemma_all_filler_weighted_sum_zero(s: Seq<char>)
    requires
        all_filler(s),
    ensures
        weighted_sum(s) == 0,
    decreases s.len(),
{
    if s.len() > 0 {
        lemma_all_filler_drop_last(s);
        lemma_all_filler_weighted_sum_zero(s.drop_last());
        assert(char_value(s.last()) == 0);
    }
}

/// A field whose check digit character is the filler validates exactly
/// when its raw value, stripped of filler characters, is empty.
pub proof fn lemma_filler_check_digit_rule(raw: Seq<char>)
    ensures
        finalized_valid(raw, seq!['<']) <==> trim_fillers(raw).len() == 0,
{
    lemma_trim_empty_iff_all_filler(raw);
}

/// Tamper sensitivity at the field level: replacing one character of a
/// validated raw value (as the checksum sees it, after OCR correction)
/// invalidates the field, whenever the weighted difference of the two
/// character values is not a multiple of ten.
pub proof fn lemma_tamper_invalidates_field(raw: Seq<char>, cd: Seq<char>, i: int, c: char)
    requires
        0 <= i < raw.len(),
        cd != seq!['<'],
        finalized_valid(raw, cd),
        (crate::utils::weight_at(i) * (char_value(c) - char_value(raw[i]))) % 10 != 0,
    ensures
        !finalized_valid(raw.update(i, c), cd),
{
    crate::utils::lemma_tamper_changes_check_digit(raw, i, c);
}

impl MrzField {
    /// Builds a field record from its four parts.
    pub fn new(value: String, raw_value: String, check_digit: String, is_valid: bool) -> (r: Self)
        ensures
            r.value == value,
            r.raw_value == raw_value,
            r.check_digit == check_digit,
            r.is_valid == is_valid,
    {
        Self { value, raw_value, check_digit, is_valid }
    }

    /// The formatted display value; for a name field, the joined name groups.
    pub fn get_names(&self) -> (r: String)
        ensures
            r@ == self.value@,
    {
        self.value.clone()
    }

    /// The formatted display value.
    pub fn get_value(&self) -> (r: String)
        ensures
            r@ == self.value@,
    {
        self.value.clone()
    }

    /// The corrected raw value.
    pub fn get_raw_value(&self) -> (r: &str)
        ensures
            r@ == self.raw_value@,
    {
        self.raw_value.as_str()
    }

    /// The trailing check digit, or the empty string where none follows.
    pub fn get_check_digit(&self) -> (r: &str)
        ensures
            r@ == self.check_digit@,
    {
        self.check_digit.as_str()
    }

    /// Finalizes the check digit and reports the field's local validity.
    ///
    /// A filler check digit over an entirely blank raw value counts as
    /// "no check digit provided": it is normalized to 0 and the field is
    /// valid. A filler check digit over a non-blank raw value is invalid.
    /// Any other check digit must equal the one computed from the raw
    /// value.
    pub fn is_valid(&mut self) -> (r: bool)
        ensures
            r == finalized_valid(old(self).raw_value@, old(self).check_digit@),
            final(self).check_digit@ == finalized_check_digit(
                old(self).raw_value@,
                old(self).check_digit@,
            ),
            final(self).value == old(self).value,
            final(self).raw_value == old(self).raw_value,
            final(self).is_valid == old(self).is_valid,
    {
        proof {
            reveal_strlit("<");
            reveal_strlit("0");
        }
        if str_eq(self.check_digit.as_str(), "<") {
            proof {
                assert(self.check_digit@ =~= seq!['<']);
            }
            let trimmed = trimming_filler(self.raw_value.as_str());
            proof {
                lemma_trim_empty_iff_all_filler(self.raw_value@);
            }
            if trimmed.unicode_len() != 0 {
                return false;
            }
            self.check_digit = String::from_str("0");
            proof {
                assert(self.check_digit@ =~= seq!['0']);
                lemma_all_filler_weighted_sum_zero(self.raw_value@);
            }
        } else {
            proof {
                assert(self.check_digit@ != seq!['<']) by {
                    assert("<"@ =~= seq!['<']);
                }
            }
        }
        is_value_valid(self.raw_value.as_str(), self.check_digit.as_str())
    }
}

} // verus!
