//! Parser and validator for the machine-readable zone (MRZ) of travel
//! documents in the ICAO Doc 9303 formats TD1 (3 lines of 30 characters),
//! TD2 (2 lines of 36) and TD3 (2 lines of 44).
//!
//! The parser detects the format from the line shape, slices each line into
//! its fixed-position fields, repairs common optical-character-recognition
//! confusions, formats display values, and verifies the embedded check
//! digits. Structural problems (wrong line lengths, characters outside the
//! MRZ alphabet, malformed dates) abort a parse with an error; failed check
//! digits are reported as data, through the `is_valid` flags.

use vstd::prelude::*;

pub mod constants;
pub mod error;
pub mod field_formatter;
pub mod mrz_field;
pub mod parser;
pub mod td1;
pub mod td2;
pub mod td3;
pub mod utils;

verus! {

use crate::constants::{MRZ_TYPE1, MRZ_TYPE2, MRZ_TYPE3, TYPE1_NUMBER_OF_CHARACTERS_PER_LINE,
    TYPE1_TOTAL_NUMBER_OF_CHARACTERS, TYPE2_NUMBER_OF_CHARACTERS_PER_LINE,
    TYPE2_TOTAL_NUMBER_OF_CHARACTERS, TYPE3_NUMBER_OF_CHARACTERS_PER_LINE};
use crate::error::MrzError;
use crate::parser::{IMRZParser, MRZResult, ResultModel, lines_view, result_matches};
use crate::td1::{TD1, td1_model};
use crate::td2::{TD2, td2_model};
use crate::td3::{TD3, td3_model};
use crate::utils::{check_same, str_contains_char};

// ------------------------------------------------------------------
// Format detection and input splitting, as specification.
// ------------------------------------------------------------------

/// The format of a sequence of input lines: three lines of thirty
/// characters are TD1, two lines of a shared width of thirty-six or
/// forty-four are TD2 or TD3, and every other shape is rejected.
pub open spec fn detect_format(lines: Seq<Seq<char>>) -> Result<u8, MrzError> {
    if lines.len() == 3 {
        if lines[0].len() == 30 && lines[1].len() == 30 && lines[2].len() == 30 {
            Ok(MRZ_TYPE1)
        } else {
            Err(MrzError::InvalidLineLength)
        }
    } else if lines.len() == 2 {
        if lines[0].len() == 36 && lines[1].len() == 36 {
            Ok(MRZ_TYPE2)
        } else if lines[0].len() == 44 && lines[1].len() == 44 {
            Ok(MRZ_TYPE3)
        } else {
            Err(MrzError::InvalidLineLength)
        }
    } else {
        Err(MrzError::InvalidLineLength)
    }
}

/// Every input whose line shape is none of three-by-thirty,
/// two-by-thirty-six or two-by-forty-four is rejected with the
/// line-length error: no input resolves to a wrong format.
pub proof fn lemma_detect_format_total(lines: Seq<Seq<char>>)
    ensures
        !(lines.len() == 3 && lines[0].len() == 30 && lines[1].len() == 30 && lines[2].len() == 30)
            && !(lines.len() == 2 && lines[0].len() == 36 && lines[1].len() == 36) && !(lines.len()
            == 2 && lines[0].len() == 44 && lines[1].len() == 44) ==> detect_format(lines) == Err::<
            u8,
            MrzError,
        >(MrzError::InvalidLineLength),
        detect_format(lines) == Ok::<u8, MrzError>(MRZ_TYPE1) <==> lines.len() == 3
            && lines[0].len() == 30 && lines[1].len() == 30 && lines[2].len() == 30,
        detect_format(lines) == Ok::<u8, MrzError>(MRZ_TYPE2) <==> lines.len() == 2
            && lines[0].len() == 36 && lines[1].len() == 36,
        detect_format(lines) == Ok::<u8, MrzError>(MRZ_TYPE3) <==> lines.len() == 2
            && lines[0].len() == 44 && lines[1].len() == 44,
{
}

/// The position of the first line feed in `s`, or the length of `s`
/// where there is none.
pub open spec fn first_newline(s: Seq<char>) -> int
    decreases s.len(),
{
    if s.len() == 0 {
        0
    } else if s[0] == '\n' {
        0
    } else {
        1 + first_newline(s.drop_first())
    }
}

/// A segment with a trailing carriage return loses it: a carriage return
/// directly before a line feed belongs to the line ending.
pub open spec fn drop_trailing_cr(s: Seq<char>) -> Seq<char> {
    if s.len() > 0 && s.last() == '\r' {
        s.drop_last()
    } else {
        s
    }
}

/// `s` split at line feeds, with carriage returns before them removed
/// and without a trailing empty segment after a final line feed.
pub open spec fn split_lines(s: Seq<char>) -> Seq<Seq<char>>
    decreases s.len(),
{
    if s.len() == 0 {
        Seq::empty()
    } else if first_newline(s) < 0 || first_newline(s) >= s.len() {
        seq![s]
    } else {
        seq![drop_trailing_cr(s.take(first_newline(s)))] + split_lines(s.skip(first_newline(s) + 1))
    }
}

/// The lines a single unbroken input string stands for: split at line
/// feeds where it has any; otherwise cut by total length, ninety
/// characters into three lines of thirty, seventy-two into two lines of
/// thirty-six, and anything else into two pieces at forty-four.
pub open spec fn split_model(s: Seq<char>) -> Seq<Seq<char>> {
    if s.contains('\n') {
        split_lines(s)
    } else if s.len() == 90 {
        seq![s.subrange(0, 30), s.subrange(30, 60), s.subrange(60, 90)]
    } else if s.len() == 72 {
        seq![s.subrange(0, 36), s.subrange(36, 72)]
    } else {
        seq![s.subrange(0, 44), s.subrange(44, s.len() as int)]
    }
}

/// The model of a whole parse: detect the format, then run the matching
/// layout parser.
pub open spec fn parse_model(lines: Seq<Seq<char>>) -> Result<ResultModel, MrzError> {
    match detect_format(lines) {
        Err(e) => Err(e),
        Ok(t) => if t == MRZ_TYPE1 {
            td1_model(lines)
        } else if t == MRZ_TYPE2 {
            td2_model(lines)
        } else {
            td3_model(lines)
        },
    }
}

// ------------------------------------------------------------------
// Properties of the line-feed search.
// ------------------------------------------------------------------

proof fn lemma_first_newline_props(s: Seq<char>)
    ensures
        0 <= first_newline(s) <= s.len(),
        first_newline(s) < s.len() ==> s[first_newline(s)] == '\n',
        forall|j: int| 0 <= j < first_newline(s) ==> #[trigger] s[j] != '\n',
    decreases s.len(),
{
    if s.len() == 0 {
    } else if s[0] == '\n' {
    } else {
        let t = s.drop_first();
        lemma_first_newline_props(t);
        assert forall|j: int| 0 <= j < first_newline(s) implies #[trigger] s[j] != '\n' by {
            if j > 0 {
                assert(t[j - 1] == s[j]);
            }
        }
    }
}

proof fn lemma_first_newline_is(s: Seq<char>, i: int)
    requires
        0 <= i < s.len(),
        s[i] == '\n',
        forall|j: int| 0 <= j < i ==> #[trigger] s[j] != '\n',
    ensures
        first_newline(s) == i,
{
    lemma_first_newline_props(s);
    let f = first_newline(s);
    if f < i {
        assert(s[f] != '\n');
    } else if f > i {
        assert(s[i] != '\n');
    }
}

proof fn lemma_first_newline_none(s: Seq<char>)
    requires
        forall|j: int| 0 <= j < s.len() ==> #[trigger] s[j] != '\n',
    ensures
        first_newline(s) == s.len(),
{
    lemma_first_newline_props(s);
    if first_newline(s) < s.len() {
        assert(s[first_newline(s)] != '\n');
    }
}

// ------------------------------------------------------------------
// Executable input splitting.
// ------------------------------------------------------------------

/// Splits an input string at its line feeds, the way the standard
/// line iterator does: a carriage return before a line feed is removed,
/// and a final line feed ends the last line instead of opening an empty
/// one.
fn split_into_lines(s: &str) -> (r: Vec<String>)
    ensures
        lines_view(r@) == split_lines(s@),
{
    let n = s.unicode_len();
    let mut r: Vec<String> = Vec::new();
    let mut start: usize = 0;
    let mut i: usize = 0;
    proof {
        assert(s@.skip(0) =~= s@);
        assert(lines_view(r@) =~= Seq::<Seq<char>>::empty());
        assert(lines_view(r@) + split_lines(s@.skip(0)) =~= split_lines(s@));
    }
    while i < n
        invariant
            start <= i <= n,
            n == s@.len(),
            lines_view(r@) + split_lines(s@.skip(start as int)) =~= split_lines(s@),
            forall|j: int| start <= j < i ==> #[trigger] s@[j] != '\n',
        decreases n - i,
    {
        if s.get_char(i) == '\n' {
            let mut endx = i;
            if endx > start && s.get_char(endx - 1) == '\r' {
                endx = endx - 1;
            }
            let piece = String::from_str(s.substring_char(start, endx));
            proof {
                let rest = s@.skip(start as int);
                assert forall|j: int| 0 <= j < i - start implies #[trigger] rest[j] != '\n' by {
                    assert(rest[j] == s@[start + j]);
                }
                assert(rest[i - start] == s@[i as int]);
                lemma_first_newline_is(rest, i - start);
                assert(rest.take(i - start) =~= s@.subrange(start as int, i as int));
                assert(rest.skip(i - start + 1) =~= s@.skip(i as int + 1));
                assert(piece@ =~= drop_trailing_cr(rest.take(i - start)));
                assert(lines_view(r@.push(piece)) =~= lines_view(r@) + seq![piece@]);
            }
            r.push(piece);
            start = i + 1;
        }
        i = i + 1;
    }
    if start < n {
        let piece = String::from_str(s.substring_char(start, n));
        proof {
            let rest = s@.skip(start as int);
            assert forall|j: int| 0 <= j < rest.len() implies #[trigger] rest[j] != '\n' by {
                assert(rest[j] == s@[start + j]);
            }
            lemma_first_newline_none(rest);
            assert(piece@ =~= rest);
            assert(lines_view(r@.push(piece)) =~= lines_view(r@) + seq![piece@]);
        }
        r.push(piece);
    } else {
        proof {
            assert(s@.skip(start as int).len() == 0);
        }
    }
    proof {
        assert(lines_view(r@) =~= split_lines(s@));
    }
    r
}

// ------------------------------------------------------------------
// The parser.
// ------------------------------------------------------------------

/// Holds one MRZ input, as lines, across format detection and parsing.
pub struct MRZParser {
    mrz_type: u8,
    components: Vec<String>,
}

impl MRZParser {
    /// The character sequences of the held input lines.
    pub closed spec fn lines(&self) -> Seq<Seq<char>> {
        lines_view(self.components@)
    }

    /// The format tag the last successful detection resolved, zero before
    /// any detection.
    pub closed spec fn detected_type(&self) -> u8 {
        self.mrz_type
    }

    /// Builds a parser from one unbroken MRZ string: the string is split
    /// at its line feeds where it has any, and otherwise cut by the total
    /// character counts of the three formats.
    ///
    /// A string without line feeds must carry at least forty-four
    /// characters, the width of the widest format's line.
    pub fn new_mrz_string_parser(mrz_str: &str) -> (r: Self)
        requires
            mrz_str@.contains('\n') || mrz_str@.len() >= 44,
        ensures
            r.lines() == split_model(mrz_str@),
            r.detected_type() == 0,
    {
        let mrz_type: u8 = 0;
        let components: Vec<String> = if str_contains_char(mrz_str, '\n') {
            split_into_lines(mrz_str)
        } else if mrz_str.unicode_len() == TYPE1_TOTAL_NUMBER_OF_CHARACTERS {
            let a = String::from_str(
                mrz_str.substring_char(0, TYPE1_NUMBER_OF_CHARACTERS_PER_LINE),
            );
            let b = String::from_str(
                mrz_str.substring_char(
                    TYPE1_NUMBER_OF_CHARACTERS_PER_LINE,
                    2 * TYPE1_NUMBER_OF_CHARACTERS_PER_LINE,
                ),
            );
            let c = String::from_str(
                mrz_str.substring_char(
                    2 * TYPE1_NUMBER_OF_CHARACTERS_PER_LINE,
                    TYPE1_TOTAL_NUMBER_OF_CHARACTERS,
                ),
            );
            let mut v: Vec<String> = Vec::new();
            v.push(a);
            v.push(b);
            v.push(c);
            v
        } else if mrz_str.unicode_len() == TYPE2_TOTAL_NUMBER_OF_CHARACTERS {
            let a = String::from_str(
                mrz_str.substring_char(0, TYPE2_NUMBER_OF_CHARACTERS_PER_LINE),
            );
            let b = String::from_str(
                mrz_str.substring_char(
                    TYPE2_NUMBER_OF_CHARACTERS_PER_LINE,
                    TYPE2_TOTAL_NUMBER_OF_CHARACTERS,
                ),
            );
            let mut v: Vec<String> = Vec::new();
            v.push(a);
            v.push(b);
            v
        } else {
            let a = String::from_str(
                mrz_str.substring_char(0, TYPE3_NUMBER_OF_CHARACTERS_PER_LINE),
            );
            let b = String::from_str(
                mrz_str.substring_char(TYPE3_NUMBER_OF_CHARACTERS_PER_LINE, mrz_str.unicode_len()),
            );
            let mut v: Vec<String> = Vec::new();
            v.push(a);
            v.push(b);
            v
        };
        proof {
            assert(lines_view(components@) =~= split_model(mrz_str@));
        }
        MRZParser { mrz_type, components }
    }

    /// Builds a parser from pre-split MRZ lines.
    pub fn new_mrz_line_parser(mrz_lines: Vec<String>) -> (r: Self)
        ensures
            r.lines() == lines_view(mrz_lines@),
            r.detected_type() == 0,
    {
        let mrz_type: u8 = 0;
        MRZParser { mrz_type, components: mrz_lines }
    }

    /// Detects and returns the format tag of the held input, failing on
    /// any line shape no format has.
    pub fn get_mrz_type(&mut self) -> (r: Result<u8, MrzError>)
        ensures
            final(self).lines() == old(self).lines(),
            match r {
                Ok(t) => detect_format(old(self).lines()) == Ok::<u8, MrzError>(t)
                    && final(self).detected_type() == t,
                Err(e) => detect_format(old(self).lines()) == Err::<u8, MrzError>(e),
            },
    {
        match self.validate() {
            Ok(()) => Ok(self.mrz_type),
            Err(e) => Err(e),
        }
    }

    /// Parses the held input: detects the format and runs the matching
    /// layout parser.
    pub fn parse(&mut self) -> (r: Result<MRZResult, MrzError>)
        ensures
            final(self).lines() == old(self).lines(),
            result_matches(r, parse_model(old(self).lines())),
    {
        match self.validate() {
            Ok(()) => {},
            Err(e) => {
                return Err(e);
            },
        }
        if self.mrz_type == MRZ_TYPE1 {
            TD1::new().parse(&self.components)
        } else if self.mrz_type == MRZ_TYPE2 {
            TD2::new().parse(&self.components)
        } else if self.mrz_type == MRZ_TYPE3 {
            TD3::new().parse(&self.components)
        } else {
            Err(MrzError::UnresolvedFormat)
        }
    }

    /// Checks the line shape of the held input and stores the resolved
    /// format tag.
    fn validate(&mut self) -> (r: Result<(), MrzError>)
        ensures
            final(self).lines() == old(self).lines(),
            match r {
                Ok(()) => detect_format(old(self).lines()) == Ok::<u8, MrzError>(
                    final(self).detected_type(),
                ),
                Err(e) => detect_format(old(self).lines()) == Err::<u8, MrzError>(e)
                    && *final(self) == *old(self),
            },
    {
        let mut mrz_type: u8 = 0;

        if self.components.len() == 3 {
            let mut i: usize = 0;
            while i < self.components.len()
                invariant
                    self.components@ == old(self).components@,
                    self.mrz_type == old(self).mrz_type,
                    self.components@.len() == 3,
                    i <= 3,
                    forall|j: int| 0 <= j < i ==> #[trigger] self.components@[j]@.len() == 30,
                decreases self.components@.len() - i,
            {
                if self.components[i].as_str().unicode_len()
                    != TYPE1_NUMBER_OF_CHARACTERS_PER_LINE {
                    proof {
                        assert(lines_view(self.components@)[i as int]
                            == self.components@[i as int]@);
                    }
                    return Err(MrzError::InvalidLineLength);
                }
                i = i + 1;
            }
            proof {
                let lv = lines_view(self.components@);
                assert(lv[0] == self.components@[0]@);
                assert(lv[1] == self.components@[1]@);
                assert(lv[2] == self.components@[2]@);
            }
            mrz_type = MRZ_TYPE1;
        } else if self.components.len() == 2 {
            let mut character_count: Vec<usize> = Vec::new();
            let mut i: usize = 0;
            while i < self.components.len()
                invariant
                    self.components@ == old(self).components@,
                    self.mrz_type == old(self).mrz_type,
                    self.components@.len() == 2,
                    i <= 2,
                    character_count@.len() == i,
                    forall|j: int|
                        0 <= j < i ==> #[trigger] character_count@[j]
                            == self.components@[j]@.len() && (character_count@[j] == 36
                            || character_count@[j] == 44),
                decreases self.components@.len() - i,
            {
                let line_len = self.components[i].as_str().unicode_len();
                if line_len != TYPE2_NUMBER_OF_CHARACTERS_PER_LINE && line_len
                    != TYPE3_NUMBER_OF_CHARACTERS_PER_LINE {
                    proof {
                        assert(lines_view(self.components@)[i as int]
                            == self.components@[i as int]@);
                    }
                    return Err(MrzError::InvalidLineLength);
                }
                character_count.push(line_len);
                i = i + 1;
            }

            let all_same = check_same(character_count.as_slice());
            if all_same && character_count[0] == TYPE2_NUMBER_OF_CHARACTERS_PER_LINE {
                mrz_type = MRZ_TYPE2;
            }
            if all_same && character_count[0] == TYPE3_NUMBER_OF_CHARACTERS_PER_LINE {
                mrz_type = MRZ_TYPE3;
            }
            proof {
                let lv = lines_view(self.components@);
                assert(lv[0] == self.components@[0]@);
                assert(lv[1] == self.components@[1]@);
                if all_same {
                    assert(character_count@[1] == character_count@[0]);
                } else {
                    assert(character_count@[1] != character_count@[0]) by {
                        if character_count@[1] == character_count@[0] {
                            assert(forall|k: int|
                                0 <= k < character_count@.len()
                                    ==> #[trigger] character_count@[k] == character_count@[0]);
                        }
                    }
                }
            }
            if mrz_type == 0 {
                // The two lines carry different widths: no format fits.
                return Err(MrzError::InvalidLineLength);
            }
        } else {
            return Err(MrzError::InvalidLineLength);
        }

        self.mrz_type = mrz_type;
        Ok(())
    }
}

} // verus!
