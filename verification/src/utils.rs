use vstd::prelude::*;

verus! {

use crate::error::MrzError;

// ------------------------------------------------------------------
// The MRZ alphabet and the weighted checksum, as specification.
//
// A check digit is computed over a string of the MRZ alphabet
// {A-Z, 0-9, `<`}: each character is mapped to a numeric value (digits to
// themselves, A-Z to 10-35, the filler `<` to 0), multiplied by the cyclic
// weight 7, 3 or 1 of its position, and the sum is reduced modulo 10.
// The computation is case-insensitive: a lowercase letter counts as its
// uppercase form.
// ------------------------------------------------------------------

/// The cyclic weight 7, 3, 1 of position `i` in a checksum input.
pub open spec fn weight_at(i: int) -> int {
    if i % 3 == 0 {
        7
    } else if i % 3 == 1 {
        3
    } else {
        1
    }
}

/// Whether `c` is acceptable to the checksum engine: a digit, a letter of
/// either case, or the filler `<`.
pub open spec fn is_mrz_char(c: char) -> bool {
    ||| c == '<'
    ||| '0' as int <= c as int <= '9' as int
    ||| 'A' as int <= c as int <= 'Z' as int
    ||| 'a' as int <= c as int <= 'z' as int
}

/// The numeric value of an MRZ character: digits map to themselves,
/// letters (of either case) to 10-35, the filler to 0.
pub open spec fn char_value(c: char) -> int {
    if '0' as int <= c as int <= '9' as int {
        c as int - '0' as int
    } else if 'A' as int <= c as int <= 'Z' as int {
        c as int - 'A' as int + 10
    } else if 'a' as int <= c as int <= 'z' as int {
        c as int - 'a' as int + 10
    } else {
        0
    }
}

/// Whether every character of `s` is acceptable to the checksum engine.
pub open spec fn mrz_ok(s: Seq<char>) -> bool {
    forall|i: int| 0 <= i < s.len() ==> is_mrz_char(#[trigger] s[i])
}

/// The weighted sum of `s`: value times positional weight, summed.
pub open spec fn weighted_sum(s: Seq<char>) -> int
    decreases s.len(),
{
    if s.len() == 0 {
        0
    } else {
        weighted_sum(s.drop_last()) + weight_at(s.len() - 1) * char_value(s.last())
    }
}

/// The decimal digit character for `d` in 0..=9.
pub open spec fn digit_char(d: int) -> char {
    if d == 0 {
        '0'
    } else if d == 1 {
        '1'
    } else if d == 2 {
        '2'
    } else if d == 3 {
        '3'
    } else if d == 4 {
        '4'
    } else if d == 5 {
        '5'
    } else if d == 6 {
        '6'
    } else if d == 7 {
        '7'
    } else if d == 8 {
        '8'
    } else {
        '9'
    }
}

/// The check digit of `s`, as a character.
pub open spec fn check_digit_char(s: Seq<char>) -> char {
    digit_char(weighted_sum(s) % 10)
}

/// The check digit of `s`, as a one-character string.
pub open spec fn check_digit_seq(s: Seq<char>) -> Seq<char> {
    seq![check_digit_char(s)]
}

/// The model of computing a check digit: defined exactly on strings over
/// the MRZ alphabet, and a function of the input alone.
pub open spec fn calculate_model(s: Seq<char>) -> Result<Seq<char>, MrzError> {
    if mrz_ok(s) {
        Ok(check_digit_seq(s))
    } else {
        Err(MrzError::InvalidCharacter)
    }
}

/// The model of validating a value against a check digit string: the
/// value lies in the MRZ alphabet and the string is its one check digit.
pub open spec fn valid_value_model(s: Seq<char>, d: Seq<char>) -> bool {
    mrz_ok(s) && d == check_digit_seq(s)
}

/// Validation and computation agree: a value validates against a digit
/// string exactly when computing its check digit succeeds and yields that
/// string. Both sides are functions of their inputs alone, so two equal
/// inputs always yield one verdict and one digit.
pub proof fn lemma_is_value_valid_iff_calculated(s: Seq<char>, d: Seq<char>)
    ensures
        valid_value_model(s, d) <==> calculate_model(s) == Ok::<Seq<char>, MrzError>(d),
{
}

proof fn lemma_weighted_sum_update(s: Seq<char>, i: int, c: char)
    requires
        0 <= i < s.len(),
    ensures
        weighted_sum(s.update(i, c)) == weighted_sum(s) + weight_at(i) * (char_value(c)
            - char_value(s[i])),
    decreases s.len(),
{
    let t = s.update(i, c);
    if i == s.len() - 1 {
        assert(t.drop_last() =~= s.drop_last());
        assert(t.last() == c);
        assert(weight_at(i) * char_value(c) - weight_at(i) * char_value(s[i]) == weight_at(i) * (
        char_value(c) - char_value(s[i]))) by {
            vstd::arithmetic::mul::lemma_mul_is_distributive_sub(
                weight_at(i),
                char_value(c),
                char_value(s[i]),
            );
        }
    } else {
        lemma_weighted_sum_update(s.drop_last(), i, c);
        assert(t.drop_last() =~= s.drop_last().update(i, c));
        assert(t.last() == s.last());
    }
}

/// The check digit of any string is a decimal digit character.
pub proof fn lemma_check_digit_char_is_digit(s: Seq<char>)
    ensures
        '0' as int <= check_digit_char(s) as int <= '9' as int,
        check_digit_char(s) != '<',
        is_mrz_char(check_digit_char(s)),
{
    vstd::arithmetic::div_mod::lemma_mod_division_less_than_divisor(weighted_sum(s), 10);
}

/// Tamper sensitivity of the checksum: replacing the character at one
/// position changes the check digit, whenever the weighted difference of
/// the two character values is not a multiple of ten. (A weighted
/// difference that is a multiple of ten — for instance exchanging `A`
/// for `K` under the weight seven — slips past a modulo-ten checksum.)
pub proof fn lemma_tamper_changes_check_digit(s: Seq<char>, i: int, c: char)
    requires
        0 <= i < s.len(),
        (weight_at(i) * (char_value(c) - char_value(s[i]))) % 10 != 0,
    ensures
        check_digit_seq(s.update(i, c)) != check_digit_seq(s),
{
    let t = s.update(i, c);
    let delta = weight_at(i) * (char_value(c) - char_value(s[i]));
    lemma_weighted_sum_update(s, i, c);
    assert(weighted_sum(t) == weighted_sum(s) + delta);
    if weighted_sum(t) % 10 == weighted_sum(s) % 10 {
        vstd::arithmetic::div_mod::lemma_sub_mod_noop(weighted_sum(t), weighted_sum(s), 10);
        assert((weighted_sum(t) - weighted_sum(s)) % 10 == (weighted_sum(t) % 10 - weighted_sum(s)
            % 10) % 10);
        assert(delta % 10 == 0);
    }
    vstd::arithmetic::div_mod::lemma_mod_division_less_than_divisor(weighted_sum(s), 10);
    vstd::arithmetic::div_mod::lemma_mod_division_less_than_divisor(weighted_sum(t), 10);
    assert(check_digit_seq(t)[0] == check_digit_char(t));
    assert(check_digit_seq(s)[0] == check_digit_char(s));
}

/// The MRZ alphabet is closed under concatenation, piecewise.
pub proof fn lemma_mrz_ok_concat(a: Seq<char>, b: Seq<char>)
    ensures
        mrz_ok(a + b) == (mrz_ok(a) && mrz_ok(b)),
{
    if mrz_ok(a) && mrz_ok(b) {
        assert forall|i: int| 0 <= i < (a + b).len() implies is_mrz_char(#[trigger] (a + b)[i]) by {
            if i < a.len() {
                assert((a + b)[i] == a[i]);
            } else {
                assert((a + b)[i] == b[i - a.len()]);
            }
        }
    }
    if mrz_ok(a + b) {
        assert forall|i: int| 0 <= i < a.len() implies is_mrz_char(#[trigger] a[i]) by {
            assert((a + b)[i] == a[i]);
        }
        assert forall|i: int| 0 <= i < b.len() implies is_mrz_char(#[trigger] b[i]) by {
            assert((a + b)[a.len() + i] == b[i]);
        }
    }
}

// ------------------------------------------------------------------
// OCR substitution tables, as specification.
// ------------------------------------------------------------------

/// The substitution applied where a letter is expected: the digits 0, 1, 2
/// and 8 are read as the letters O, I, Z and B. Other characters pass
/// through unchanged.
pub open spec fn digit_to_letter(c: char) -> char {
    if c == '0' {
        'O'
    } else if c == '1' {
        'I'
    } else if c == '2' {
        'Z'
    } else if c == '8' {
        'B'
    } else {
        c
    }
}

/// The substitution applied where a digit is expected: the letters O, Q, U
/// and D are read as 0, I as 1, Z as 2 and B as 8. Other characters pass
/// through unchanged.
pub open spec fn letter_to_digit(c: char) -> char {
    if c == 'O' || c == 'Q' || c == 'U' || c == 'D' {
        '0'
    } else if c == 'I' {
        '1'
    } else if c == 'Z' {
        '2'
    } else if c == 'B' {
        '8'
    } else {
        c
    }
}

/// The digit-expected substitution leaves a string of digits and fillers
/// unchanged: its table maps letters only.
pub proof fn lemma_letter_to_digit_identity(s: Seq<char>)
    requires
        forall|i: int|
            0 <= i < s.len() ==> ('0' as int <= #[trigger] s[i] as int <= '9' as int || s[i]
                == '<'),
    ensures
        s.map_values(|c: char| letter_to_digit(c)) == s,
{
    let m = s.map_values(|c: char| letter_to_digit(c));
    assert forall|i: int| 0 <= i < s.len() implies #[trigger] m[i] == s[i] by {
        assert(letter_to_digit(s[i]) == s[i]);
    }
    assert(m =~= s);
}

/// `s` with leading and trailing filler characters removed.
pub open spec fn trim_fillers(s: Seq<char>) -> Seq<char>
    decreases s.len(),
{
    if s.len() > 0 && s[0] == '<' {
        trim_fillers(s.drop_first())
    } else if s.len() > 0 && s.last() == '<' {
        trim_fillers(s.drop_last())
    } else {
        s
    }
}

// ------------------------------------------------------------------
// Executable helpers on characters and strings.
// ------------------------------------------------------------------

/// Relies on String::push: appends exactly the one character `c`.
#[verifier::external_body]
pub(crate) fn push_char(s: &mut String, c: char)
    ensures
        final(s)@ == old(s)@ + seq![c],
{
    s.push(c);
}

/// Builds the string holding exactly the characters of `v`.
pub(crate) fn chars_to_string(v: &Vec<char>) -> (r: String)
    ensures
        r@ == v@,
{
    let mut r = String::new();
    let mut i: usize = 0;
    while i < v.len()
        invariant
            i <= v@.len(),
            r@ == v@.take(i as int),
        decreases v@.len() - i,
    {
        push_char(&mut r, v[i]);
        proof {
            assert(v@.take(i as int + 1) =~= v@.take(i as int) + seq![v@[i as int]]);
        }
        i = i + 1;
    }
    proof {
        assert(v@.take(v@.len() as int) =~= v@);
    }
    r
}

/// The string holding exactly the one character `c`.
pub(crate) fn char_string(c: char) -> (r: String)
    ensures
        r@ == seq![c],
{
    let mut s = String::new();
    push_char(&mut s, c);
    proof {
        assert(Seq::<char>::empty() + seq![c] =~= seq![c]);
    }
    s
}

/// Whether `s` holds the character `c` anywhere.
pub(crate) fn str_contains_char(s: &str, c: char) -> (r: bool)
    ensures
        r == s@.contains(c),
{
    let n = s.unicode_len();
    let mut i: usize = 0;
    while i < n
        invariant
            i <= n,
            n == s@.len(),
            forall|j: int| 0 <= j < i ==> #[trigger] s@[j] != c,
        decreases n - i,
    {
        if s.get_char(i) == c {
            return true;
        }
        i = i + 1;
    }
    proof {
        assert(!s@.contains(c));
    }
    false
}

/// Whether two string slices hold the same characters.
pub(crate) fn str_eq(a: &str, b: &str) -> (r: bool)
    ensures
        r == (a@ == b@),
{
    let n = a.unicode_len();
    if n != b.unicode_len() {
        proof {
            assert(a@ != b@);
        }
        return false;
    }
    let mut i: usize = 0;
    while i < n
        invariant
            i <= n,
            n == a@.len(),
            n == b@.len(),
            forall|j: int| 0 <= j < i ==> a@[j] == b@[j],
        decreases n - i,
    {
        if a.get_char(i) != b.get_char(i) {
            return false;
        }
        i = i + 1;
    }
    proof {
        assert(a@ =~= b@);
    }
    true
}

/// The numeric checksum value of `c`, or `None` where `c` lies outside the
/// MRZ alphabet.
fn mrz_value_of(c: char) -> (r: Option<u32>)
    ensures
        match r {
            Some(v) => is_mrz_char(c) && v == char_value(c),
            None => !is_mrz_char(c),
        },
{
    let u = c as u32;
    if u == 60 {
        Some(0)
    } else if 48 <= u && u <= 57 {
        Some(u - 48)
    } else if 65 <= u && u <= 90 {
        Some(u - 65 + 10)
    } else if 97 <= u && u <= 122 {
        Some(u - 97 + 10)
    } else {
        None
    }
}

/// The check digit of `value`, or `None` where `value` holds a character
/// outside the MRZ alphabet.
fn compute_check_digit(value: &str) -> (r: Option<char>)
    ensures
        match r {
            Some(c) => mrz_ok(value@) && c == check_digit_char(value@),
            None => !mrz_ok(value@),
        },
{
    let n = value.unicode_len();
    let mut total: u32 = 0;
    let mut i: usize = 0;
    while i < n
        invariant
            i <= n,
            n == value@.len(),
            total == weighted_sum(value@.take(i as int)) % 10,
            mrz_ok(value@.take(i as int)),
        decreases n - i,
    {
        let c = value.get_char(i);
        let v = match mrz_value_of(c) {
            Some(v) => v,
            None => {
                proof {
                    assert(!is_mrz_char(value@[i as int]));
                }
                return None;
            },
        };
        let w: u32 = if i % 3 == 0 {
            7
        } else if i % 3 == 1 {
            3
        } else {
            1
        };
        proof {
            let prefix = value@.take(i as int);
            let next = value@.take(i as int + 1);
            assert(next =~= prefix + seq![value@[i as int]]);
            assert(next.drop_last() =~= prefix);
            vstd::arithmetic::div_mod::lemma_add_mod_noop_right(
                w as int * v as int,
                weighted_sum(prefix),
                10,
            );
        }
        total = (total + w * v) % 10;
        i = i + 1;
    }
    proof {
        assert(value@.take(n as int) =~= value@);
    }
    let d = digit_glyph(total);
    Some(d)
}

/// The digit character for `d` in 0..=9.
fn digit_glyph(d: u32) -> (r: char)
    requires
        d < 10,
    ensures
        r == digit_char(d as int),
{
    match d {
        0 => '0',
        1 => '1',
        2 => '2',
        3 => '3',
        4 => '4',
        5 => '5',
        6 => '6',
        7 => '7',
        8 => '8',
        _ => '9',
    }
}

// ------------------------------------------------------------------
// The public checksum operations.
// ------------------------------------------------------------------

/// Whether `value`'s check digit equals `check_digit`.
///
/// Returns false both on a mismatch and where `value` holds a character
/// outside the MRZ alphabet.
pub fn is_value_valid(value: &str, check_digit: &str) -> (r: bool)
    ensures
        r == valid_value_model(value@, check_digit@),
{
    let d = match compute_check_digit(value) {
        Some(d) => d,
        None => {
            return false;
        },
    };
    if check_digit.unicode_len() == 1 && check_digit.get_char(0) == d {
        proof {
            assert(check_digit@ =~= check_digit_seq(value@));
        }
        true
    } else {
        proof {
            assert(check_digit@ == check_digit_seq(value@) ==> check_digit@.len() == 1
                && check_digit@[0] == check_digit_char(value@));
        }
        false
    }
}

/// The check digit of `value`, as a one-digit string; fails where `value`
/// holds a character outside the MRZ alphabet.
pub fn calculate_check_digits(value: &str) -> (r: Result<String, MrzError>)
    ensures
        match r {
            Ok(d) => calculate_model(value@) == Ok::<Seq<char>, MrzError>(d@),
            Err(e) => calculate_model(value@) == Err::<Seq<char>, MrzError>(e),
        },
{
    let d = match compute_check_digit(value) {
        Some(d) => d,
        None => {
            return Err(MrzError::InvalidCharacter);
        },
    };
    let v: Vec<char> = vec![d];
    let s = chars_to_string(&v);
    proof {
        assert(s@ =~= check_digit_seq(value@));
    }
    Ok(s)
}

// ------------------------------------------------------------------
// The public OCR substitutions and small string utilities.
// ------------------------------------------------------------------

/// `input` with the digits 0, 1, 2, 8 replaced by the letters O, I, Z, B.
pub fn replace_digits(input: &str) -> (r: String)
    ensures
        r@ == input@.map_values(|c: char| digit_to_letter(c)),
{
    let n = input.unicode_len();
    let mut v: Vec<char> = Vec::new();
    let mut i: usize = 0;
    while i < n
        invariant
            i <= n,
            n == input@.len(),
            v@ == input@.take(i as int).map_values(|c: char| digit_to_letter(c)),
        decreases n - i,
    {
        let c = input.get_char(i);
        let m = if c == '0' {
            'O'
        } else if c == '1' {
            'I'
        } else if c == '2' {
            'Z'
        } else if c == '8' {
            'B'
        } else {
            c
        };
        v.push(m);
        proof {
            assert(input@.take(i as int + 1).map_values(|c: char| digit_to_letter(c))
                =~= input@.take(i as int).map_values(|c: char| digit_to_letter(c))
                + seq![digit_to_letter(input@[i as int])]);
        }
        i = i + 1;
    }
    proof {
        assert(input@.take(n as int) =~= input@);
    }
    chars_to_string(&v)
}

/// `input` with the letters O, Q, U, D, I, Z, B replaced by the digits
/// 0, 1, 2, 8 they are commonly misread from.
pub fn replace_letters(input: &str) -> (r: String)
    ensures
        r@ == input@.map_values(|c: char| letter_to_digit(c)),
{
    let n = input.unicode_len();
    let mut v: Vec<char> = Vec::new();
    let mut i: usize = 0;
    while i < n
        invariant
            i <= n,
            n == input@.len(),
            v@ == input@.take(i as int).map_values(|c: char| letter_to_digit(c)),
        decreases n - i,
    {
        let c = input.get_char(i);
        let m = if c == 'O' || c == 'Q' || c == 'U' || c == 'D' {
            '0'
        } else if c == 'I' {
            '1'
        } else if c == 'Z' {
            '2'
        } else if c == 'B' {
            '8'
        } else {
            c
        };
        v.push(m);
        proof {
            assert(input@.take(i as int + 1).map_values(|c: char| letter_to_digit(c))
                =~= input@.take(i as int).map_values(|c: char| letter_to_digit(c))
                + seq![letter_to_digit(input@[i as int])]);
        }
        i = i + 1;
    }
    proof {
        assert(input@.take(n as int) =~= input@);
    }
    chars_to_string(&v)
}

/// `input` with leading and trailing filler characters removed.
pub fn trimming_filler(input: &str) -> (r: String)
    ensures
        r@ == trim_fillers(input@),
{
    let n = input.unicode_len();
    let mut lo: usize = 0;
    let mut hi: usize = n;
    proof {
        assert(input@.subrange(0, n as int) =~= input@);
    }
    while lo < hi && input.get_char(lo) == '<'
        invariant
            lo <= hi <= n,
            n == input@.len(),
            trim_fillers(input@) == trim_fillers(input@.subrange(lo as int, hi as int)),
        decreases hi - lo,
    {
        proof {
            let s = input@.subrange(lo as int, hi as int);
            assert(s.drop_first() =~= input@.subrange(lo as int + 1, hi as int));
        }
        lo = lo + 1;
    }
    while lo < hi && input.get_char(hi - 1) == '<'
        invariant
            lo <= hi <= n,
            n == input@.len(),
            trim_fillers(input@) == trim_fillers(input@.subrange(lo as int, hi as int)),
            lo < hi ==> input@[lo as int] != '<',
        decreases hi - lo,
    {
        proof {
            let s = input@.subrange(lo as int, hi as int);
            assert(s.drop_last() =~= input@.subrange(lo as int, hi as int - 1));
        }
        hi = hi - 1;
    }
    proof {
        let s = input@.subrange(lo as int, hi as int);
        assert(trim_fillers(s) == s);
    }
    let piece = input.substring_char(lo, hi);
    let mut v: Vec<char> = Vec::new();
    let mut i: usize = 0;
    let m = hi - lo;
    while i < m
        invariant
            i <= m,
            m == piece@.len(),
            v@ == piece@.take(i as int),
        decreases m - i,
    {
        v.push(piece.get_char(i));
        proof {
            assert(piece@.take(i as int + 1) =~= piece@.take(i as int) + seq![piece@[i as int]]);
        }
        i = i + 1;
    }
    proof {
        assert(piece@.take(m as int) =~= piece@);
    }
    chars_to_string(&v)
}

/// Whether every element of `slice` equals its first element; vacuously
/// true of an empty slice.
pub fn check_same(slice: &[usize]) -> (r: bool)
    ensures
        r == (forall|i: int| 0 <= i < slice@.len() ==> #[trigger] slice@[i] == slice@[0]),
{
    if slice.len() == 0 {
        return true;
    }
    let first = slice[0];
    let mut i: usize = 0;
    while i < slice.len()
        invariant
            i <= slice@.len(),
            slice@.len() > 0,
            first == slice@[0],
            forall|j: int| 0 <= j < i ==> #[trigger] slice@[j] == slice@[0],
        decreases slice@.len() - i,
    {
        if slice[i] != first {
            return false;
        }
        i = i + 1;
    }
    true
}

} // verus!
