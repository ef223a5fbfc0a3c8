//! The words that denote floats.
//!
//! A float word is read as a whole: an optional sign, then `inf`, `nan`, or a
//! decimal number with an optional exponent.  Which words are float words is
//! decided here, character by character; what float a word denotes is left
//! to the float parser.

use vstd::prelude::*;
use crate::number::is_digit;

verus! {

/// A plus or a minus sign.
pub open spec fn is_sign(c: char) -> bool {
    c == '+' || c == '-'
}

/// A character that starts the exponent of a float.
pub open spec fn is_exponent_mark(c: char) -> bool {
    c == 'e' || c == 'E'
}

/// Where the run of digits that starts at `from` ends.
pub open spec fn digit_end(s: Seq<char>, from: int) -> int
    decreases s.len() - from,
{
    if 0 <= from < s.len() && is_digit(s[from]) {
        digit_end(s, from + 1)
    } else {
        from
    }
}

/// Where the run of zeros that starts at `from` ends.
pub open spec fn zero_end(s: Seq<char>, from: int) -> int
    decreases s.len() - from,
{
    if 0 <= from < s.len() && s[from] == '0' {
        zero_end(s, from + 1)
    } else {
        from
    }
}

/// Where the word starts behind its sign, if it has one.
pub open spec fn body_start(s: Seq<char>) -> int {
    if s.len() > 0 && is_sign(s[0]) {
        1
    } else {
        0
    }
}

/// Where the digits before the decimal point end.
pub open spec fn whole_end(s: Seq<char>) -> int {
    digit_end(s, body_start(s))
}

/// A decimal point stands behind the digits of the whole part.
pub open spec fn is_pointed(s: Seq<char>) -> bool {
    whole_end(s) < s.len() && s[whole_end(s)] == '.'
}

/// Where the digits behind the decimal point start.
pub open spec fn fraction_start(s: Seq<char>) -> int {
    if is_pointed(s) {
        whole_end(s) + 1
    } else {
        whole_end(s)
    }
}

/// Where the mantissa ends: behind the digits of the fraction.
pub open spec fn mantissa_end(s: Seq<char>) -> int {
    digit_end(s, fraction_start(s))
}

/// How many digits the mantissa has, before and behind the point.
pub open spec fn mantissa_digits(s: Seq<char>) -> int {
    (whole_end(s) - body_start(s)) + (mantissa_end(s) - fraction_start(s))
}

/// Where the digits of the exponent start: behind the mark and its sign.
pub open spec fn exponent_start(s: Seq<char>) -> int {
    if mantissa_end(s) + 1 < s.len() && is_sign(s[mantissa_end(s) + 1]) {
        mantissa_end(s) + 2
    } else {
        mantissa_end(s) + 1
    }
}

/// The word has an exponent, and its sign is a minus.
pub open spec fn exponent_is_negative(s: Seq<char>) -> bool {
    mantissa_end(s) + 1 < s.len() && s[mantissa_end(s) + 1] == '-'
}

/// How many digits the exponent has behind its leading zeros.
pub open spec fn exponent_weight(s: Seq<char>) -> int {
    s.len() - zero_end(s, exponent_start(s))
}

/// A decimal number: a mantissa of at least one digit with at most one
/// decimal point, and then nothing, or an exponent mark with an optional sign
/// and nothing but digits behind it.
pub open spec fn is_number_word(s: Seq<char>) -> bool {
    &&& mantissa_digits(s) > 0
    &&& mantissa_end(s) == s.len() || (is_exponent_mark(s[mantissa_end(s)]) && digit_end(
        s,
        exponent_start(s),
    ) == s.len())
}

/// The letters `inf` behind the sign, in either case.
pub open spec fn is_inf_word(s: Seq<char>) -> bool {
    let i = body_start(s);
    &&& s.len() == i + 3
    &&& (s[i] == 'i' || s[i] == 'I')
    &&& (s[i + 1] == 'n' || s[i + 1] == 'N')
    &&& (s[i + 2] == 'f' || s[i + 2] == 'F')
}

/// The letters `nan` behind the sign, in either case.
pub open spec fn is_nan_word(s: Seq<char>) -> bool {
    let i = body_start(s);
    &&& s.len() == i + 3
    &&& (s[i] == 'n' || s[i] == 'N')
    &&& (s[i + 1] == 'a' || s[i + 1] == 'A')
    &&& (s[i + 2] == 'n' || s[i + 2] == 'N')
}

/// A word that denotes a float.
pub open spec fn is_float_word(s: Seq<char>) -> bool {
    is_inf_word(s) || is_nan_word(s) || is_number_word(s)
}

/// The fewest digits of a negative exponent, leading zeros aside, with which
/// a number lies below every float but zero.
pub const UNDERFLOW_WEIGHT: usize = 10;

/// A number whose negative exponent is too long for any float but zero.
pub open spec fn underflows(s: Seq<char>) -> bool {
    &&& is_number_word(s)
    &&& exponent_is_negative(s)
    &&& exponent_weight(s) >= UNDERFLOW_WEIGHT
}

/// The longest word with a decimal point that is read as a float.
pub const MAX_FRACTION_TEXT: usize = 1_000_000_000;

/// A number with a decimal point that is too long to be read.
pub open spec fn fraction_too_long(s: Seq<char>) -> bool {
    is_number_word(s) && is_pointed(s) && s.len() > MAX_FRACTION_TEXT
}

/// What kind of word a text is with regard to floats.
#[derive(Clone, Copy, Debug, PartialEq, Eq, Structural)]
pub enum WordKind {
    /// No float word.
    NoFloat,
    /// A float word that denotes zero, its exponent being too far below.
    Underflow,
    /// A float word that is too long to be read.
    TooLong,
    /// A float word that the float parser reads.
    Readable,
}

/// The kind of a text.
pub open spec fn word_kind(s: Seq<char>) -> WordKind {
    if !is_float_word(s) {
        WordKind::NoFloat
    } else if underflows(s) {
        WordKind::Underflow
    } else if fraction_too_long(s) {
        WordKind::TooLong
    } else {
        WordKind::Readable
    }
}

/// A run of digits that reaches the end of the text ends there.
pub proof fn lemma_digit_end_all(s: Seq<char>, from: int)
    requires
        0 <= from <= s.len(),
        forall|i: int| from <= i < s.len() ==> is_digit(#[trigger] s[i]),
    ensures
        digit_end(s, from) == s.len(),
    decreases s.len() - from,
{
    if from < s.len() {
        lemma_digit_end_all(s, from + 1);
    }
}

/// The end of the run of digits that starts at `from`.
fn scan_digits(chars: &Vec<char>, from: usize) -> (to: usize)
    requires
        from <= chars.len(),
    ensures
        from <= to <= chars.len(),
        to == digit_end(chars@, from as int),
{
    let mut i: usize = from;
    while i < chars.len() && '0' <= chars[i] && chars[i] <= '9'
        invariant
            from <= i <= chars.len(),
            digit_end(chars@, from as int) == digit_end(chars@, i as int),
        decreases chars.len() - i,
    {
        i += 1;
    }
    i
}

/// The end of the run of zeros that starts at `from`.
fn scan_zeros(chars: &Vec<char>, from: usize) -> (to: usize)
    requires
        from <= chars.len(),
    ensures
        from <= to <= chars.len(),
        to == zero_end(chars@, from as int),
{
    let mut i: usize = from;
    while i < chars.len() && chars[i] == '0'
        invariant
            from <= i <= chars.len(),
            zero_end(chars@, from as int) == zero_end(chars@, i as int),
        decreases chars.len() - i,
    {
        i += 1;
    }
    i
}

/// Whether the three characters from `at` on spell the given letters, in
/// either case.
fn spells(chars: &Vec<char>, at: usize, lower: [char; 3], upper: [char; 3]) -> (r: bool)
    requires
        at + 3 <= chars.len(),
    ensures
        r == ((chars@[at as int] == lower[0] || chars@[at as int] == upper[0]) && (chars@[at + 1]
            == lower[1] || chars@[at + 1] == upper[1]) && (chars@[at + 2] == lower[2] || chars@[at
            + 2] == upper[2])),
{
    (chars[at] == lower[0] || chars[at] == upper[0]) && (chars[at + 1] == lower[1] || chars[at + 1]
        == upper[1]) && (chars[at + 2] == lower[2] || chars[at + 2] == upper[2])
}

/// Tells what kind of word the characters make.
pub fn kind_of_word(chars: &Vec<char>) -> (r: WordKind)
    ensures
        r == word_kind(chars@),
{
    let n = chars.len();
    let start: usize = if n > 0 && (chars[0] == '+' || chars[0] == '-') {
        1
    } else {
        0
    };
    let whole = scan_digits(chars, start);
    let pointed = whole < n && chars[whole] == '.';
    let fraction: usize = if pointed {
        whole + 1
    } else {
        whole
    };
    let mantissa = scan_digits(chars, fraction);
    if n - start == 3 {
        if spells(chars, start, ['i', 'n', 'f'], ['I', 'N', 'F']) || spells(
            chars,
            start,
            ['n', 'a', 'n'],
            ['N', 'A', 'N'],
        ) {
            return WordKind::Readable;
        }
    }
    if (whole - start) + (mantissa - fraction) == 0 {
        return WordKind::NoFloat;
    }
    if mantissa < n {
        if !(chars[mantissa] == 'e' || chars[mantissa] == 'E') {
            return WordKind::NoFloat;
        }
        let signed = mantissa + 1 < n && (chars[mantissa + 1] == '+' || chars[mantissa + 1]
            == '-');
        let digits: usize = if signed {
            mantissa + 2
        } else {
            mantissa + 1
        };
        if scan_digits(chars, digits) != n {
            return WordKind::NoFloat;
        }
        let negative = mantissa + 1 < n && chars[mantissa + 1] == '-';
        let weighty = scan_zeros(chars, digits);
        if negative && n - weighty >= UNDERFLOW_WEIGHT {
            return WordKind::Underflow;
        }
    }
    if pointed && n > MAX_FRACTION_TEXT {
        return WordKind::TooLong;
    }
    WordKind::Readable
}

} // verus!
