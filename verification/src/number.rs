//! Arbitrary-precision numbers: exact integers and decimal floats.
//!
//! The integers are `num_bigint::BigInt` values and the floats are
//! `num_bigfloat::BigFloat` values.  Both are opaque to the verifier: an
//! integer is known through the mathematical integer it holds
//! ([`int_value`]), a float only through the named results of the operations
//! that produce it.  A [`Float`] holds only what the float library itself has
//! produced ([`float_valid`]), and only such floats go back into it.  Which
//! words denote floats is decided by the grammar of float words; the float
//! parser is handed only words that its machine words can take.

use vstd::prelude::*;
use num_bigint::BigInt;
use num_bigint::ParseBigIntError;
use num_bigfloat::BigFloat;
use std::str::FromStr;
use crate::float_word::kind_of_word;
use crate::float_word::lemma_digit_end_all;
use crate::float_word::word_kind;
use crate::float_word::WordKind;
use crate::text::chars_of;

verus! {

/// `num_bigint::BigInt`, an integer of any size.
#[verifier::external_type_specification]
#[verifier::external_body]
pub struct ExBigInt(BigInt);

/// `num_bigfloat::BigFloat`, a decimal float of forty digits that is copied
/// freely.
#[verifier::external_type_specification]
#[verifier::external_body]
pub struct ExBigFloat(BigFloat);

/// `num_bigint::ParseBigIntError`, the failure of reading an integer.
#[verifier::external_type_specification]
#[verifier::external_body]
pub struct ExParseBigIntError(ParseBigIntError);

/// The mathematical integer that a `BigInt` holds.
pub uninterp spec fn int_value(i: BigInt) -> int;

/// What `BigFloat::from_str` returns for a text: the parsed float, or the
/// float it hands back as its error.
pub uninterp spec fn float_parse(text: Seq<char>) -> Result<BigFloat, BigFloat>;

/// Whether a float is one that the functions of the float library hand out:
/// `BigFloat::from_str`, `add`, `sub` and `mul` return such floats, and they
/// are what these functions and `==` and `Display` are called on.
pub uninterp spec fn float_valid(f: BigFloat) -> bool;

/// What `BigFloat::get_exponent` returns: the decimal exponent of a finite
/// float, 0 otherwise.
pub uninterp spec fn float_exponent(f: BigFloat) -> i8;

/// What `BigFloat::get_mantissa_len` returns: the number of digits in the
/// mantissa of a finite float, 0 for zero and for what is not finite.
pub uninterp spec fn float_digits(f: BigFloat) -> usize;

/// What `BigFloat::add` returns for two operands.
pub uninterp spec fn float_sum(a: BigFloat, b: BigFloat) -> BigFloat;

/// What `BigFloat::sub` returns for two operands.
pub uninterp spec fn float_difference(a: BigFloat, b: BigFloat) -> BigFloat;

/// What `BigFloat::mul` returns for two operands.
pub uninterp spec fn float_product(a: BigFloat, b: BigFloat) -> BigFloat;

/// What `BigFloat`'s `==` returns for two operands.
pub uninterp spec fn float_equal(a: BigFloat, b: BigFloat) -> bool;

/// The text that `BigFloat`'s `Display` writes.
pub uninterp spec fn float_text(f: BigFloat) -> Seq<char>;

/// `c` is one of the ten decimal digits.
pub open spec fn is_digit(c: char) -> bool {
    '0' as int <= c as int && c as int <= '9' as int
}

/// The value of a decimal digit.
pub open spec fn digit_value(c: char) -> int {
    c as int - '0' as int
}

/// The decimal digit of a value below ten.
pub open spec fn digit_char(d: int) -> char {
    (d + '0' as int) as char
}

/// The number that a run of decimal digits denotes, most significant digit
/// first.  Underscores between digits carry no value.
pub open spec fn digits_value(s: Seq<char>) -> int
    decreases s.len(),
{
    if s.len() == 0 {
        0
    } else if s.last() == '_' {
        digits_value(s.drop_last())
    } else {
        10 * digits_value(s.drop_last()) + digit_value(s.last())
    }
}

/// A non-empty run of digits and underscores that starts with a digit.
pub open spec fn is_digit_run(s: Seq<char>) -> bool {
    &&& s.len() > 0
    &&& s[0] != '_'
    &&& forall|i: int| 0 <= i < s.len() ==> is_digit(#[trigger] s[i]) || s[i] == '_'
}

/// The text starts with a sign character.
pub open spec fn has_sign(s: Seq<char>) -> bool {
    s.len() > 0 && (s[0] == '-' || s[0] == '+')
}

/// The integer that a word denotes as an integer literal, if it is one: an
/// optional sign, then a digit run.
pub open spec fn int_literal(s: Seq<char>) -> Option<int> {
    let body = if has_sign(s) {
        s.subrange(1, s.len() as int)
    } else {
        s
    };
    if !is_digit_run(body) {
        None
    } else if s[0] == '-' {
        Some(-digits_value(body))
    } else {
        Some(digits_value(body))
    }
}

/// The decimal digits of a natural number, without leading zeros.
pub open spec fn nat_text(n: nat) -> Seq<char>
    decreases n,
{
    if n < 10 {
        seq![digit_char(n as int)]
    } else {
        nat_text(n / 10).push(digit_char((n % 10) as int))
    }
}

/// The decimal text of an integer: a minus sign for a negative one, then its
/// digits.
pub open spec fn decimal_text(v: int) -> Seq<char> {
    if v < 0 {
        seq!['-'] + nat_text((-v) as nat)
    } else {
        nat_text(v as nat)
    }
}

/// A text that the float parser is handed: a float word whose exponent and
/// fraction the parser's machine words can take.
pub open spec fn float_readable(s: Seq<char>) -> bool {
    word_kind(s) == WordKind::Readable
}

/// The text of zero.
pub open spec fn zero_text() -> Seq<char> {
    seq!['0']
}

/// The lowest exponent that a float holds.
pub const MIN_EXPONENT: i32 = -128;

/// The exponent from which on down a product is zero whatever its digits.
pub const VANISHING_EXPONENT: i32 = -172;

/// The product of the two floats is within the reach of multiplication.
/// The exponents of the operands add up, and the product has at most one
/// digit less than the operands have together.  A product whose exponent
/// lies below the lowest one loses a digit for each step below.  Within
/// reach is a product that keeps a digit, one whose exponent lies so far
/// below that multiplication hands back zero at once, and one of an operand
/// without digits.
pub open spec fn product_in_reach(a: BigFloat, b: BigFloat) -> bool {
    let exponent = float_exponent(a) + float_exponent(b);
    let digits = float_digits(a) + float_digits(b);
    ||| float_digits(a) == 0
    ||| float_digits(b) == 0
    ||| exponent >= MIN_EXPONENT
    ||| exponent <= VANISHING_EXPONENT
    ||| digits - 1 + exponent - MIN_EXPONENT >= 0
}

/// `BigInt::from_str`: succeeds exactly on an integer literal, and the result
/// then holds the integer that the literal denotes.
#[verifier::external_body]
fn int_from_str(text: &str) -> (r: Result<BigInt, ParseBigIntError>)
    ensures
        match r {
            Ok(i) => int_literal(text@) == Some(int_value(i)),
            Err(_) => int_literal(text@) is None,
        },
{
    BigInt::from_str(text)
}

/// `BigInt`'s `+` on two references: the result holds the sum.
#[verifier::external_body]
fn int_add(a: &BigInt, b: &BigInt) -> (r: BigInt)
    ensures
        int_value(r) == int_value(*a) + int_value(*b),
{
    a + b
}

/// `BigInt`'s `-` on two references: the result holds the difference.
#[verifier::external_body]
fn int_sub(a: &BigInt, b: &BigInt) -> (r: BigInt)
    ensures
        int_value(r) == int_value(*a) - int_value(*b),
{
    a - b
}

/// `BigInt`'s `*` on two references: the result holds the product.
#[verifier::external_body]
fn int_mul(a: &BigInt, b: &BigInt) -> (r: BigInt)
    ensures
        int_value(r) == int_value(*a) * int_value(*b),
{
    a * b
}

/// `BigInt`'s `==`: true exactly when both hold the same integer.
#[verifier::external_body]
fn int_eq(a: &BigInt, b: &BigInt) -> (r: bool)
    ensures
        r == (int_value(*a) == int_value(*b)),
{
    a == b
}

/// `BigInt::clone`: the copy holds the same integer.
#[verifier::external_body]
fn int_clone(a: &BigInt) -> (r: BigInt)
    ensures
        int_value(r) == int_value(*a),
{
    a.clone()
}

/// `BigInt`'s `Display`, through `to_string`: the decimal text of the integer.
#[verifier::external_body]
fn int_to_string(a: &BigInt) -> (r: String)
    ensures
        r@ == decimal_text(int_value(*a)),
{
    a.to_string()
}

/// `BigFloat::from_str`, on a float word whose exponent and fraction cannot
/// overflow in the parser: the named parse result of the text, a float of the
/// library's own making in either case.
#[verifier::external_body]
fn float_from_str(text: &str) -> (r: Result<BigFloat, BigFloat>)
    requires
        float_readable(text@),
    ensures
        r == float_parse(text@),
        match r {
            Ok(f) => float_valid(f),
            Err(f) => float_valid(f),
        },
{
    BigFloat::from_str(text)
}

/// `BigFloat::add`, on floats of the library's own making: the named sum of
/// the operands, again such a float.
#[verifier::external_body]
fn float_add(a: &BigFloat, b: &BigFloat) -> (r: BigFloat)
    requires
        float_valid(*a),
        float_valid(*b),
    ensures
        r == float_sum(*a, *b),
        float_valid(r),
{
    a.add(b)
}

/// `BigFloat::sub`, on floats of the library's own making: the named
/// difference of the operands, again such a float.
#[verifier::external_body]
fn float_sub(a: &BigFloat, b: &BigFloat) -> (r: BigFloat)
    requires
        float_valid(*a),
        float_valid(*b),
    ensures
        r == float_difference(*a, *b),
        float_valid(r),
{
    a.sub(b)
}

/// `BigFloat::mul`, on floats of the library's own making whose product is
/// within reach: the named product of the operands, again such a float.
#[verifier::external_body]
fn float_mul(a: &BigFloat, b: &BigFloat) -> (r: BigFloat)
    requires
        float_valid(*a),
        float_valid(*b),
        product_in_reach(*a, *b),
    ensures
        r == float_product(*a, *b),
        float_valid(r),
{
    a.mul(b)
}

/// `BigFloat::get_exponent`: the named exponent of the float.
#[verifier::external_body]
fn float_get_exponent(a: &BigFloat) -> (r: i8)
    ensures
        r == float_exponent(*a),
{
    a.get_exponent()
}

/// `BigFloat::get_mantissa_len`: the named number of digits of the float.
#[verifier::external_body]
fn float_get_mantissa_len(a: &BigFloat) -> (r: usize)
    ensures
        r == float_digits(*a),
{
    a.get_mantissa_len()
}

/// `BigFloat`'s `==`, on floats of the library's own making: the named
/// comparison of the operands.
#[verifier::external_body]
fn float_eq(a: &BigFloat, b: &BigFloat) -> (r: bool)
    requires
        float_valid(*a),
        float_valid(*b),
    ensures
        r == float_equal(*a, *b),
{
    a == b
}

/// `BigFloat`'s `Display`, through `to_string`, on a float of the library's
/// own making: the named text of the float.
#[verifier::external_body]
fn float_to_string(a: &BigFloat) -> (r: String)
    requires
        float_valid(*a),
    ensures
        r@ == float_text(*a),
{
    a.to_string()
}

/// The float that stands for a text: the parsed float, or the float that the
/// parser hands back in place of one.
pub open spec fn float_of_text(text: Seq<char>) -> BigFloat {
    match float_parse(text) {
        Ok(f) => f,
        Err(f) => f,
    }
}

/// The float zero: what the float parser makes of the text of zero.
pub open spec fn float_zero() -> BigFloat {
    float_of_text(zero_text())
}

/// The product of two floats: what multiplication makes of them where the
/// product is within its reach, and zero where it is not, the product then
/// being too small to keep a digit.
pub open spec fn float_times(a: BigFloat, b: BigFloat) -> BigFloat {
    if product_in_reach(a, b) {
        float_product(a, b)
    } else {
        float_zero()
    }
}

/// The mathematical model of a [`Number`].
pub enum NumberView {
    Int(int),
    Float(BigFloat),
}

impl NumberView {
    /// The float that takes part in a float operation in place of this
    /// number: an integer goes through its decimal text.
    pub open spec fn as_float(self) -> BigFloat {
        match self {
            NumberView::Int(v) => float_of_text(decimal_text(v)),
            NumberView::Float(f) => f,
        }
    }

    /// The sum: exact on two integers, a float sum otherwise.
    pub open spec fn plus(self, rhs: NumberView) -> NumberView {
        match (self, rhs) {
            (NumberView::Int(a), NumberView::Int(b)) => NumberView::Int(a + b),
            _ => NumberView::Float(float_sum(self.as_float(), rhs.as_float())),
        }
    }

    /// The difference: exact on two integers, a float difference otherwise.
    pub open spec fn minus(self, rhs: NumberView) -> NumberView {
        match (self, rhs) {
            (NumberView::Int(a), NumberView::Int(b)) => NumberView::Int(a - b),
            _ => NumberView::Float(float_difference(self.as_float(), rhs.as_float())),
        }
    }

    /// The product: exact on two integers, a float product otherwise.
    pub open spec fn times(self, rhs: NumberView) -> NumberView {
        match (self, rhs) {
            (NumberView::Int(a), NumberView::Int(b)) => NumberView::Int(a * b),
            _ => NumberView::Float(float_times(self.as_float(), rhs.as_float())),
        }
    }

    /// Equality of numbers: only within one variant, an integer never equals
    /// a float.
    pub open spec fn same(self, other: NumberView) -> bool {
        match (self, other) {
            (NumberView::Int(a), NumberView::Int(b)) => a == b,
            (NumberView::Float(a), NumberView::Float(b)) => float_equal(a, b),
            _ => false,
        }
    }

    /// The display text: an integer without a decimal point, a float in its
    /// own decimal form.
    pub open spec fn text(self) -> Seq<char> {
        match self {
            NumberView::Int(v) => decimal_text(v),
            NumberView::Float(f) => float_text(f),
        }
    }
}

/// The float that a text denotes, if it denotes one.  A float word denotes
/// what the float parser makes of it.  A float word with a negative exponent
/// too long for any float but zero denotes zero.  A float word that is too
/// long to be read, and a text that is no float word, denote no float.
pub open spec fn float_literal(text: Seq<char>) -> Option<BigFloat> {
    match word_kind(text) {
        WordKind::Readable => Some(float_of_text(text)),
        WordKind::Underflow => Some(float_zero()),
        WordKind::TooLong => None,
        WordKind::NoFloat => None,
    }
}

/// The number that a word denotes as a numeric literal: an integer where the
/// word is an integer literal, else a float where the word denotes one.
pub open spec fn number_literal(word: Seq<char>) -> Option<NumberView> {
    match int_literal(word) {
        Some(v) => Some(NumberView::Int(v)),
        None => match float_literal(word) {
            Some(f) => Some(NumberView::Float(f)),
            None => None,
        },
    }
}

/// The decimal text of a natural number holds digits only.
pub proof fn lemma_nat_text_digits(n: nat)
    ensures
        forall|i: int| 0 <= i < nat_text(n).len() ==> is_digit(#[trigger] nat_text(n)[i]),
    decreases n,
{
    if n >= 10 {
        lemma_nat_text_digits(n / 10);
        assert(is_digit(digit_char((n % 10) as int)));
        assert forall|i: int| 0 <= i < nat_text(n).len() implies is_digit(
            #[trigger] nat_text(n)[i],
        ) by {
            if i < nat_text(n / 10).len() {
                assert(nat_text(n)[i] == nat_text(n / 10)[i]);
            }
        }
    } else {
        assert(is_digit(digit_char(n as int)));
    }
}

/// The decimal text of an integer can always be handed to the float parser:
/// it is a number without a decimal point and without an exponent.
pub proof fn lemma_decimal_text_readable(v: int)
    ensures
        float_readable(decimal_text(v)),
{
    let text = decimal_text(v);
    if v < 0 {
        lemma_nat_text_digits((-v) as nat);
        assert forall|i: int| 1 <= i < text.len() implies is_digit(#[trigger] text[i]) by {
            assert(text[i] == nat_text((-v) as nat)[i - 1]);
        }
        assert(text[0] == '-');
        lemma_digit_end_all(text, 1);
    } else {
        lemma_nat_text_digits(v as nat);
        assert(is_digit(text[0]));
        lemma_digit_end_all(text, 0);
    }
}

/// The text of zero can be handed to the float parser.
pub proof fn lemma_zero_text_readable()
    ensures
        float_readable(zero_text()),
{
    let text = zero_text();
    assert(is_digit(text[0]));
    lemma_digit_end_all(text, 0);
}

/// Whether a text can be handed to the float parser.
pub fn is_float_readable(text: &str) -> (r: bool)
    ensures
        r == float_readable(text@),
{
    let chars = chars_of(text);
    kind_of_word(&chars) == WordKind::Readable
}

/// A decimal float of forty digits.  Every value is one that the float
/// library has produced: a parsed text, or the result of an operation.
#[derive(Clone, Copy, Debug)]
pub struct Float {
    value: BigFloat,
}

impl View for Float {
    type V = BigFloat;

    closed spec fn view(&self) -> BigFloat {
        self.value
    }
}

impl DeepView for Float {
    type V = BigFloat;

    open spec fn deep_view(&self) -> BigFloat {
        self@
    }
}

impl Float {
    #[verifier::type_invariant]
    spec fn produced(self) -> bool {
        float_valid(self.value)
    }

    /// The float that stands for a text that the float parser can be handed:
    /// what the parser makes of the text, or what it hands back in place of
    /// a float.
    fn from_text(text: &str) -> (r: Float)
        requires
            float_readable(text@),
        ensures
            r@ == float_of_text(text@),
    {
        match float_from_str(text) {
            Ok(f) => Float { value: f },
            Err(f) => Float { value: f },
        }
    }

    /// The float zero.
    pub fn zero() -> (r: Float)
        ensures
            r@ == float_zero(),
    {
        proof {
            reveal_strlit("0");
            lemma_zero_text_readable();
            assert("0"@ == zero_text());
        }
        Float::from_text("0")
    }

    /// Reads a float word.  Its value is what the float parser makes of it,
    /// or zero where its negative exponent is too long for any other float.
    /// A text that is no float word, or too long to be read, is no float.
    pub fn parse(text: &str) -> (r: Option<Float>)
        ensures
            r.deep_view() == float_literal(text@),
    {
        let chars = chars_of(text);
        match kind_of_word(&chars) {
            WordKind::Readable => Some(Float::from_text(text)),
            WordKind::Underflow => Some(Float::zero()),
            WordKind::TooLong => None,
            WordKind::NoFloat => None,
        }
    }

    /// Whether the product of the two floats is within the reach of
    /// multiplication.
    pub fn product_is_in_reach(&self, rhs: &Float) -> (r: bool)
        ensures
            r == product_in_reach(self@, rhs@),
    {
        let digits_a = float_get_mantissa_len(&self.value);
        let digits_b = float_get_mantissa_len(&rhs.value);
        if digits_a == 0 || digits_b == 0 {
            return true;
        }
        let e_a: i32 = float_get_exponent(&self.value) as i32;
        let e_b: i32 = float_get_exponent(&rhs.value) as i32;
        let exponent: i32 = e_a + e_b;
        if exponent >= MIN_EXPONENT || exponent <= VANISHING_EXPONENT {
            return true;
        }
        if digits_a >= 64 || digits_b >= 64 {
            return true;
        }
        let digits: i32 = digits_a as i32 + digits_b as i32;
        digits - 1 + exponent - MIN_EXPONENT >= 0
    }

    /// The float as the float library holds it.
    pub fn get(&self) -> (r: BigFloat)
        ensures
            r == self@,
    {
        self.value
    }

    /// The sum of two floats.
    pub fn add(&self, rhs: &Float) -> (r: Float)
        ensures
            r@ == float_sum(self@, rhs@),
    {
        proof {
            use_type_invariant(self);
            use_type_invariant(rhs);
        }
        Float { value: float_add(&self.value, &rhs.value) }
    }

    /// The difference of two floats.
    pub fn sub(&self, rhs: &Float) -> (r: Float)
        ensures
            r@ == float_difference(self@, rhs@),
    {
        proof {
            use_type_invariant(self);
            use_type_invariant(rhs);
        }
        Float { value: float_sub(&self.value, &rhs.value) }
    }

    /// The product of two floats: what multiplication makes of them, or zero
    /// where the product is too small to keep a digit.
    pub fn mul(&self, rhs: &Float) -> (r: Float)
        ensures
            r@ == float_times(self@, rhs@),
    {
        if !self.product_is_in_reach(rhs) {
            return Float::zero();
        }
        proof {
            use_type_invariant(self);
            use_type_invariant(rhs);
        }
        Float { value: float_mul(&self.value, &rhs.value) }
    }

    /// The text of the float, in the float library's own decimal form.
    pub fn to_text(&self) -> (r: String)
        ensures
            r@ == float_text(self@),
    {
        proof {
            use_type_invariant(self);
        }
        float_to_string(&self.value)
    }
}

impl PartialEq for Float {
    /// Whether the float library takes the two floats for equal.
    fn eq(&self, other: &Self) -> (r: bool) {
        proof {
            use_type_invariant(self);
            use_type_invariant(other);
        }
        float_eq(&self.value, &other.value)
    }
}

impl vstd::std_specs::cmp::PartialEqSpecImpl for Float {
    open spec fn obeys_eq_spec() -> bool {
        true
    }

    open spec fn eq_spec(&self, other: &Self) -> bool {
        float_equal(self@, other@)
    }
}

/// An integer or a float.  Arithmetic stays with integers as long as both
/// operands are integers.
#[derive(Debug)]
pub enum Number {
    Int(BigInt),
    Float(Float),
}

impl View for Number {
    type V = NumberView;

    open spec fn view(&self) -> NumberView {
        match self {
            Number::Int(i) => NumberView::Int(int_value(*i)),
            Number::Float(f) => NumberView::Float(f@),
        }
    }
}

impl DeepView for Number {
    type V = NumberView;

    open spec fn deep_view(&self) -> NumberView {
        self@
    }
}

impl Clone for Number {
    fn clone(&self) -> (r: Self)
        ensures
            r@ == self@,
    {
        match self {
            Number::Int(i) => Number::Int(int_clone(i)),
            Number::Float(f) => Number::Float(*f),
        }
    }
}

impl Number {
    /// Reads a numeric literal: an integer literal first, a float otherwise.
    pub fn parse(word: &str) -> (r: Option<Number>)
        ensures
            r.deep_view() == number_literal(word@),
    {
        match int_from_str(word) {
            Ok(i) => Some(Number::Int(i)),
            Err(_) => match Float::parse(word) {
                Some(f) => Some(Number::Float(f)),
                None => None,
            },
        }
    }

    /// The float that takes part in a float operation in place of this number.
    pub fn to_float(&self) -> (r: Float)
        ensures
            r@ == self@.as_float(),
    {
        match self {
            Number::Int(i) => {
                let text = int_to_string(i);
                proof {
                    lemma_decimal_text_readable(int_value(*i));
                }
                Float::from_text(text.as_str())
            },
            Number::Float(f) => *f,
        }
    }

    /// The sum of two numbers.
    pub fn add(self, rhs: Number) -> (r: Number)
        ensures
            r@ == self@.plus(rhs@),
    {
        match (&self, &rhs) {
            (Number::Int(a), Number::Int(b)) => Number::Int(int_add(a, b)),
            _ => Number::Float(self.to_float().add(&rhs.to_float())),
        }
    }

    /// The difference of two numbers.
    pub fn sub(self, rhs: Number) -> (r: Number)
        ensures
            r@ == self@.minus(rhs@),
    {
        match (&self, &rhs) {
            (Number::Int(a), Number::Int(b)) => Number::Int(int_sub(a, b)),
            _ => Number::Float(self.to_float().sub(&rhs.to_float())),
        }
    }

    /// The product of two numbers.
    pub fn mul(self, rhs: Number) -> (r: Number)
        ensures
            r@ == self@.times(rhs@),
    {
        match (&self, &rhs) {
            (Number::Int(a), Number::Int(b)) => Number::Int(int_mul(a, b)),
            _ => Number::Float(self.to_float().mul(&rhs.to_float())),
        }
    }

    /// The display text of the number.
    pub fn to_text(&self) -> (r: String)
        ensures
            r@ == self@.text(),
    {
        match self {
            Number::Int(i) => int_to_string(i),
            Number::Float(f) => f.to_text(),
        }
    }
}

impl PartialEq for Number {
    /// Whether two numbers are equal: same variant and equal values.
    fn eq(&self, other: &Self) -> (r: bool) {
        match (self, other) {
            (Number::Int(a), Number::Int(b)) => int_eq(a, b),
            (Number::Float(a), Number::Float(b)) => *a == *b,
            _ => false,
        }
    }
}

impl vstd::std_specs::cmp::PartialEqSpecImpl for Number {
    open spec fn obeys_eq_spec() -> bool {
        true
    }

    open spec fn eq_spec(&self, other: &Self) -> bool {
        self@.same(other@)
    }
}

} // verus!
