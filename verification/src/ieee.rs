//! Floating-point numbers as bit patterns.
//!
//! Comparison, classification and the sign modifiers of the vector ALU need no
//! rounding: they are decided by the sign bit and by the magnitude, the
//! remaining bits read as an unsigned number. This module computes them on
//! the patterns.
use vstd::prelude::*;

verus! {

/// The three binary interchange formats that the instruction set uses.
#[derive(Clone, Copy, Debug, PartialEq, Eq, Structural)]
pub enum Format {
    Half,
    Single,
    Double,
}

impl Format {
    /// The pattern with only the sign bit set.
    pub open spec fn sign(self) -> u64 {
        match self {
            Format::Half => 0x8000,
            Format::Single => 0x8000_0000,
            Format::Double => 0x8000_0000_0000_0000,
        }
    }

    /// The pattern of positive infinity: the largest magnitude that is no NaN.
    pub open spec fn infinity(self) -> u64 {
        match self {
            Format::Half => 0x7c00,
            Format::Single => 0x7f80_0000,
            Format::Double => 0x7ff0_0000_0000_0000,
        }
    }

    /// The pattern of the smallest positive normal number.
    pub open spec fn least_normal(self) -> u64 {
        match self {
            Format::Half => 0x0400,
            Format::Single => 0x0080_0000,
            Format::Double => 0x0010_0000_0000_0000,
        }
    }

    /// The pattern with only the sign bit set.
    pub fn sign_pattern(self) -> (r: u64)
        ensures
            r == self.sign(),
    {
        match self {
            Format::Half => 0x8000,
            Format::Single => 0x8000_0000,
            Format::Double => 0x8000_0000_0000_0000,
        }
    }

    /// The pattern of positive infinity.
    pub fn infinity_pattern(self) -> (r: u64)
        ensures
            r == self.infinity(),
    {
        match self {
            Format::Half => 0x7c00,
            Format::Single => 0x7f80_0000,
            Format::Double => 0x7ff0_0000_0000_0000,
        }
    }

    /// The pattern of the smallest positive normal number.
    pub fn least_normal_pattern(self) -> (r: u64)
        ensures
            r == self.least_normal(),
    {
        match self {
            Format::Half => 0x0400,
            Format::Single => 0x0080_0000,
            Format::Double => 0x0010_0000_0000_0000,
        }
    }
}

/// The pattern without its sign bit.
pub open spec fn magnitude(fmt: Format, x: u64) -> u64 {
    x % fmt.sign()
}

/// Whether the sign bit is set.
pub open spec fn is_negative(fmt: Format, x: u64) -> bool {
    (x / fmt.sign()) % 2 == 1
}

/// Whether the pattern is a NaN, whatever its payload and sign.
pub open spec fn is_nan(fmt: Format, x: u64) -> bool {
    magnitude(fmt, x) > fmt.infinity()
}

/// A number that orders the patterns which are no NaN as their values are
/// ordered; both zeros have the key 0.
pub open spec fn order_key(fmt: Format, x: u64) -> int {
    if is_negative(fmt, x) {
        -(magnitude(fmt, x) as int)
    } else {
        magnitude(fmt, x) as int
    }
}

/// `a < b`; false when either is a NaN.
pub open spec fn less(fmt: Format, a: u64, b: u64) -> bool {
    !is_nan(fmt, a) && !is_nan(fmt, b) && order_key(fmt, a) < order_key(fmt, b)
}

/// `a == b`; false when either is a NaN, true for zeros of either sign.
pub open spec fn same(fmt: Format, a: u64, b: u64) -> bool {
    !is_nan(fmt, a) && !is_nan(fmt, b) && order_key(fmt, a) == order_key(fmt, b)
}

/// The pattern with its sign flipped; a zero keeps its sign.
pub open spec fn negated(fmt: Format, x: u64) -> u64 {
    if magnitude(fmt, x) == 0 {
        x
    } else if is_negative(fmt, x) {
        (x - fmt.sign()) as u64
    } else {
        (x + fmt.sign()) as u64
    }
}

/// The pattern with its sign cleared.
pub open spec fn absolute(fmt: Format, x: u64) -> u64 {
    if is_negative(fmt, x) {
        (x - fmt.sign()) as u64
    } else {
        x
    }
}

/// Whether bit `pos` of a three-bit modifier field is set.
pub open spec fn selects(modifier: u64, pos: u64) -> bool {
    if pos == 0 {
        modifier % 2 == 1
    } else if pos == 1 {
        (modifier / 2) % 2 == 1
    } else {
        (modifier / 4) % 2 == 1
    }
}

/// Source `pos` of an instruction after its `neg` and `abs` modifiers: the
/// negation is applied first.
pub open spec fn modified(fmt: Format, x: u64, pos: u64, neg: u64, abs: u64) -> u64 {
    let n = if selects(neg, pos) {
        negated(fmt, x)
    } else {
        x
    };
    if selects(abs, pos) {
        absolute(fmt, n)
    } else {
        n
    }
}

/// Whether a pattern is a NaN.
pub fn nan(fmt: Format, x: u64) -> (r: bool)
    ensures
        r == is_nan(fmt, x),
{
    x % fmt.sign_pattern() > fmt.infinity_pattern()
}

/// Whether the sign bit of a pattern is set.
pub fn negative(fmt: Format, x: u64) -> (r: bool)
    ensures
        r == is_negative(fmt, x),
        r ==> x >= fmt.sign(),
        !r ==> x + fmt.sign() <= u64::MAX,
{
    match fmt {
        Format::Half => (x / 0x8000) % 2 == 1,
        Format::Single => (x / 0x8000_0000) % 2 == 1,
        Format::Double => (x / 0x8000_0000_0000_0000) % 2 == 1,
    }
}

fn key(fmt: Format, x: u64) -> (r: i64)
    ensures
        r == order_key(fmt, x),
{
    let m: u64 = x % fmt.sign_pattern();
    if negative(fmt, x) {
        -(m as i64)
    } else {
        m as i64
    }
}

/// Decides `a < b` on the patterns.
pub fn lt(fmt: Format, a: u64, b: u64) -> (r: bool)
    ensures
        r == less(fmt, a, b),
{
    !nan(fmt, a) && !nan(fmt, b) && key(fmt, a) < key(fmt, b)
}

/// Decides `a == b` on the patterns.
pub fn eq(fmt: Format, a: u64, b: u64) -> (r: bool)
    ensures
        r == same(fmt, a, b),
{
    !nan(fmt, a) && !nan(fmt, b) && key(fmt, a) == key(fmt, b)
}

/// Flips the sign of a pattern that is no zero.
pub fn negate(fmt: Format, x: u64) -> (r: u64)
    ensures
        r == negated(fmt, x),
        x / 2 < fmt.sign() ==> r / 2 < fmt.sign(),
{
    let s: u64 = fmt.sign_pattern();
    if x % s == 0 {
        x
    } else if negative(fmt, x) {
        x - s
    } else {
        x + s
    }
}

/// Clears the sign of a pattern.
pub fn abs(fmt: Format, x: u64) -> (r: u64)
    ensures
        r == absolute(fmt, x),
        x / 2 < fmt.sign() ==> r / 2 < fmt.sign(),
{
    if negative(fmt, x) {
        x - fmt.sign_pattern()
    } else {
        x
    }
}

/// Whether a modifier field selects source `pos`.
pub fn selected(modifier: u64, pos: u64) -> (r: bool)
    ensures
        r == selects(modifier, pos),
{
    if pos == 0 {
        modifier % 2 == 1
    } else if pos == 1 {
        (modifier / 2) % 2 == 1
    } else {
        (modifier / 4) % 2 == 1
    }
}

/// Applies the `neg` and `abs` modifiers to source `pos`.
pub fn modify(fmt: Format, x: u64, pos: u64, neg: u64, abs_bits: u64) -> (r: u64)
    ensures
        r == modified(fmt, x, pos, neg, abs_bits),
        x / 2 < fmt.sign() ==> r / 2 < fmt.sign(),
{
    let n: u64 = if selected(neg, pos) {
        negate(fmt, x)
    } else {
        x
    };
    if selected(abs_bits, pos) {
        abs(fmt, n)
    } else {
        n
    }
}

/// Of two patterns that are no NaN exactly one of `a < b`, `a == b` and
/// `b < a` holds; a NaN is neither less than, equal to nor greater than
/// anything, itself included.
pub proof fn lemma_order_trichotomy(fmt: Format, a: u64, b: u64)
    ensures
        !is_nan(fmt, a) && !is_nan(fmt, b) ==> (less(fmt, a, b) || same(fmt, a, b) || less(
            fmt,
            b,
            a,
        )),
        !(less(fmt, a, b) && same(fmt, a, b)),
        !(less(fmt, a, b) && less(fmt, b, a)),
        same(fmt, a, b) == same(fmt, b, a),
        is_nan(fmt, a) || is_nan(fmt, b) ==> !less(fmt, a, b) && !same(fmt, a, b) && !less(
            fmt,
            b,
            a,
        ),
{
}

/// Negation mirrors the order and undoes itself, and the absolute value has
/// no sign: for a pattern of the format's width, negating twice gives the
/// pattern back, the key of the negated pattern is the negated key, and the
/// key of the absolute value is the magnitude.
pub proof fn lemma_sign_modifiers(fmt: Format, x: u64)
    requires
        x / 2 < fmt.sign(),
    ensures
        negated(fmt, negated(fmt, x)) == x,
        order_key(fmt, negated(fmt, x)) == -order_key(fmt, x),
        is_nan(fmt, negated(fmt, x)) == is_nan(fmt, x),
        order_key(fmt, absolute(fmt, x)) == magnitude(fmt, x),
        absolute(fmt, absolute(fmt, x)) == absolute(fmt, x),
{
}

/// The kinds of number that the classifying comparison tells apart.
#[derive(Clone, Copy, Debug, PartialEq, Eq, Structural)]
pub enum Class {
    NaN,
    NegativeInfinity,
    NegativeNormal,
    NegativeDenormal,
    NegativeZero,
    PositiveZero,
    PositiveDenormal,
    PositiveNormal,
    PositiveInfinity,
}

/// The kind of a pattern.
pub open spec fn class_of(fmt: Format, x: u64) -> Class {
    let m = magnitude(fmt, x);
    let n = is_negative(fmt, x);
    if m > fmt.infinity() {
        Class::NaN
    } else if m == fmt.infinity() {
        if n {
            Class::NegativeInfinity
        } else {
            Class::PositiveInfinity
        }
    } else if m >= fmt.least_normal() {
        if n {
            Class::NegativeNormal
        } else {
            Class::PositiveNormal
        }
    } else if m > 0 {
        if n {
            Class::NegativeDenormal
        } else {
            Class::PositiveDenormal
        }
    } else {
        if n {
            Class::NegativeZero
        } else {
            Class::PositiveZero
        }
    }
}

/// The bit of the mask operand that stands for a kind.
pub open spec fn class_bit(c: Class) -> u32 {
    match c {
        Class::NaN => 1,
        Class::NegativeInfinity => 2,
        Class::NegativeNormal => 3,
        Class::NegativeDenormal => 4,
        Class::NegativeZero => 5,
        Class::PositiveZero => 6,
        Class::PositiveDenormal => 7,
        Class::PositiveNormal => 8,
        Class::PositiveInfinity => 9,
    }
}

/// The kind of a pattern.
pub fn classify(fmt: Format, x: u64) -> (r: Class)
    ensures
        r == class_of(fmt, x),
{
    let m: u64 = x % fmt.sign_pattern();
    let n: bool = negative(fmt, x);
    if m > fmt.infinity_pattern() {
        Class::NaN
    } else if m == fmt.infinity_pattern() {
        if n {
            Class::NegativeInfinity
        } else {
            Class::PositiveInfinity
        }
    } else if m >= fmt.least_normal_pattern() {
        if n {
            Class::NegativeNormal
        } else {
            Class::PositiveNormal
        }
    } else if m > 0 {
        if n {
            Class::NegativeDenormal
        } else {
            Class::PositiveDenormal
        }
    } else {
        if n {
            Class::NegativeZero
        } else {
            Class::PositiveZero
        }
    }
}

/// The bit of the mask operand that stands for a kind.
pub fn class_position(c: Class) -> (r: u32)
    ensures
        r == class_bit(c),
        1 <= r <= 9,
{
    match c {
        Class::NaN => 1,
        Class::NegativeInfinity => 2,
        Class::NegativeNormal => 3,
        Class::NegativeDenormal => 4,
        Class::NegativeZero => 5,
        Class::PositiveZero => 6,
        Class::PositiveDenormal => 7,
        Class::PositiveNormal => 8,
        Class::PositiveInfinity => 9,
    }
}

/// Whether the mask has the bit of the pattern's kind set.
pub open spec fn in_classes(fmt: Format, x: u64, mask: u32) -> bool {
    (mask >> class_bit(class_of(fmt, x))) & 1 != 0
}

/// Whether the mask names the kind of a pattern.
pub fn matches_class(fmt: Format, x: u64, mask: u32) -> (r: bool)
    ensures
        r == in_classes(fmt, x, mask),
{
    let c = classify(fmt, x);
    ((mask >> class_position(c)) & 1) != 0
}

/// Two kinds never share a bit of the mask.
pub proof fn lemma_class_bits_distinct(c: Class, d: Class)
    ensures
        class_bit(c) == class_bit(d) <==> c == d,
        1 <= class_bit(c) <= 9,
{
}

/// Every NaN has the same kind, whatever its payload and its sign; so the
/// classifying comparison cannot tell two NaNs apart.
pub proof fn lemma_nan_class(fmt: Format, x: u64, y: u64, mask: u32)
    requires
        is_nan(fmt, x),
        is_nan(fmt, y),
    ensures
        class_of(fmt, x) == Class::NaN,
        in_classes(fmt, x, mask) == in_classes(fmt, y, mask),
{
}

} // verus!
