//! Numbers of the language: IEEE 754 binary64 values, held as their 64 bits.
//!
//! Ordering, equality and negation are defined on the bits. Arithmetic and the
//! conversions from and to text are not part of this module.

use vstd::prelude::*;

verus! {

/// The sign bit of a binary64 value.
pub const SIGN_BIT: u64 = 0x8000_0000_0000_0000;

/// The bits of positive infinity: the exponent all ones, the fraction zero.
pub const INFINITY_BITS: u64 = 0x7ff0_0000_0000_0000;

/// A binary64 value, by its bits.
#[derive(Clone, Copy, Debug)]
pub struct Number {
    pub bits: u64,
}

impl Number {
    /// The bits without the sign.
    pub open spec fn magnitude(self) -> u64 {
        self.bits & !SIGN_BIT
    }

    /// Whether the sign bit is set.
    pub open spec fn is_negative(self) -> bool {
        self.bits & SIGN_BIT != 0
    }

    /// Not a number: the exponent is all ones and the fraction is not zero.
    pub open spec fn is_nan(self) -> bool {
        self.magnitude() > INFINITY_BITS
    }

    /// Where the value stands on the number line, for a value that is not NaN:
    /// among values of one sign the magnitudes order as the values do, and
    /// both zeros stand at 0.
    pub open spec fn rank(self) -> int {
        if self.is_negative() {
            -(self.magnitude() as int)
        } else {
            self.magnitude() as int
        }
    }

    /// `self < other` as IEEE 754 orders them: false when either is NaN.
    pub open spec fn less(self, other: Number) -> bool {
        !self.is_nan() && !other.is_nan() && self.rank() < other.rank()
    }

    /// `self == other` as IEEE 754 has it: false when either is NaN, true of
    /// the two zeros.
    pub open spec fn same(self, other: Number) -> bool {
        !self.is_nan() && !other.is_nan() && self.rank() == other.rank()
    }

    /// `self <= other`: less or equal, so false when either is NaN.
    pub open spec fn at_most(self, other: Number) -> bool {
        self.less(other) || self.same(other)
    }

    /// The value with its sign flipped.
    pub open spec fn negated(self) -> Number {
        Number { bits: self.bits ^ SIGN_BIT }
    }

    /// The number with these bits.
    pub fn from_bits(bits: u64) -> (n: Number)
        ensures
            n.bits == bits,
    {
        Number { bits }
    }

    /// The bits of the number.
    pub fn to_bits(self) -> (bits: u64)
        ensures
            bits == self.bits,
    {
        self.bits
    }

    fn magnitude_bits(self) -> (m: u64)
        ensures
            m == self.magnitude(),
    {
        self.bits & !SIGN_BIT
    }

    fn sign_is_set(self) -> (b: bool)
        ensures
            b == self.is_negative(),
    {
        self.bits & SIGN_BIT != 0
    }

    /// Whether the number is a NaN.
    pub fn nan(self) -> (b: bool)
        ensures
            b == self.is_nan(),
    {
        self.magnitude_bits() > INFINITY_BITS
    }

    /// `self < other`.
    pub fn lt(self, other: Number) -> (b: bool)
        ensures
            b == self.less(other),
    {
        if self.nan() || other.nan() {
            return false;
        }
        let a: u64 = self.magnitude_bits();
        let b: u64 = other.magnitude_bits();
        if self.sign_is_set() {
            if other.sign_is_set() {
                b < a
            } else {
                a != 0 || b != 0
            }
        } else {
            if other.sign_is_set() {
                false
            } else {
                a < b
            }
        }
    }

    /// `self == other`.
    pub fn equals(self, other: Number) -> (b: bool)
        ensures
            b == self.same(other),
    {
        if self.nan() || other.nan() {
            return false;
        }
        let a: u64 = self.magnitude_bits();
        let b: u64 = other.magnitude_bits();
        if self.sign_is_set() == other.sign_is_set() {
            a == b
        } else {
            a == 0 && b == 0
        }
    }

    /// `self <= other`.
    pub fn le(self, other: Number) -> (b: bool)
        ensures
            b == self.at_most(other),
    {
        self.lt(other) || self.equals(other)
    }

    /// `self > other`.
    pub fn gt(self, other: Number) -> (b: bool)
        ensures
            b == other.less(self),
    {
        other.lt(self)
    }

    /// `self >= other`.
    pub fn ge(self, other: Number) -> (b: bool)
        ensures
            b == other.at_most(self),
    {
        other.le(self)
    }

    /// `-self`.
    pub fn neg(self) -> (n: Number)
        ensures
            n == self.negated(),
    {
        Number { bits: self.bits ^ SIGN_BIT }
    }
}

/// `==` on numbers is IEEE 754 equality: a NaN equals nothing, itself
/// included, and the two zeros are equal.
impl PartialEq for Number {
    fn eq(&self, other: &Number) -> (b: bool) {
        self.equals(*other)
    }
}

impl vstd::std_specs::cmp::PartialEqSpecImpl for Number {
    open spec fn obeys_eq_spec() -> bool {
        true
    }

    open spec fn eq_spec(&self, other: &Number) -> bool {
        self.same(*other)
    }
}

/// Negation flips the sign and keeps the magnitude, so negating twice gives
/// the value back, and a NaN stays a NaN.
pub proof fn lemma_negation(n: Number)
    ensures
        n.negated().negated() == n,
        n.negated().magnitude() == n.magnitude(),
        n.negated().is_negative() == !n.is_negative(),
        n.negated().is_nan() == n.is_nan(),
{
    let b = n.bits;
    assert((b ^ SIGN_BIT) ^ SIGN_BIT == b) by (bit_vector);
    assert((b ^ SIGN_BIT) & !SIGN_BIT == b & !SIGN_BIT) by (bit_vector);
    assert(((b ^ SIGN_BIT) & SIGN_BIT != 0) == !(b & SIGN_BIT != 0)) by (bit_vector);
}

/// Of two numbers that are not NaN exactly one of less, equal and greater
/// holds; of a NaN none does.
pub proof fn lemma_trichotomy(a: Number, b: Number)
    ensures
        !a.is_nan() && !b.is_nan() ==> (a.less(b) && !a.same(b) && !b.less(a)) || (!a.less(b)
            && a.same(b) && !b.less(a)) || (!a.less(b) && !a.same(b) && b.less(a)),
        a.is_nan() || b.is_nan() ==> !a.less(b) && !a.same(b) && !b.less(a),
{
}

} // verus!
