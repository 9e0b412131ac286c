//! Single-precision numbers as bit patterns, with the IEEE-754 order.

use vstd::prelude::*;

verus! {

/// The sign bit of a single-precision pattern.
pub const SIGN_BIT: u32 = 0x8000_0000;

/// The pattern of positive infinity: all exponent bits set, no fraction bit.
pub const INFINITY_BITS: u32 = 0x7f80_0000;

/// The pattern of `1.0`.
pub const ONE_BITS: u32 = 0x3f80_0000;

/// A single-precision IEEE-754 number, held as its 32-bit pattern.
///
/// Two scalars are `==` when their patterns are the same.  That is finer than
/// the numeric order below: the two zeros differ as patterns and are equal as
/// numbers, and a NaN is the same pattern as itself but unordered with
/// everything.
#[derive(Clone, Copy, Debug, PartialEq, Eq, Structural)]
pub struct Scalar {
    pub bits: u32,
}

impl Scalar {
    /// The pattern without its sign bit.
    pub open spec fn magnitude(self) -> int {
        if self.bits >= SIGN_BIT {
            self.bits - SIGN_BIT
        } else {
            self.bits as int
        }
    }

    /// Whether the sign bit is set (true of `-0.0` and of some NaNs too).
    pub open spec fn sign_negative(self) -> bool {
        self.bits >= SIGN_BIT
    }

    /// Whether the pattern is a NaN: exponent all ones and a fraction bit set.
    pub open spec fn nan(self) -> bool {
        self.magnitude() > INFINITY_BITS
    }

    /// Whether the pattern is one of the two zeros.
    pub open spec fn zero(self) -> bool {
        self.magnitude() == 0
    }

    /// The place of a number on the number line.  For patterns that are not
    /// NaN, a smaller rank is a smaller number, and the two zeros share rank 0.
    pub open spec fn rank(self) -> int {
        if self.sign_negative() {
            -self.magnitude()
        } else {
            self.magnitude()
        }
    }

    /// `self < other` as IEEE-754 has it: false whenever a NaN takes part.
    pub open spec fn less(self, other: Scalar) -> bool {
        !self.nan() && !other.nan() && self.rank() < other.rank()
    }

    /// `self > other`.
    pub open spec fn greater(self, other: Scalar) -> bool {
        other.less(self)
    }

    /// `self <= other`: false whenever a NaN takes part.
    pub open spec fn at_most(self, other: Scalar) -> bool {
        !self.nan() && !other.nan() && self.rank() <= other.rank()
    }

    /// `self >= other`.
    pub open spec fn at_least(self, other: Scalar) -> bool {
        other.at_most(self)
    }

    /// Numeric equality: the two zeros are equal, a NaN equals nothing.
    pub open spec fn same_number(self, other: Scalar) -> bool {
        !self.nan() && !other.nan() && self.rank() == other.rank()
    }

    /// The number with the opposite sign: the same pattern with the sign bit
    /// flipped.
    pub open spec fn negated(self) -> Scalar {
        if self.bits >= SIGN_BIT {
            Scalar { bits: (self.bits - SIGN_BIT) as u32 }
        } else {
            Scalar { bits: (self.bits + SIGN_BIT) as u32 }
        }
    }

    /// The smaller of two numbers.  A NaN loses against a number; of two equal
    /// numbers the first is taken.
    pub open spec fn smaller(self, other: Scalar) -> Scalar {
        if self.nan() {
            other
        } else if other.less(self) {
            other
        } else {
            self
        }
    }

    /// The larger of two numbers.  A NaN loses against a number; of two equal
    /// numbers the first is taken.
    pub open spec fn larger(self, other: Scalar) -> Scalar {
        if self.nan() {
            other
        } else if self.less(other) {
            other
        } else {
            self
        }
    }

    pub fn from_bits(bits: u32) -> (s: Scalar)
        ensures
            s.bits == bits,
    {
        Scalar { bits }
    }

    pub fn to_bits(self) -> (bits: u32)
        ensures
            bits == self.bits,
    {
        self.bits
    }

    /// Positive zero.
    pub fn zero_value() -> (s: Scalar)
        ensures
            s.bits == 0,
    {
        Scalar { bits: 0 }
    }

    /// The number one.
    pub fn one() -> (s: Scalar)
        ensures
            s.bits == ONE_BITS,
    {
        Scalar { bits: ONE_BITS }
    }

    /// Positive infinity.
    pub fn infinity() -> (s: Scalar)
        ensures
            s.bits == INFINITY_BITS,
    {
        Scalar { bits: INFINITY_BITS }
    }

    fn magnitude_bits(self) -> (m: u32)
        ensures
            m == self.magnitude(),
    {
        if self.bits >= SIGN_BIT {
            self.bits - SIGN_BIT
        } else {
            self.bits
        }
    }

    #[verifier::when_used_as_spec(sign_negative)]
    pub fn is_sign_negative(self) -> (r: bool)
        ensures
            r == self.sign_negative(),
    {
        self.bits >= SIGN_BIT
    }

    #[verifier::when_used_as_spec(nan)]
    pub fn is_nan(self) -> (r: bool)
        ensures
            r == self.nan(),
    {
        self.magnitude_bits() > INFINITY_BITS
    }

    #[verifier::when_used_as_spec(less)]
    pub fn lt(self, other: Scalar) -> (r: bool)
        ensures
            r == self.less(other),
    {
        if self.is_nan() || other.is_nan() {
            return false;
        }
        let a: u32 = self.magnitude_bits();
        let b: u32 = other.magnitude_bits();
        if self.is_sign_negative() {
            if other.is_sign_negative() {
                a > b
            } else {
                a > 0 || b > 0
            }
        } else {
            if other.is_sign_negative() {
                false
            } else {
                a < b
            }
        }
    }

    #[verifier::when_used_as_spec(greater)]
    pub fn gt(self, other: Scalar) -> (r: bool)
        ensures
            r == self.greater(other),
    {
        other.lt(self)
    }

    #[verifier::when_used_as_spec(at_most)]
    pub fn le(self, other: Scalar) -> (r: bool)
        ensures
            r == self.at_most(other),
    {
        if self.is_nan() || other.is_nan() {
            return false;
        }
        !other.lt(self)
    }

    #[verifier::when_used_as_spec(at_least)]
    pub fn ge(self, other: Scalar) -> (r: bool)
        ensures
            r == self.at_least(other),
    {
        other.le(self)
    }

    /// Numeric equality.
    #[verifier::when_used_as_spec(same_number)]
    pub fn equals(self, other: Scalar) -> (r: bool)
        ensures
            r == self.same_number(other),
    {
        self.le(other) && other.le(self)
    }

    #[verifier::when_used_as_spec(negated)]
    pub fn neg(self) -> (r: Scalar)
        ensures
            r == self.negated(),
    {
        if self.bits >= SIGN_BIT {
            Scalar { bits: self.bits - SIGN_BIT }
        } else {
            Scalar { bits: self.bits + SIGN_BIT }
        }
    }

    #[verifier::when_used_as_spec(smaller)]
    pub fn min(self, other: Scalar) -> (r: Scalar)
        ensures
            r == self.smaller(other),
    {
        if self.is_nan() {
            other
        } else if other.lt(self) {
            other
        } else {
            self
        }
    }

    #[verifier::when_used_as_spec(larger)]
    pub fn max(self, other: Scalar) -> (r: Scalar)
        ensures
            r == self.larger(other),
    {
        if self.is_nan() {
            other
        } else if self.lt(other) {
            other
        } else {
            self
        }
    }
}

} // verus!
