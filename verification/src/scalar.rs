//! Numbers as the engine sees them.
//!
//! Every distance, coordinate and measured quantity is an IEEE-754 binary64
//! number. The engine never does arithmetic on them: it compares them, negates
//! them and picks the larger or the smaller of two. All of that is decided by
//! the bit pattern alone, so a number is held here as its 64 bits and the
//! comparisons are integer logic.
use vstd::prelude::*;

verus! {

/// The sign bit of a binary64 bit pattern.
pub const SIGN_BIT: u64 = 0x8000_0000_0000_0000;

/// The bit pattern of positive infinity; every larger magnitude is not a number.
pub const INFINITY_BITS: u64 = 0x7FF0_0000_0000_0000;

/// The bit pattern of the quiet not-a-number that this module produces.
pub const NAN_BITS: u64 = 0x7FF8_0000_0000_0000;

/// The bit pattern of 1.
pub const ONE_BITS: u64 = 0x3FF0_0000_0000_0000;

/// The bit pattern of -1.
pub const NEG_ONE_BITS: u64 = 0xBFF0_0000_0000_0000;

/// The bit pattern of the machine epsilon, two to the power of -52.
pub const EPSILON_BITS: u64 = 0x3CB0_0000_0000_0000;

/// An IEEE-754 binary64 number, held by its bit pattern.
///
/// Two values are `==` when their bit patterns are the same. That is finer than
/// equality of numbers: the two zeros differ, and a not-a-number equals itself.
/// The numeric comparisons are `lt`, `le`, `gt`, `ge` and `same_number`.
#[derive(Clone, Copy, Debug, PartialEq, Eq, Structural)]
pub struct Scalar {
    pub bits: u64,
}

impl Scalar {
    /// The pattern without its sign bit.
    pub open spec fn magnitude(self) -> int {
        if self.bits >= SIGN_BIT {
            self.bits - SIGN_BIT
        } else {
            self.bits as int
        }
    }

    /// Whether the sign bit is set.
    pub open spec fn sign(self) -> bool {
        self.bits >= SIGN_BIT
    }

    /// Whether the pattern stands for no number.
    pub open spec fn nan(self) -> bool {
        self.magnitude() > INFINITY_BITS
    }

    /// Whether the pattern stands for a number other than the two infinities.
    pub open spec fn finite(self) -> bool {
        self.magnitude() < INFINITY_BITS
    }

    /// The place of a number in the order of all numbers: the magnitude, taken
    /// negative under a sign bit. The two zeros share the place 0.
    pub open spec fn rank(self) -> int {
        if self.sign() {
            -self.magnitude()
        } else {
            self.magnitude()
        }
    }

    /// `self < other` as IEEE-754 has it: false as soon as one side is no number.
    pub open spec fn less(self, other: Scalar) -> bool {
        !self.nan() && !other.nan() && self.rank() < other.rank()
    }

    /// `self <= other` as IEEE-754 has it.
    pub open spec fn at_most(self, other: Scalar) -> bool {
        !self.nan() && !other.nan() && self.rank() <= other.rank()
    }

    /// `self == other` as IEEE-754 has it: the same number, whatever the sign of a zero.
    pub open spec fn equals(self, other: Scalar) -> bool {
        !self.nan() && !other.nan() && self.rank() == other.rank()
    }

    /// `self >= 0`.
    pub open spec fn non_negative(self) -> bool {
        !self.nan() && self.rank() >= 0
    }

    /// The pattern with its sign bit flipped.
    pub open spec fn negated(self) -> Scalar {
        if self.bits >= SIGN_BIT {
            Scalar { bits: (self.bits - SIGN_BIT) as u64 }
        } else {
            Scalar { bits: (self.bits + SIGN_BIT) as u64 }
        }
    }

    /// The pattern with its sign bit cleared.
    pub open spec fn absolute(self) -> Scalar {
        Scalar { bits: self.magnitude() as u64 }
    }

    /// The larger of two, where a side that is no number gives way to the
    /// other; of two equal numbers the first.
    pub open spec fn larger(self, other: Scalar) -> Scalar {
        if self.nan() {
            other
        } else if other.nan() {
            self
        } else if self.rank() < other.rank() {
            other
        } else {
            self
        }
    }

    /// The smaller of two, where a side that is no number gives way to the
    /// other; of two equal numbers the first.
    pub open spec fn smaller(self, other: Scalar) -> Scalar {
        if self.nan() {
            other
        } else if other.nan() {
            self
        } else if other.rank() < self.rank() {
            other
        } else {
            self
        }
    }

    /// The product with positive infinity: an infinity of the number's own
    /// sign, and no number at all for a zero or for what is no number.
    pub open spec fn by_infinity(self) -> Scalar {
        if self.nan() || self.magnitude() == 0 {
            Scalar { bits: NAN_BITS }
        } else if self.sign() {
            Scalar { bits: (SIGN_BIT + INFINITY_BITS) as u64 }
        } else {
            Scalar { bits: INFINITY_BITS }
        }
    }

    /// The pattern in its one form: a number stays as it is, and whatever is
    /// no number becomes the one pattern `NAN_BITS`. Which of its many
    /// patterns a not-a-number has is left open by the arithmetic that made
    /// it, and matters to no comparison.
    pub open spec fn canonical(self) -> Scalar {
        if self.nan() {
            Scalar { bits: NAN_BITS }
        } else {
            self
        }
    }

    /// The number 0.
    pub open spec fn zero() -> Scalar {
        Scalar { bits: 0 }
    }

    /// The number 1.
    pub open spec fn one() -> Scalar {
        Scalar { bits: ONE_BITS }
    }

    /// The machine epsilon.
    pub open spec fn epsilon() -> Scalar {
        Scalar { bits: EPSILON_BITS }
    }

    /// The number with the given bit pattern.
    pub fn from_bits(bits: u64) -> (s: Scalar)
        ensures
            s.bits == bits,
    {
        Scalar { bits }
    }

    /// The bit pattern of the number.
    pub fn to_bits(&self) -> (bits: u64)
        ensures
            bits == self.bits,
    {
        self.bits
    }

    fn magnitude_bits(&self) -> (m: u64)
        ensures
            m == self.magnitude(),
    {
        if self.bits >= SIGN_BIT {
            self.bits - SIGN_BIT
        } else {
            self.bits
        }
    }

    /// Whether this is no number.
    pub fn is_nan(&self) -> (b: bool)
        ensures
            b == self.nan(),
    {
        self.magnitude_bits() > INFINITY_BITS
    }

    /// The pattern in its one form.
    pub fn canonicalized(&self) -> (r: Scalar)
        ensures
            r == self.canonical(),
    {
        if self.is_nan() {
            Scalar { bits: NAN_BITS }
        } else {
            *self
        }
    }

    /// Whether this is a number other than an infinity.
    pub fn is_finite(&self) -> (b: bool)
        ensures
            b == self.finite(),
    {
        self.magnitude_bits() < INFINITY_BITS
    }

    /// Whether `self < other`.
    pub fn lt(&self, other: &Scalar) -> (b: bool)
        ensures
            b == self.less(*other),
    {
        if self.is_nan() || other.is_nan() {
            return false;
        }
        let a: u64 = self.magnitude_bits();
        let c: u64 = other.magnitude_bits();
        if self.bits >= SIGN_BIT {
            if other.bits >= SIGN_BIT {
                c < a
            } else {
                a > 0 || c > 0
            }
        } else {
            if other.bits >= SIGN_BIT {
                false
            } else {
                a < c
            }
        }
    }

    /// Whether `self <= other`.
    pub fn le(&self, other: &Scalar) -> (b: bool)
        ensures
            b == self.at_most(*other),
    {
        if self.is_nan() || other.is_nan() {
            return false;
        }
        !other.lt(self)
    }

    /// Whether `self > other`.
    pub fn gt(&self, other: &Scalar) -> (b: bool)
        ensures
            b == other.less(*self),
    {
        other.lt(self)
    }

    /// Whether `self >= other`.
    pub fn ge(&self, other: &Scalar) -> (b: bool)
        ensures
            b == other.at_most(*self),
    {
        other.le(self)
    }

    /// Whether both are the same number.
    pub fn same_number(&self, other: &Scalar) -> (b: bool)
        ensures
            b == self.equals(*other),
    {
        self.le(other) && other.le(self)
    }

    /// Whether `self >= 0`.
    pub fn is_non_negative(&self) -> (b: bool)
        ensures
            b == self.non_negative(),
    {
        if self.is_nan() {
            return false;
        }
        self.bits < SIGN_BIT || self.bits == SIGN_BIT
    }

    /// The number with the opposite sign.
    pub fn neg(&self) -> (r: Scalar)
        ensures
            r == self.negated(),
    {
        if self.bits >= SIGN_BIT {
            Scalar { bits: self.bits - SIGN_BIT }
        } else {
            Scalar { bits: self.bits + SIGN_BIT }
        }
    }

    /// The number without its sign.
    pub fn abs(&self) -> (r: Scalar)
        ensures
            r == self.absolute(),
    {
        Scalar { bits: self.magnitude_bits() }
    }

    /// The larger of the two.
    pub fn max(&self, other: &Scalar) -> (r: Scalar)
        ensures
            r == self.larger(*other),
    {
        if self.is_nan() {
            *other
        } else if other.is_nan() {
            *self
        } else if self.lt(other) {
            *other
        } else {
            *self
        }
    }

    /// The smaller of the two.
    pub fn min(&self, other: &Scalar) -> (r: Scalar)
        ensures
            r == self.smaller(*other),
    {
        if self.is_nan() {
            *other
        } else if other.is_nan() {
            *self
        } else if other.lt(self) {
            *other
        } else {
            *self
        }
    }

    /// The product with positive infinity.
    pub fn times_infinity(&self) -> (r: Scalar)
        ensures
            r == self.by_infinity(),
    {
        let m: u64 = self.magnitude_bits();
        if m > INFINITY_BITS || m == 0 {
            Scalar { bits: NAN_BITS }
        } else if self.bits >= SIGN_BIT {
            Scalar { bits: SIGN_BIT + INFINITY_BITS }
        } else {
            Scalar { bits: INFINITY_BITS }
        }
    }
}

} // verus!
