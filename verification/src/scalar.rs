use vstd::prelude::*;

verus! {

/// The sign bit of a binary64 pattern.
pub const SIGN_BIT: u64 = 0x8000_0000_0000_0000;

/// The pattern of positive infinity; every larger magnitude is a NaN.
pub const INFINITY_BITS: u64 = 0x7ff0_0000_0000_0000;

/// The pattern of `0.0`.
pub const ZERO_BITS: u64 = 0;

/// The pattern of `1.0`.
pub const ONE_BITS: u64 = 0x3ff0_0000_0000_0000;

/// A real number, held as the bit pattern of an IEEE 754 binary64 value.
///
/// Equality of two `Scalar`s is equality of their patterns. It is finer than
/// numeric equality: the two zeros differ, and a NaN equals itself.
#[derive(Clone, Copy, Debug, PartialEq, Eq, Structural)]
pub struct Scalar {
    pub bits: u64,
}

impl Scalar {
    /// The pattern without its sign bit.
    pub open spec fn magnitude(self) -> u64 {
        if self.bits >= SIGN_BIT {
            (self.bits - SIGN_BIT) as u64
        } else {
            self.bits
        }
    }

    /// Whether the sign bit is set (true of `-0.0` as well).
    pub open spec fn is_negative(self) -> bool {
        self.bits >= SIGN_BIT
    }

    /// Whether the pattern is a NaN.
    pub open spec fn is_nan_spec(&self) -> bool {
        self.magnitude() > INFINITY_BITS
    }

    /// Whether the value is numerically zero, with either sign.
    pub open spec fn is_zero_spec(&self) -> bool {
        self.magnitude() == 0
    }

    /// The place of the value on the number line: for patterns that are not NaN,
    /// `a` is numerically below `b` exactly when `a.rank() < b.rank()`, and both
    /// zeros have rank 0.
    pub open spec fn rank(self) -> int {
        if self.is_negative() {
            -(self.magnitude() as int)
        } else {
            self.magnitude() as int
        }
    }

    /// Numeric `<`: false as soon as either side is a NaN.
    pub open spec fn below(self, other: Scalar) -> bool {
        !self.is_nan() && !other.is_nan() && self.rank() < other.rank()
    }

    /// Numeric `==`: false as soon as either side is a NaN, true of the two
    /// zeros.
    pub open spec fn same_value(self, other: Scalar) -> bool {
        !self.is_nan() && !other.is_nan() && self.rank() == other.rank()
    }

    /// Numeric `<=`: false as soon as either side is a NaN.
    pub open spec fn at_most(self, other: Scalar) -> bool {
        !self.is_nan() && !other.is_nan() && self.rank() <= other.rank()
    }

    /// The value with its sign bit flipped.
    pub open spec fn negated(self) -> Scalar {
        if self.bits >= SIGN_BIT {
            Scalar { bits: (self.bits - SIGN_BIT) as u64 }
        } else {
            Scalar { bits: (self.bits + SIGN_BIT) as u64 }
        }
    }

    /// The smaller of two values; where one is a NaN, the other. Of two values
    /// that compare equal, `self`.
    pub open spec fn smaller(self, other: Scalar) -> Scalar {
        if self.is_nan() {
            other
        } else if other.below(self) {
            other
        } else {
            self
        }
    }

    /// The larger of two values; where one is a NaN, the other. Of two values
    /// that compare equal, `other`: `smaller` and `larger` together always
    /// hand back both values.
    pub open spec fn larger(self, other: Scalar) -> Scalar {
        if self.is_nan() {
            other
        } else if other.is_nan() || other.below(self) {
            self
        } else {
            other
        }
    }

    pub fn from_bits(bits: u64) -> (s: Scalar)
        ensures
            s.bits == bits,
    {
        Scalar { bits }
    }

    pub fn to_bits(&self) -> (bits: u64)
        ensures
            bits == self.bits,
    {
        self.bits
    }

    /// The value `0.0`.
    pub open spec fn zero_spec() -> Scalar {
        Scalar { bits: ZERO_BITS }
    }

    /// The value `1.0`.
    pub open spec fn one_spec() -> Scalar {
        Scalar { bits: ONE_BITS }
    }

    #[verifier::when_used_as_spec(zero_spec)]
    pub fn zero() -> (s: Scalar)
        ensures
            s == Scalar::zero_spec(),
    {
        Scalar { bits: ZERO_BITS }
    }

    #[verifier::when_used_as_spec(one_spec)]
    pub fn one() -> (s: Scalar)
        ensures
            s == Scalar::one_spec(),
    {
        Scalar { bits: ONE_BITS }
    }

    fn magnitude_bits(&self) -> (m: u64)
        ensures
            m == self.magnitude(),
            m < SIGN_BIT,
    {
        if self.bits >= SIGN_BIT {
            self.bits - SIGN_BIT
        } else {
            self.bits
        }
    }

    fn rank_value(&self) -> (r: i64)
        ensures
            r == self.rank(),
    {
        let m: u64 = self.magnitude_bits();
        if self.bits >= SIGN_BIT {
            -(m as i64)
        } else {
            m as i64
        }
    }

    /// Whether the pattern is a NaN.
    #[verifier::when_used_as_spec(is_nan_spec)]
    pub fn is_nan(&self) -> (r: bool)
        ensures
            r == self.is_nan(),
    {
        self.magnitude_bits() > INFINITY_BITS
    }

    /// Whether the value is numerically zero, with either sign.
    #[verifier::when_used_as_spec(is_zero_spec)]
    pub fn is_zero(&self) -> (r: bool)
        ensures
            r == self.is_zero(),
    {
        self.magnitude_bits() == 0
    }

    /// Numeric `<`.
    pub fn lt(&self, other: &Scalar) -> (r: bool)
        ensures
            r == self.below(*other),
    {
        !self.is_nan() && !other.is_nan() && self.rank_value() < other.rank_value()
    }

    /// Numeric `==`.
    pub fn equals(&self, other: &Scalar) -> (r: bool)
        ensures
            r == self.same_value(*other),
    {
        !self.is_nan() && !other.is_nan() && self.rank_value() == other.rank_value()
    }

    /// Numeric `<=`.
    pub fn le(&self, other: &Scalar) -> (r: bool)
        ensures
            r == self.at_most(*other),
    {
        !self.is_nan() && !other.is_nan() && self.rank_value() <= other.rank_value()
    }

    /// Numeric `>=`.
    pub fn ge(&self, other: &Scalar) -> (r: bool)
        ensures
            r == other.at_most(*self),
    {
        other.le(self)
    }

    /// Unary minus: the same magnitude with the opposite sign, for every
    /// pattern, the zeros and the NaNs included.
    pub fn neg(&self) -> (r: Scalar)
        ensures
            r == self.negated(),
    {
        if self.bits >= SIGN_BIT {
            Scalar { bits: self.bits - SIGN_BIT }
        } else {
            Scalar { bits: self.bits + SIGN_BIT }
        }
    }

    /// The smaller of two values, skipping a NaN.
    pub fn min(&self, other: &Scalar) -> (r: Scalar)
        ensures
            r == self.smaller(*other),
    {
        if self.is_nan() {
            *other
        } else if other.lt(self) {
            *other
        } else {
            *self
        }
    }

    /// The larger of two values, skipping a NaN.
    pub fn max(&self, other: &Scalar) -> (r: Scalar)
        ensures
            r == self.larger(*other),
    {
        if self.is_nan() {
            *other
        } else if other.is_nan() || other.lt(self) {
            *self
        } else {
            *other
        }
    }
}

/// Negating twice gives the pattern back.
pub proof fn lemma_neg_involution(s: Scalar)
    ensures
        s.negated().negated() == s,
{
}

/// Of two values that are not NaN, the smaller is at most the larger, and the
/// two are the given values in some order.
pub proof fn lemma_smaller_larger(a: Scalar, b: Scalar)
    requires
        !a.is_nan(),
        !b.is_nan(),
    ensures
        a.smaller(b).at_most(a.larger(b)),
        (a.smaller(b) == a && a.larger(b) == b) || (a.smaller(b) == b && a.larger(b) == a),
{
}

} // verus!
