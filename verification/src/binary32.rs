//! Single-precision numbers as bit patterns, with the comparison that the
//! controller needs.

use vstd::prelude::*;

verus! {

/// An IEEE 754 binary32 number, held as its bit pattern: one sign bit, eight
/// exponent bits, twenty-three fraction bits.
///
/// The derived `==` compares bit patterns, which is finer than the numeric
/// equality: it tells the two zeros apart and holds of a NaN and itself.
#[derive(Debug, Clone, Copy, PartialEq, Eq, Hash, Structural)]
pub struct Binary32 {
    pub bits: u32,
}

/// The bit pattern of positive infinity. Larger magnitudes are NaNs.
pub const INFINITY_BITS: u32 = 0x7f80_0000;

/// The sign bit.
pub const SIGN_BIT: u32 = 0x8000_0000;

impl Binary32 {
    /// The bit pattern without its sign bit. Among numbers of one sign, a
    /// larger magnitude is farther from zero.
    pub open spec fn magnitude(self) -> int {
        if self.bits >= SIGN_BIT {
            self.bits - SIGN_BIT
        } else {
            self.bits as int
        }
    }

    /// Whether the sign bit is set.
    pub open spec fn is_negative(self) -> bool {
        self.bits >= SIGN_BIT
    }

    /// Whether the pattern is not a number.
    pub open spec fn is_nan(self) -> bool {
        self.magnitude() > INFINITY_BITS
    }

    /// The place of a number on the number line: of two patterns that are
    /// numbers, `a` is the smaller number exactly when `a.rank() < b.rank()`.
    /// The two zeros share rank 0.
    pub open spec fn rank(self) -> int {
        if self.is_negative() {
            -self.magnitude()
        } else {
            self.magnitude()
        }
    }

    /// Numeric `>=`: false when either side is a NaN.
    pub open spec fn at_least(self, other: Binary32) -> bool {
        !self.is_nan() && !other.is_nan() && self.rank() >= other.rank()
    }

    /// The number with the given bit pattern.
    pub fn from_bits(bits: u32) -> (number: Binary32)
        ensures
            number.bits == bits,
    {
        Binary32 { bits }
    }

    /// The bit pattern of the number.
    pub fn to_bits(self) -> (bits: u32)
        ensures
            bits == self.bits,
    {
        self.bits
    }

    /// Computes [`Binary32::rank`] where the pattern is a number.
    fn signed_magnitude(self) -> (rank: Option<i64>)
        ensures
            rank is None <==> self.is_nan(),
            rank matches Some(r) ==> r == self.rank(),
    {
        let negative = self.bits >= SIGN_BIT;
        let magnitude: u32 = if negative {
            self.bits - SIGN_BIT
        } else {
            self.bits
        };
        if magnitude > INFINITY_BITS {
            None
        } else if negative {
            Some(-(magnitude as i64))
        } else {
            Some(magnitude as i64)
        }
    }

    /// Whether `self >= other` as numbers.
    pub fn ge(self, other: Binary32) -> (holds: bool)
        ensures
            holds == self.at_least(other),
    {
        match (self.signed_magnitude(), other.signed_magnitude()) {
            (Some(a), Some(b)) => a >= b,
            _ => false,
        }
    }
}

} // verus!
