//! Real numbers held as IEEE 754 binary64 bit patterns.
//!
//! The library never computes with such a number. It only carries the pattern
//! and compares two of them, which needs integers alone.

use vstd::prelude::*;

verus! {

/// The pattern's sign bit.
pub const SIGN_BIT: u64 = 0x8000_0000_0000_0000;

/// The pattern of positive infinity: every larger magnitude is not a number.
pub const INFINITY_MAGNITUDE: u64 = 0x7ff0_0000_0000_0000;

/// A binary64 number, given by its 64 bits.
///
/// `==` on this type compares the bits, so it tells the two zeros apart.
/// [`FloatBits::le`] compares the numbers.
#[derive(Clone, Copy, Debug, PartialEq, Eq, Structural)]
pub struct FloatBits(pub u64);

impl FloatBits {
    /// The pattern without its sign bit.
    pub open spec fn magnitude(self) -> int {
        if self.0 >= SIGN_BIT {
            self.0 - SIGN_BIT
        } else {
            self.0 as int
        }
    }

    /// Whether the sign bit is set.
    pub open spec fn negative(self) -> bool {
        self.0 >= SIGN_BIT
    }

    /// Whether the pattern is not a number.
    pub open spec fn is_nan(self) -> bool {
        self.magnitude() > INFINITY_MAGNITUDE
    }

    /// An integer that orders the patterns as their numbers are ordered: among
    /// patterns of one sign a larger magnitude is further from zero, and both
    /// zeros have rank 0.
    pub open spec fn rank(self) -> int {
        if self.negative() {
            -self.magnitude()
        } else {
            self.magnitude()
        }
    }

    /// `self <= other` as numbers: false as soon as one of them is not a number.
    pub open spec fn spec_le(self, other: FloatBits) -> bool {
        &&& !self.is_nan()
        &&& !other.is_nan()
        &&& self.rank() <= other.rank()
    }

    /// Whether `self` and `other` are the same number.
    pub open spec fn same_number(self, other: FloatBits) -> bool {
        self.spec_le(other) && other.spec_le(self)
    }

    /// Compares two numbers by their bits.
    #[verifier::when_used_as_spec(spec_le)]
    pub fn le(self, other: FloatBits) -> (result: bool)
        ensures
            result == self.spec_le(other),
    {
        let own: u64 = if self.0 >= SIGN_BIT {
            self.0 - SIGN_BIT
        } else {
            self.0
        };
        let others: u64 = if other.0 >= SIGN_BIT {
            other.0 - SIGN_BIT
        } else {
            other.0
        };
        if own > INFINITY_MAGNITUDE || others > INFINITY_MAGNITUDE {
            false
        } else if self.0 >= SIGN_BIT {
            other.0 < SIGN_BIT || others <= own
        } else {
            if other.0 >= SIGN_BIT {
                own == 0 && others == 0
            } else {
                own <= others
            }
        }
    }
}

} // verus!
