//! IEEE 754 binary64 values held by their encoding, with the order that the
//! standard gives them.
//!
//! Under IEEE 754 a binary64 value is a sign bit followed by 63 bits that,
//! read as an unsigned integer, grow with the magnitude of the value; every
//! magnitude above that of infinity encodes a NaN. So two values that are not
//! NaN compare as their signed magnitudes do, with +0 and -0 equal, and a NaN
//! is neither below nor above anything.

use vstd::prelude::*;

verus! {

/// The sign bit.
pub const SIGN_BIT: u64 = 0x8000_0000_0000_0000;

/// The magnitude bits of infinity; any larger magnitude encodes a NaN.
pub const INFINITY_MAGNITUDE: u64 = 0x7FF0_0000_0000_0000;

/// The encoding of 1.0.
pub const ONE_BITS: u64 = 0x3FF0_0000_0000_0000;

/// A binary64 (double precision) value, held as its IEEE 754 encoding.
#[derive(Clone, Copy, Debug, PartialEq, Eq, Structural)]
pub struct Binary64 {
    pub bits: u64,
}

/// The 63 bits below the sign.
pub open spec fn magnitude(bits: u64) -> int {
    if bits >= SIGN_BIT {
        bits - SIGN_BIT
    } else {
        bits as int
    }
}

/// The encoding is a NaN.
pub open spec fn is_nan(bits: u64) -> bool {
    magnitude(bits) > INFINITY_MAGNITUDE
}

/// The magnitude with the sign applied: for values that are not NaN this
/// orders them as IEEE 754 does, with both zeros at 0.
pub open spec fn signed_magnitude(bits: u64) -> int {
    if bits >= SIGN_BIT {
        -magnitude(bits)
    } else {
        magnitude(bits)
    }
}

/// IEEE 754 `a < b`.
pub open spec fn bits_lt(a: u64, b: u64) -> bool {
    !is_nan(a) && !is_nan(b) && signed_magnitude(a) < signed_magnitude(b)
}

impl Binary64 {
    pub open spec fn spec_lt(self, other: Binary64) -> bool {
        bits_lt(self.bits, other.bits)
    }

    pub open spec fn spec_is_nan(self) -> bool {
        is_nan(self.bits)
    }

    pub fn from_bits(bits: u64) -> (r: Binary64)
        ensures
            r.bits == bits,
    {
        Binary64 { bits }
    }

    pub fn to_bits(&self) -> (r: u64)
        ensures
            r == self.bits,
    {
        self.bits
    }

    /// Positive zero.
    pub fn zero() -> (r: Binary64)
        ensures
            r.bits == 0,
    {
        Binary64 { bits: 0 }
    }

    /// One.
    pub fn one() -> (r: Binary64)
        ensures
            r.bits == ONE_BITS,
    {
        Binary64 { bits: ONE_BITS }
    }

    pub fn is_nan(&self) -> (r: bool)
        ensures
            r == self.spec_is_nan(),
    {
        let m: u64 = if self.bits >= SIGN_BIT { self.bits - SIGN_BIT } else { self.bits };
        m > INFINITY_MAGNITUDE
    }

    /// IEEE 754 `self < other`: false whenever either is a NaN.
    pub fn lt(&self, other: &Binary64) -> (r: bool)
        ensures
            r == self.spec_lt(*other),
    {
        if self.is_nan() || other.is_nan() {
            return false;
        }
        let a: i64 = if self.bits >= SIGN_BIT {
            -((self.bits - SIGN_BIT) as i64)
        } else {
            self.bits as i64
        };
        let b: i64 = if other.bits >= SIGN_BIT {
            -((other.bits - SIGN_BIT) as i64)
        } else {
            other.bits as i64
        };
        a < b
    }
}

} // verus!
