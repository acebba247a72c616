use vstd::prelude::*;

verus! {

/// Bit pattern of the sign of an IEEE 754 single-precision number.
pub const SIGN_BIT: u32 = 0x8000_0000;

/// Bit pattern of positive infinity; a larger magnitude is a NaN.
pub const INFINITY_BITS: u32 = 0x7f80_0000;

/// The magnitude part of a single-precision bit pattern (the sign cleared).
pub open spec fn magnitude(bits: u32) -> int {
    if bits >= SIGN_BIT {
        bits - SIGN_BIT
    } else {
        bits as int
    }
}

/// Whether a single-precision bit pattern encodes a NaN.
pub open spec fn is_nan(bits: u32) -> bool {
    magnitude(bits) > INFINITY_BITS
}

/// A key whose integer order is the numeric order of the non-NaN values:
/// the magnitude field grows with the value, and the sign flips it.
/// Both zeros have key 0.
pub open spec fn order_key(bits: u32) -> int {
    if bits >= SIGN_BIT {
        -magnitude(bits)
    } else {
        magnitude(bits)
    }
}

/// The IEEE 754 `<` on two single-precision bit patterns: false whenever
/// either side is a NaN, and `-0` is not below `+0`.
pub open spec fn float_lt(a: u32, b: u32) -> bool {
    !is_nan(a) && !is_nan(b) && order_key(a) < order_key(b)
}

/// A temperature reading in degrees Celsius, held as the bit pattern of an
/// IEEE 754 single-precision number, so that comparisons are exact.
#[derive(Clone, Copy, Debug)]
pub struct Celsius {
    pub bits: u32,
}

impl Celsius {
    /// The reading whose single-precision bit pattern is `bits`.
    pub fn from_bits(bits: u32) -> (r: Celsius)
        ensures
            r.bits == bits,
    {
        Celsius { bits }
    }

    /// The single-precision bit pattern of this reading.
    pub fn to_bits(&self) -> (r: u32)
        ensures
            r == self.bits,
    {
        self.bits
    }

    /// Whether the reading is a NaN.
    pub fn is_nan(&self) -> (r: bool)
        ensures
            r == is_nan(self.bits),
    {
        let m: u32 = if self.bits >= SIGN_BIT { self.bits - SIGN_BIT } else { self.bits };
        m > INFINITY_BITS
    }

    /// IEEE 754 `self < other`.
    pub fn lt(&self, other: &Celsius) -> (r: bool)
        ensures
            r == float_lt(self.bits, other.bits),
    {
        if self.is_nan() || other.is_nan() {
            return false;
        }
        let a_neg = self.bits >= SIGN_BIT;
        let b_neg = other.bits >= SIGN_BIT;
        let a_mag: u32 = if a_neg { self.bits - SIGN_BIT } else { self.bits };
        let b_mag: u32 = if b_neg { other.bits - SIGN_BIT } else { other.bits };
        if a_neg && b_neg {
            a_mag > b_mag
        } else if a_neg {
            a_mag != 0 || b_mag != 0
        } else if b_neg {
            false
        } else {
            a_mag < b_mag
        }
    }
}

} // verus!
