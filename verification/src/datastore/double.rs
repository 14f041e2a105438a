//! The double scalar of the datastore and the pair of doubles that makes a
//! point on the globe.

use vstd::prelude::*;

verus! {

/// The bit that holds the sign of a double.
pub const SIGN_BIT: u64 = 0x8000_0000_0000_0000;

/// The bits of positive infinity. Every magnitude above it is a NaN.
pub const INFINITY_BITS: u64 = 0x7ff0_0000_0000_0000;

/// The bits of the greatest finite single-precision number, written as a
/// double.
pub const SINGLE_MAX_BITS: u64 = 0x47ef_ffff_e000_0000;

/// A double-precision number, held as the bit pattern of its IEEE 754
/// binary64 form.
#[derive(Clone, Copy, Debug, PartialEq, Eq, Structural)]
pub struct Double {
    pub bits: u64,
}

impl Double {
    /// The double with the given bit pattern.
    pub fn from_bits(bits: u64) -> (double: Double)
        ensures
            double.bits == bits,
    {
        Double { bits }
    }

    /// The bit pattern of the double.
    pub fn to_bits(&self) -> (bits: u64)
        ensures
            bits == self.bits,
    {
        self.bits
    }

    /// The bit pattern without its sign. Among numbers that are no NaN, a
    /// greater pattern is a greater magnitude.
    pub open spec fn magnitude_bits(self) -> u64 {
        self.bits & !SIGN_BIT
    }

    /// Whether the double is no number.
    pub open spec fn is_nan(self) -> bool {
        self.magnitude_bits() > INFINITY_BITS
    }

    /// Whether the double is a number whose magnitude is beyond every finite
    /// single-precision number. A NaN is no number and exceeds nothing.
    pub open spec fn exceeds_single(self) -> bool {
        SINGLE_MAX_BITS < self.magnitude_bits() <= INFINITY_BITS
    }

    /// Tells whether the magnitude is beyond single precision.
    pub fn is_beyond_single(&self) -> (beyond: bool)
        ensures
            beyond == self.exceeds_single(),
    {
        let magnitude: u64 = self.bits & !SIGN_BIT;
        SINGLE_MAX_BITS < magnitude && magnitude <= INFINITY_BITS
    }
}

impl View for Double {
    type V = Double;

    /// A double is a plain value and stands for itself.
    open spec fn view(&self) -> Double {
        *self
    }
}

/// A point on the globe, in degrees.
#[derive(Clone, Copy, Debug, PartialEq, Eq, Structural)]
pub struct LatLng {
    pub latitude: Double,
    pub longitude: Double,
}

/// An instant in UTC: whole seconds since the start of 1970, and the
/// nanoseconds into the second that follows them.
#[derive(Clone, Copy, Debug, PartialEq, Eq, Structural)]
pub struct Timestamp {
    pub seconds: i64,
    pub nanos: u32,
}

} // verus!
