//! Binary64 numbers carried by their bit pattern.
//!
//! A manifest's durations, times, tempos and loudness values are only ever
//! stored, copied and written out again, so a number is kept as the 64 bits
//! of its IEEE-754 encoding and classified by integer arithmetic alone.

use vstd::prelude::*;

verus! {

/// Mask selecting the eleven exponent bits once they are shifted down.
pub const EXPONENT_MASK: u64 = 0x7ff;

/// Mask selecting everything but the sign bit.
pub const MAGNITUDE_MASK: u64 = 0x7fff_ffff_ffff_ffff;

/// Bit pattern with only the exponent bits set: positive infinity.
pub const INFINITY_BITS: u64 = 0x7ff0_0000_0000_0000;

/// The biased exponent field of a bit pattern.
pub open spec fn exponent_of(bits: u64) -> u64 {
    (bits >> 52) & EXPONENT_MASK
}

/// The pattern with its sign bit cleared.
pub open spec fn magnitude_of(bits: u64) -> u64 {
    bits & MAGNITUDE_MASK
}

/// Neither an infinity nor a NaN.
pub open spec fn finite_bits(bits: u64) -> bool {
    exponent_of(bits) != EXPONENT_MASK
}

/// A NaN: all exponent bits set and a non-zero fraction.
pub open spec fn nan_bits(bits: u64) -> bool {
    magnitude_of(bits) > INFINITY_BITS
}

/// Positive or negative zero.
pub open spec fn zero_bits(bits: u64) -> bool {
    magnitude_of(bits) == 0
}

/// Compares greater than or equal to zero: not a NaN, and either a zero
/// of any sign or a value with a clear sign bit.
pub open spec fn non_negative_bits(bits: u64) -> bool {
    !nan_bits(bits) && (zero_bits(bits) || bits >> 63 == 0)
}

/// Compares strictly greater than zero.
pub open spec fn positive_bits(bits: u64) -> bool {
    !nan_bits(bits) && !zero_bits(bits) && bits >> 63 == 0
}

/// A binary64 number, held as its bit pattern.
#[derive(Clone, Copy, Debug, PartialEq, Eq, Structural)]
pub struct Binary64 {
    pub bits: u64,
}

impl View for Binary64 {
    type V = Binary64;

    open spec fn view(&self) -> Binary64 {
        *self
    }
}

impl DeepView for Binary64 {
    type V = Binary64;

    open spec fn deep_view(&self) -> Binary64 {
        *self
    }
}

impl Binary64 {
    /// The number with the given bit pattern.
    pub fn from_bits(bits: u64) -> (r: Binary64)
        ensures
            r.bits == bits,
    {
        Binary64 { bits }
    }

    /// The bit pattern of the number.
    pub fn to_bits(&self) -> (bits: u64)
        ensures
            bits == self.bits,
    {
        self.bits
    }

    /// Whether the number is neither infinite nor a NaN.
    pub fn is_finite(&self) -> (b: bool)
        ensures
            b == finite_bits(self.bits),
    {
        (self.bits >> 52) & EXPONENT_MASK != EXPONENT_MASK
    }

    /// Whether the number compares greater than or equal to zero.
    pub fn is_non_negative(&self) -> (b: bool)
        ensures
            b == non_negative_bits(self.bits),
    {
        let magnitude: u64 = self.bits & MAGNITUDE_MASK;
        magnitude <= INFINITY_BITS && (magnitude == 0 || self.bits >> 63 == 0)
    }

    /// Whether the number compares strictly greater than zero.
    pub fn is_positive(&self) -> (b: bool)
        ensures
            b == positive_bits(self.bits),
    {
        let magnitude: u64 = self.bits & MAGNITUDE_MASK;
        magnitude <= INFINITY_BITS && magnitude != 0 && self.bits >> 63 == 0
    }
}

} // verus!
