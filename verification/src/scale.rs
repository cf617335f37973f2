//! Validation of the requested raster scale.
//!
//! The scale reaches the crate as the bit pattern of a
//! single-precision value. It is rejected exactly when that value
//! compares less than or equal to zero: a zero of either sign, or a
//! negative value, negative infinity included. A NaN pattern compares
//! neither below nor above zero and is not rejected here; the sizing
//! step then reports the document as unsizable.

use vstd::prelude::*;

verus! {

/// Sign bit of a single-precision bit pattern.
pub const SCALE_SIGN_BIT: u32 = 0x8000_0000;

/// Exponent and mantissa bits of a single-precision bit pattern.
pub const SCALE_MAGNITUDE_MASK: u32 = 0x7FFF_FFFF;

/// Magnitude of an infinity; anything above it is a NaN.
pub const SCALE_INFINITY_MAGNITUDE: u32 = 0x7F80_0000;

/// Whether the scale with this bit pattern compares less than or
/// equal to zero: its magnitude is zero, or its sign bit is set and
/// it is not a NaN.
pub open spec fn scale_rejected(bits: u32) -> bool {
    (bits & SCALE_MAGNITUDE_MASK) == 0 || ((bits & SCALE_SIGN_BIT) != 0 && (bits
        & SCALE_MAGNITUDE_MASK) <= SCALE_INFINITY_MAGNITUDE)
}

/// Decides whether a requested scale is rejected.
pub fn scale_rejected_exec(bits: u32) -> (r: bool)
    ensures
        r == scale_rejected(bits),
{
    (bits & SCALE_MAGNITUDE_MASK) == 0 || ((bits & SCALE_SIGN_BIT) != 0 && (bits
        & SCALE_MAGNITUDE_MASK) <= SCALE_INFINITY_MAGNITUDE)
}

} // verus!
