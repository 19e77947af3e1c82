//! Single-precision numbers held by their IEEE 754 bit patterns.
//!
//! Vertex attributes, colors and camera parameters travel through the library
//! as the 32 bits that the device will read, so that every value is exact.

use vstd::prelude::*;

verus! {

/// The bit pattern of zero.
pub const ZERO: u32 = 0x0000_0000;

/// The bit pattern of one half.
pub const HALF: u32 = 0x3F00_0000;

/// The bit pattern of minus one half.
pub const NEG_HALF: u32 = 0xBF00_0000;

/// The bit pattern of one.
pub const ONE: u32 = 0x3F80_0000;

/// The bit pattern of minus one.
pub const NEG_ONE: u32 = 0xBF80_0000;

/// The bit pattern of the unit `n`, for `n` in {-1, 0, 1}.
pub open spec fn unit(n: int) -> u32 {
    if n < 0 {
        NEG_ONE
    } else if n == 0 {
        ZERO
    } else {
        ONE
    }
}

} // verus!
