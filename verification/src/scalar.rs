//! The scalar representation shared by every value type of the crate.
//!
//! A component is the 32-bit pattern of the single-precision number it
//! stands for. Carrying the pattern itself keeps every value distinct and
//! exact: negative zero, subnormals and non-finite patterns all round-trip
//! unchanged through the handles.

use vstd::prelude::*;

verus! {

/// The 32-bit pattern of the single-precision scalar one.
pub const ONE_BITS: u32 = 0x3f80_0000;

/// The 32-bit pattern of the single-precision scalar zero.
pub const ZERO_BITS: u32 = 0;

} // verus!
