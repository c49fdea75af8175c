//! Two-dimensional value types: a vector and a rotation.

use vstd::prelude::*;
use crate::scalar::ONE_BITS;
use crate::scalar::ZERO_BITS;

verus! {

/// A 2-dimensional vector.
///
/// Each component holds the 32-bit pattern of the scalar it stands for, so
/// writes and reads preserve every value bit for bit.
#[derive(Copy, Clone, Debug, PartialEq, Eq)]
pub struct RawVector {
    pub x: u32,
    pub y: u32,
}

/// The vector re-read in its own axis order: the identity permutation.
pub open spec fn spec_xy(v: RawVector) -> RawVector {
    RawVector { x: v.x, y: v.y }
}

/// The vector with its two components exchanged.
pub open spec fn spec_yx(v: RawVector) -> RawVector {
    RawVector { x: v.y, y: v.x }
}

/// The vector after a write to the `x` axis.
pub open spec fn spec_with_x(v: RawVector, x: u32) -> RawVector {
    RawVector { x, y: v.y }
}

/// The vector after a write to the `y` axis.
pub open spec fn spec_with_y(v: RawVector, y: u32) -> RawVector {
    RawVector { x: v.x, y }
}

impl RawVector {
    /// Creates a new vector filled with zeros.
    pub fn zero() -> (r: RawVector)
        ensures
            r.x == ZERO_BITS,
            r.y == ZERO_BITS,
    {
        RawVector { x: ZERO_BITS, y: ZERO_BITS }
    }

    /// Creates a new 2D vector from its two components.
    pub fn new(x: u32, y: u32) -> (r: RawVector)
        ensures
            r.x == x,
            r.y == y,
    {
        RawVector { x, y }
    }

    /// The `x` component of this vector.
    pub fn x(&self) -> (r: u32)
        ensures
            r == self.x,
    {
        self.x
    }

    /// Sets the `x` component of this vector; the `y` component is untouched.
    pub fn set_x(&mut self, x: u32)
        ensures
            *final(self) == spec_with_x(*old(self), x),
    {
        self.x = x;
    }

    /// The `y` component of this vector.
    pub fn y(&self) -> (r: u32)
        ensures
            r == self.y,
    {
        self.y
    }

    /// Sets the `y` component of this vector; the `x` component is untouched.
    pub fn set_y(&mut self, y: u32)
        ensures
            *final(self) == spec_with_y(*old(self), y),
    {
        self.y = y;
    }

    /// Creates a new 2D vector from this vector with its components
    /// rearranged as `{x, y}`: a plain copy, kept for completeness with the
    /// other swizzling functions.
    pub fn xy(&self) -> (r: RawVector)
        ensures
            r == spec_xy(*self),
    {
        RawVector { x: self.x, y: self.y }
    }

    /// Creates a new 2D vector from this vector with its components
    /// rearranged as `{y, x}`.
    pub fn yx(&self) -> (r: RawVector)
        ensures
            r == spec_yx(*self),
    {
        RawVector { x: self.y, y: self.x }
    }
}

/// Law: the identity swizzle changes nothing, the swap swizzle exchanges the
/// two components, and swapping twice restores the original vector.
pub proof fn lemma_swizzle_swap(v: RawVector)
    ensures
        spec_xy(v) == v,
        spec_yx(spec_xy(v)) == (RawVector { x: v.y, y: v.x }),
        spec_yx(spec_yx(v)) == v,
{
}

/// Law: writing an axis and reading it back yields exactly the pattern that
/// was written, and the other axis keeps its previous pattern.
pub proof fn lemma_write_read_exact(v: RawVector, b: u32)
    ensures
        spec_with_x(v, b).x == b,
        spec_with_x(v, b).y == v.y,
        spec_with_y(v, b).y == b,
        spec_with_y(v, b).x == v.x,
{
}

/// A rotation, described as a unit complex number.
///
/// The components hold the 32-bit patterns of the real and imaginary parts.
/// The unit-norm invariant is deliberately never enforced by this layer:
/// whatever patterns a value was built with are what its accessors return.
#[derive(Copy, Clone, Debug, PartialEq, Eq)]
pub struct RawRotation {
    pub re: u32,
    pub im: u32,
}

impl RawRotation {
    /// The identity rotation: real part one, imaginary part zero.
    pub fn identity() -> (r: RawRotation)
        ensures
            r.re == ONE_BITS,
            r.im == ZERO_BITS,
    {
        RawRotation { re: ONE_BITS, im: ZERO_BITS }
    }

    /// The imaginary part of this complex number.
    pub fn im(&self) -> (r: u32)
        ensures
            r == self.im,
    {
        self.im
    }

    /// The real part of this complex number.
    pub fn re(&self) -> (r: u32)
        ensures
            r == self.re,
    {
        self.re
    }
}

} // verus!
