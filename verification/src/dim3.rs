//! Three-dimensional value types: a vector, a rotation and an
//! angular-inertia tensor.

use vstd::prelude::*;
use crate::dim2;
use crate::scalar::ONE_BITS;
use crate::scalar::ZERO_BITS;

verus! {

/// A 3-dimensional vector.
///
/// Each component holds the 32-bit pattern of the scalar it stands for, so
/// writes and reads preserve every value bit for bit.
#[derive(Copy, Clone, Debug, PartialEq, Eq)]
pub struct RawVector {
    pub x: u32,
    pub y: u32,
    pub z: u32,
}

/// The vector re-read in its own axis order: the identity permutation.
pub open spec fn spec_xyz(v: RawVector) -> RawVector {
    RawVector { x: v.x, y: v.y, z: v.z }
}

/// The vector with axes read in the order `{y, x, z}`.
pub open spec fn spec_yxz(v: RawVector) -> RawVector {
    RawVector { x: v.y, y: v.x, z: v.z }
}

/// The vector with axes read in the order `{z, x, y}`.
pub open spec fn spec_zxy(v: RawVector) -> RawVector {
    RawVector { x: v.z, y: v.x, z: v.y }
}

/// The vector with axes read in the order `{x, z, y}`.
pub open spec fn spec_xzy(v: RawVector) -> RawVector {
    RawVector { x: v.x, y: v.z, z: v.y }
}

/// The vector with axes read in the order `{y, z, x}`.
pub open spec fn spec_yzx(v: RawVector) -> RawVector {
    RawVector { x: v.y, y: v.z, z: v.x }
}

/// The vector with axes read in the order `{z, y, x}`.
pub open spec fn spec_zyx(v: RawVector) -> RawVector {
    RawVector { x: v.z, y: v.y, z: v.x }
}

/// The 2-dimensional vector read off the axes `{z, y}`.
pub open spec fn spec_zy(v: RawVector) -> dim2::RawVector {
    dim2::RawVector { x: v.z, y: v.y }
}

/// The vector after a write to the `x` axis.
pub open spec fn spec_with_x(v: RawVector, x: u32) -> RawVector {
    RawVector { x, y: v.y, z: v.z }
}

/// The vector after a write to the `y` axis.
pub open spec fn spec_with_y(v: RawVector, y: u32) -> RawVector {
    RawVector { x: v.x, y, z: v.z }
}

/// The vector after a write to the `z` axis.
pub open spec fn spec_with_z(v: RawVector, z: u32) -> RawVector {
    RawVector { x: v.x, y: v.y, z }
}

impl RawVector {
    /// Creates a new vector filled with zeros.
    pub fn zero() -> (r: RawVector)
        ensures
            r.x == ZERO_BITS,
            r.y == ZERO_BITS,
            r.z == ZERO_BITS,
    {
        RawVector { x: ZERO_BITS, y: ZERO_BITS, z: ZERO_BITS }
    }

    /// Creates a new 3D vector from its three components.
    pub fn new(x: u32, y: u32, z: u32) -> (r: RawVector)
        ensures
            r.x == x,
            r.y == y,
            r.z == z,
    {
        RawVector { x, y, z }
    }

    /// The `x` component of this vector.
    pub fn x(&self) -> (r: u32)
        ensures
            r == self.x,
    {
        self.x
    }

    /// Sets the `x` component of this vector; the other components are
    /// untouched.
    pub fn set_x(&mut self, x: u32)
        ensures
            *final(self) == spec_with_x(*old(self), x),
    {
        self.x = x;
    }

    /// The `y` component of this vector.
    pub fn y(&self) -> (r: u32)
        ensures
            r == self.y,
    {
        self.y
    }

    /// Sets the `y` component of this vector; the other components are
    /// untouched.
    pub fn set_y(&mut self, y: u32)
        ensures
            *final(self) == spec_with_y(*old(self), y),
    {
        self.y = y;
    }

    /// The `z` component of this vector.
    pub fn z(&self) -> (r: u32)
        ensures
            r == self.z,
    {
        self.z
    }

    /// Sets the `z` component of this vector; the other components are
    /// untouched.
    pub fn set_z(&mut self, z: u32)
        ensures
            *final(self) == spec_with_z(*old(self), z),
    {
        self.z = z;
    }

    /// Creates a new 3D vector from this vector with its components
    /// rearranged as `{x, y, z}`: a plain copy, kept for completeness with
    /// the other swizzling functions.
    pub fn xyz(&self) -> (r: RawVector)
        ensures
            r == spec_xyz(*self),
    {
        RawVector { x: self.x, y: self.y, z: self.z }
    }

    /// Creates a new 3D vector from this vector with its components
    /// rearranged as `{y, x, z}`.
    pub fn yxz(&self) -> (r: RawVector)
        ensures
            r == spec_yxz(*self),
    {
        RawVector { x: self.y, y: self.x, z: self.z }
    }

    /// Creates a new 3D vector from this vector with its components
    /// rearranged as `{z, x, y}`.
    pub fn zxy(&self) -> (r: RawVector)
        ensures
            r == spec_zxy(*self),
    {
        RawVector { x: self.z, y: self.x, z: self.y }
    }

    /// Creates a new 3D vector from this vector with its components
    /// rearranged as `{x, z, y}`.
    pub fn xzy(&self) -> (r: RawVector)
        ensures
            r == spec_xzy(*self),
    {
        RawVector { x: self.x, y: self.z, z: self.y }
    }

    /// Creates a new 3D vector from this vector with its components
    /// rearranged as `{y, z, x}`.
    pub fn yzx(&self) -> (r: RawVector)
        ensures
            r == spec_yzx(*self),
    {
        RawVector { x: self.y, y: self.z, z: self.x }
    }

    /// Creates a new 3D vector from this vector with its components
    /// rearranged as `{z, y, x}`.
    pub fn zyx(&self) -> (r: RawVector)
        ensures
            r == spec_zyx(*self),
    {
        RawVector { x: self.z, y: self.y, z: self.x }
    }

    /// Creates a new 2D vector from this vector with its components
    /// rearranged as `{z, y}`.
    pub fn zy(&self) -> (r: dim2::RawVector)
        ensures
            r == spec_zy(*self),
    {
        dim2::RawVector { x: self.z, y: self.y }
    }
}

/// Law: the identity swizzle changes nothing; the swizzles that exchange two
/// axes are their own inverses; and the two cyclic swizzles are inverse to
/// each other.
pub proof fn lemma_swizzle_inverses(v: RawVector)
    ensures
        spec_xyz(v) == v,
        spec_yxz(spec_yxz(v)) == v,
        spec_xzy(spec_xzy(v)) == v,
        spec_zyx(spec_zyx(v)) == v,
        spec_zxy(spec_yzx(v)) == v,
        spec_yzx(spec_zxy(v)) == v,
{
}

/// Law: writing an axis and reading it back yields exactly the pattern that
/// was written, and the other axes keep their previous patterns.
pub proof fn lemma_write_read_exact(v: RawVector, b: u32)
    ensures
        spec_with_x(v, b).x == b,
        spec_with_x(v, b).y == v.y,
        spec_with_x(v, b).z == v.z,
        spec_with_y(v, b).y == b,
        spec_with_y(v, b).x == v.x,
        spec_with_y(v, b).z == v.z,
        spec_with_z(v, b).z == b,
        spec_with_z(v, b).x == v.x,
        spec_with_z(v, b).y == v.y,
{
}

/// A rotation, described as a unit quaternion.
///
/// The real part is `w` and the imaginary triple is `(x, y, z)`; each
/// component holds the 32-bit pattern of the scalar it stands for. The
/// unit-norm invariant is deliberately never enforced by this layer: any
/// four patterns are accepted verbatim and returned verbatim, with no silent
/// renormalization.
#[derive(Copy, Clone, Debug, PartialEq, Eq)]
pub struct RawRotation {
    pub x: u32,
    pub y: u32,
    pub z: u32,
    pub w: u32,
}

impl RawRotation {
    /// Builds the quaternion from its components, accepted verbatim even if
    /// they do not describe a unit quaternion.
    pub fn new(x: u32, y: u32, z: u32, w: u32) -> (r: RawRotation)
        ensures
            r.x == x,
            r.y == y,
            r.z == z,
            r.w == w,
    {
        RawRotation { x, y, z, w }
    }

    /// The identity quaternion: real part one, imaginary parts zero.
    pub fn identity() -> (r: RawRotation)
        ensures
            r.w == ONE_BITS,
            r.x == ZERO_BITS,
            r.y == ZERO_BITS,
            r.z == ZERO_BITS,
    {
        RawRotation { x: ZERO_BITS, y: ZERO_BITS, z: ZERO_BITS, w: ONE_BITS }
    }

    /// The `x` component of this quaternion.
    pub fn x(&self) -> (r: u32)
        ensures
            r == self.x,
    {
        self.x
    }

    /// The `y` component of this quaternion.
    pub fn y(&self) -> (r: u32)
        ensures
            r == self.y,
    {
        self.y
    }

    /// The `z` component of this quaternion.
    pub fn z(&self) -> (r: u32)
        ensures
            r == self.z,
    {
        self.z
    }

    /// The `w` component of this quaternion.
    pub fn w(&self) -> (r: u32)
        ensures
            r == self.w,
    {
        self.w
    }
}

/// An angular-inertia tensor: a symmetric 3-by-3 matrix of which only the
/// six independent entries are stored, each as the 32-bit pattern of the
/// scalar it stands for. The lower-triangular entries are never stored
/// separately: by symmetry they equal their upper-triangular mirrors.
#[derive(Copy, Clone, Debug, PartialEq, Eq)]
pub struct RawAngularInertia {
    pub m11: u32,
    pub m12: u32,
    pub m13: u32,
    pub m22: u32,
    pub m23: u32,
    pub m33: u32,
}

/// The six stored elements in row-major upper-triangular order.
pub open spec fn spec_elements(m: RawAngularInertia) -> Seq<u32> {
    seq![m.m11, m.m12, m.m13, m.m22, m.m23, m.m33]
}

/// Entry `(i, j)` of the full symmetric matrix that the six stored elements
/// stand for (zero-based row and column).
pub open spec fn spec_entry(m: RawAngularInertia, i: int, j: int) -> u32
    recommends
        0 <= i < 3,
        0 <= j < 3,
{
    if i == 0 && j == 0 {
        m.m11
    } else if (i == 0 && j == 1) || (i == 1 && j == 0) {
        m.m12
    } else if (i == 0 && j == 2) || (i == 2 && j == 0) {
        m.m13
    } else if i == 1 && j == 1 {
        m.m22
    } else if (i == 1 && j == 2) || (i == 2 && j == 1) {
        m.m23
    } else {
        m.m33
    }
}

impl RawAngularInertia {
    /// Row-major list of the six independent elements of the symmetric
    /// matrix, in the order `m11, m12, m13, m22, m23, m33`.
    pub fn elements(&self) -> (r: Vec<u32>)
        ensures
            r@ == spec_elements(*self),
            r@.len() == 6,
    {
        let mut out: Vec<u32> = Vec::new();
        out.push(self.m11);
        out.push(self.m12);
        out.push(self.m13);
        out.push(self.m22);
        out.push(self.m23);
        out.push(self.m33);
        proof {
            assert(out@ =~= spec_elements(*self));
        }
        out
    }
}

/// Law: the matrix that the six stored elements stand for is symmetric, and
/// the off-diagonal entry reached through either access path equals the one
/// stored element at its flattened position.
pub proof fn lemma_symmetric_access(m: RawAngularInertia)
    ensures
        forall|i: int, j: int|
            0 <= i < 3 && 0 <= j < 3 ==> spec_entry(m, i, j) == spec_entry(m, j, i),
        spec_entry(m, 0, 1) == spec_elements(m)[1],
        spec_entry(m, 1, 0) == spec_elements(m)[1],
        spec_elements(m).len() == 6,
{
}

} // verus!
