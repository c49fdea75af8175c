//! Bit-exact value types for a physics-math boundary layer.
//!
//! The crate offers plain, copyable value handles for vectors, rotations and
//! angular-inertia tensors, in a 2-dimensional and a 3-dimensional flavour.
//! Every scalar component is carried as the 32-bit pattern of the
//! single-precision number it stands for, so each read returns exactly what
//! was stored: nothing is rounded, normalized or validated here. Numeric
//! work on the components (trigonometry, matrix algebra) belongs to the
//! surrounding math library, not to these handles.

pub mod dim2;
pub mod dim3;
pub mod scalar;
