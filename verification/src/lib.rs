//! Three-component vectors and 3x3 matrices of IEEE-754 binary32 scalars,
//! meant as the numeric core of a larger graphics or physics engine.
//!
//! Scalars are carried as bit patterns (`u32`); rounding arithmetic on them is
//! performed by softfloat routines behind the named spec functions of
//! [`scalar`], so every contract in the crate pins its result down to the
//! exact bit pattern computed.

pub mod matrix_3d;
pub mod scalar;
pub mod vector_3d;

pub use matrix_3d::Matrix3D;
pub use vector_3d::Vector3D;
