//! Scalars, vectors and tensors.

pub mod matrix;
pub mod scalar;
pub mod vector;

pub use matrix::Matrix3;
pub use scalar::Scalar;
pub use vector::Vector3D;
