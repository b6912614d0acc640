//! Fixed-dimension vectors and square matrices with exact integer entries,
//! for 2D and 3D geometric transforms.
//!
//! Every operation is a pure function of its arguments. Its result is stated
//! over a mathematical model of each type (tuples of `int`). Arithmetic is
//! exact: an operation asks of its caller only that the exact values it stores
//! fit the `i64` that holds them.
pub mod bounds;
pub mod matrix2;
pub mod matrix3;
pub mod vector2;
pub mod vector3;

pub use matrix2::Matrix2;
pub use matrix3::Matrix3;
pub use vector2::Vector2;
pub use vector3::Vector3;
