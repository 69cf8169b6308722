//! Quaternion arithmetic on four-component arrays `[x, y, z, w]` of a generic
//! scalar.
//!
//! Nothing here allocates or keeps state: every routine reads its operands
//! and writes its result into a quaternion that the caller hands in, which it
//! also returns so that calls can be chained. No routine fails. Where a
//! formula would divide by a number that compares equal to zero, it takes zero
//! or the operand itself in the quotient's place, as each routine says.
//!
//! The routines are generic over [`Scalar`], and each states its result as a
//! formula over the scalar's operations, term by term and in the order in
//! which they are carried out: with rounding arithmetic the order matters.
//!
//! `zero` and `identity` exist twice: in [`create`] they make a quaternion, in
//! [`set`] they overwrite one. They are reached through their modules, as is
//! [`set::set`].
pub mod create;
pub mod div;
pub mod integer;
pub mod length;
pub mod misc;
pub mod mul;
pub mod scalar;
pub mod set;
pub mod transform;

pub use create::{clone, copy, create};
pub use div::div;
pub use length::{
    dot, inv_length_values, length, length_values, length_values_sq, normalize,
};
pub use misc::{
    calculate_w, clamp, conjugate, eq, inverse, lerp, max, min, ne, nlerp, slerp, slerp_by,
};
pub use mul::mul;
pub use scalar::{reciprocal, Cast, Scalar};
pub use transform::{
    from_axis_angle, from_axis_sin_cos, from_mat, from_mat2, from_mat3, from_mat32, from_mat4,
    look_rotation, pivot, rotate, rotate_x, rotate_x_by, rotate_y, rotate_y_by, rotate_z,
    rotate_z_by, rotation_x, rotation_x_parts, rotation_y, rotation_y_sine, rotation_z,
    rotation_z_parts, Pivot,
};
