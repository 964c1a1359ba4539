//! Integer vectors of two, three and four components, with their arithmetic,
//! comparison and conversions.
//!
//! Every operation is stated against a model over mathematical integers (see
//! [`linear::model`]) and proved never to overflow or divide by zero on the
//! inputs that its precondition admits.

pub mod linear;

pub use linear::model::{IntVec2, IntVec3, IntVec4};
pub use linear::vector2i::Vector2i;
pub use linear::vector3i::Vector3i;
pub use linear::vector4i::Vector4i;
