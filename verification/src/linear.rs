//! Fixed-size integer vectors and the mathematics they are measured against.

pub mod scalar;
pub mod model;
pub mod vector2i;
pub mod vector3i;
pub mod vector4i;
pub mod narrow;
pub mod laws;
