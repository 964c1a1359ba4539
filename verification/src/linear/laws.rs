//! Laws that the operations obey, one module for each dimension and one for
//! the conversions between them.

pub mod two;
pub mod three;
pub mod four;
pub mod conversions;
