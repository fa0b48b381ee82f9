//! Complex numbers over IEEE-754 double-precision parts, with the comparison
//! and display rules of the type proved against a bit-level model of the parts.

pub mod binary64;
pub mod complex;
pub mod laws;
pub mod numeric;

pub use crate::binary64::Relation;
pub use crate::complex::Complex;
