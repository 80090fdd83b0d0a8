//! Scalar functions.

pub mod ascii;
pub mod cast;
pub mod like;
