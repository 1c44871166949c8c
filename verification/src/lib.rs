//! Points of a two-dimensional integer lattice whose arithmetic wraps around
//! at the bounds of the coordinate type.
//!
//! [`position::Pos`] is the point. Its coordinates are of any type that is a
//! [`wrapping::WrappingInt`]: the twelve primitive integer types are, by
//! [`signed`] and [`unsigned`]. [`order`] compares points, [`decimal`] writes
//! numbers, and [`laws`] proves what holds of the quarter-turns.

pub mod decimal;
pub mod laws;
pub mod order;
pub mod position;
pub mod signed;
pub mod unsigned;
pub mod wrapping;
