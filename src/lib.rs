//! A multidimensional point: a fixed-length sequence of values with
//! element-wise arithmetic, equality and approximate comparison.

pub mod close;
pub mod laws;
pub mod point;

pub use point::Point;
