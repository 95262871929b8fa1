//! Pseudorandom floating-point bit patterns.
//!
//! Two small pseudorandom word generators (a 128-bit xorshift-add engine and
//! a 256-bit xoroshiro-rotate-add engine) produce raw 64-bit words, and a
//! stateless shaping layer rewrites the IEEE-754 bit fields of those words
//! (sign, exponent, mantissa) under several selectable policies. Working on
//! the bit fields directly wastes fewer pseudorandom bits than scaling an
//! integer into the unit interval, at the cost of distributions that are
//! uniform in order of magnitude rather than in value.
//!
//! Every function here computes integer bit patterns; reinterpreting a
//! pattern as `f64` or `f32` is left to the caller.

pub mod entropy;
pub mod float;
pub mod generators;
pub mod utilities;

pub use crate::float::Sign;
