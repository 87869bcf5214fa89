//! Keyframe animation evaluation, generic over the animated value types.
//!
//! - [`interpolation`]: which keyframes an interpolation mode reads.
//! - [`keyframes`]: property and morph-weight tracks, and the order in which
//!   applying them reports errors.
//! - [`registry`]: evaluation entries looked up by runtime type token.
//!
//! The library selects values and reports errors; the arithmetic that blends
//! the selected values into a destination is left to the caller, who knows
//! the value type.
//!
//! [`pipelines`] and [`resources`] describe GPU pipelines and resources by
//! plain identifiers and offsets.

pub mod interpolation;
pub mod keyframes;
pub mod pipelines;
pub mod registry;
pub mod resources;
