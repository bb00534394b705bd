//! Consistency checks between the full decode and the metadata-only decode
//! of a RAW image.
//!
//! Floating-point values from the decoder are carried as their IEEE-754
//! single-precision bit patterns, so that every comparison the checks make is
//! an exact, verified statement about integers.

pub mod floats;
pub mod image;
pub mod equivalence;
pub mod driver;
pub mod engine;
pub mod harness;
