//! Cube-root estimation on IEEE-754 binary64 bit patterns: the additive
//! constant of the bit transform and its derivation, the integer-only
//! estimate, and the selection of a strategy by name.

pub mod estimate;
pub mod magic;
pub mod variant;
