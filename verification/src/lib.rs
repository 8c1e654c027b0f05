//! A single two-level quantum bit: its state as a pair of complex amplitudes,
//! the quantities derived from it, the gates NOT, Hadamard and phase rotation,
//! and measurement with collapse.
//!
//! Every real number is an IEEE-754 binary64 value held by its bit pattern in a
//! `u64`. Comparisons are decided here, on the bit patterns. Arithmetic is not:
//! each function that needs it takes an evaluator, which the caller supplies,
//! and states its result in terms of what that evaluator returned.

pub mod ieee;
pub mod qc;
pub mod laws;
