//! Proofs of state transitions.

pub mod generator;
