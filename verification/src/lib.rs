//! Core of a coverage-guided greybox fuzzing engine.
//!
//! The engine evolves a corpus of byte-string inputs: it mutates promising
//! inputs, hands them to an isolated executor, reads coverage and timing
//! signals from the run, and keeps inputs that exhibit novel behaviour.
//! Crashing or hanging inputs are recorded separately so they can be
//! reproduced later.

pub mod rng;
pub mod input;
pub mod outcome;
pub mod coverage;
pub mod feedback;
pub mod mutator;
pub mod generator;
pub mod corpus;
pub mod executor;
pub mod engine;
