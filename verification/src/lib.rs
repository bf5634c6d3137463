//! A harness that drives zero-knowledge proof generation for a family of
//! games, each one a fixed program for a zkVM proving backend.
//!
//! The library holds the decisions of the harness and never performs I/O or
//! talks to a backend itself: it says what is to be handed to the backend,
//! and what each answer of the backend means for the caller.

pub mod block_execution_game;
pub mod common;
pub mod decompression_game;
pub mod encoding;
pub mod error;
pub mod lifecycle;
pub mod naming;
pub mod public_values;

pub use error::Error;
