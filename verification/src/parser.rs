//! Parsing.

pub mod errors;
