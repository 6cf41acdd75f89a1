//! Linter and formatter for whitespace in source code and text files.
//!
//! The heart of the crate is a single-pass byte scanner that normalizes
//! line endings, trailing whitespace, trailing blank lines, tabs,
//! non-standard whitespace and end-of-file markers, and reports every
//! change it makes. The scanner is verified against a mathematical model
//! of the transformation, so the emitted bytes and the change log are
//! exactly the ones the model prescribes.

pub mod change;
pub mod cli;
pub mod engine;
pub mod error;
pub mod exit;
pub mod laws;
pub mod writer;
