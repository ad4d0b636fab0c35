//! Conformance harness core: annotation parsing, suite registry and output
//! validation for test cases of a scripting-language implementation family.

pub mod cli;
pub mod color;
pub mod expectation;
pub mod laws;
pub mod pattern;
pub mod runner;
pub mod suite;
pub mod text;
pub mod validate;
