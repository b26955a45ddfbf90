//! Code generation for a small shell-scripting language: a parsed program is
//! turned into the text of a Rust module that runs against a command-execution
//! runtime.
pub mod ast;
pub mod emit;
pub mod interpolate;
pub mod laws;
pub mod notices;
pub mod symbols;
