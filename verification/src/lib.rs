//! Grammar rules for the function constructs of a small procedural
//! language: declarations, parameter lists, call statements and return
//! statements, parsed by recursive descent over an in-memory token
//! sequence with a stack of symbol tables for name resolution.
//!
//! Every rule is stated twice: once as a mathematical function over the
//! token sequence (module `grammar`), and once as executable code (module
//! `parser`) that is proved to compute exactly that function.

pub mod token;
pub mod symbol_table;
pub mod errors;
pub mod ast;
pub mod grammar;
pub mod parser;
pub mod laws;

