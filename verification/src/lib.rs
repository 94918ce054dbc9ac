//! A bytecode-based runtime for a small JavaScript-like language: a tagged
//! value representation, a prototype-based object model, lexical environment
//! chains, call frames with exception tables, and the interpreter loop that
//! ties them together.

pub mod builtin;
pub mod bytecode;
pub mod codegen;
pub mod env;
pub mod frame;
pub mod error;
pub mod lexer;
pub mod numeric;
pub mod parser;
pub mod test;
pub mod object;
pub mod value;
pub mod vm;
