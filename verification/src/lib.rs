//! The evaluation core of a JavaScript engine: the value model with its
//! coercion, equality and operator rules, and the machine that executes
//! blocks, assignments and binary operators over a lexical environment.
//!
//! Floating-point work is not done here. Numbers travel as IEEE-754 bit
//! patterns, and whatever needs floating-point arithmetic, parsing or
//! formatting is handed to the embedder as a request.

pub mod ast;
pub mod bigint;
pub mod environment;
pub mod exec;
pub mod number;
pub mod operations;
pub mod pending;
pub mod value;
