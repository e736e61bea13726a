//! Execution of the syntax tree.
//!
//! The interpreter is a machine that is driven from outside, one step at a
//! time. A step either goes on by itself or hands out an `Action`: work for
//! the floating-point unit or the object model, or a node of a kind that is
//! executed elsewhere. The answer comes back as the `Event` of the next
//! step.

pub mod interpreter;
pub mod laws;
pub mod semantics;
pub mod state;
