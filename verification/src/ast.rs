//! The syntax tree: operators, constants and nodes.

pub mod constant;
pub mod hoist;
pub mod node;
pub mod op;
