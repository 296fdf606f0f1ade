//! The three things the tool can be asked to do with a pattern.

pub mod explain;
pub mod generate;
