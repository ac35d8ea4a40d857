//! Builtin types and their operations.

pub mod boolean;
pub mod integer;
