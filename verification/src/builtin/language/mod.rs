//! Core language operations that are not tied to one type.

pub mod referencing;
