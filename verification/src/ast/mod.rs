//! Keywords, operators and name access kinds of the language.

pub mod evaluable;
pub mod keywords;
pub mod operators;
pub mod symbol;
