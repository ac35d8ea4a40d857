//! Assembly snippets shared by the compiler and the builtins.

pub mod heap;
pub mod null;
pub mod utils;
