//! Compilation of functions into assembly.

pub mod assembly;
pub mod compile;
pub mod compile_function;
pub mod compile_function_call;
pub mod compile_lines;
pub mod evaluation;
pub mod global_table;
pub mod global_tracker;
pub mod local_variable;
pub mod local_variable_table;
