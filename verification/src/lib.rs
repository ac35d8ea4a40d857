//! Code generation core of the Whython compiler: assembly text building,
//! stack layout, builtin inline functions and their x86-64 (NASM) output.

pub mod text;
pub mod builtin;
pub mod common;
pub mod assembler;
pub mod ast;
pub mod compiler;
pub mod errors;
pub mod cli;
