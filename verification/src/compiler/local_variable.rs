//! A typed variable at a stack offset.

use vstd::prelude::*;

verus! {

/// A type id together with how many references lead to the value.
#[derive(Clone, Copy, Debug, PartialEq, Eq, Structural)]
pub struct TypeInfo {
    pub type_id: isize,
    pub reference_depth: usize,
}

impl TypeInfo {
    pub fn new(type_id: isize, reference_depth: usize) -> (t: TypeInfo)
        ensures
            t == (TypeInfo { type_id, reference_depth }),
    {
        TypeInfo { type_id, reference_depth }
    }
}

/// A variable: its offset in the stack frame and its type.
#[derive(Clone, Copy, Debug, PartialEq, Eq, Structural)]
pub struct LocalVariable {
    pub offset: isize,
    pub type_info: TypeInfo,
}

impl LocalVariable {
    pub fn new(offset: isize, type_id: isize, reference_depth: usize) -> (v: LocalVariable)
        ensures
            v == (LocalVariable { offset, type_info: TypeInfo { type_id, reference_depth } }),
    {
        LocalVariable { offset, type_info: TypeInfo { type_id, reference_depth } }
    }

    pub fn from_type_info(offset: isize, type_info: TypeInfo) -> (v: LocalVariable)
        ensures
            v == (LocalVariable { offset, type_info }),
    {
        LocalVariable { offset, type_info }
    }
}

} // verus!
