//! Builtin free functions.

use vstd::prelude::*;
use crate::builtin::SelfType;
use crate::common::TypeRef;
use crate::common::{FunctionID, TypeID};
use crate::builtin::BuiltinInlineFunction;
use crate::compiler::global_table::GlobalTable;
use exit::ExitFunction;
use printnl::PrintNL;

pub mod exit;
pub mod printnl;

verus! {

/// The entries `register_functions` adds: id, name and parent type of each function.
pub open spec fn free_function_defs() -> Seq<(FunctionID, Seq<char>, Option<TypeID>)> {
    seq![
        (ExitFunction.function_id(), ExitFunction.function_name(), ExitFunction.owner_type()),
        (PrintNL.function_id(), PrintNL.function_name(), PrintNL.owner_type()),
    ]
}

/// The signatures `register_functions` registers, in order.
pub open spec fn free_function_signatures() -> Seq<(SelfType, Seq<(Seq<char>, TypeRef)>, Option<TypeRef>)> {
    seq![
        ExitFunction.signature_spec(),
        PrintNL.signature_spec(),
    ]
}

/// Registers the builtin free functions in the `GlobalTable`.
pub fn register_functions(global_table: &mut GlobalTable)
    ensures
        final(global_table).type_defs() == old(global_table).type_defs(),
        final(global_table).function_defs() == old(global_table).function_defs() + free_function_defs(),
        final(global_table).function_signatures() == old(global_table).function_signatures()
            + free_function_signatures(),
{
    global_table.register_inline_function(&ExitFunction);
    global_table.register_inline_function(&PrintNL);
    proof {
        assert(global_table.function_defs() =~= old(global_table).function_defs() + free_function_defs());
        assert(global_table.function_signatures() =~= old(global_table).function_signatures() + free_function_signatures());
    }
}

} // verus!
