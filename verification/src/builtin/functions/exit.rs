//! `exit`: ends the program with an exit code.

use vstd::prelude::*;
use vstd::string::StringExecFns;
use crate::assembler::Assembly;
use crate::builtin::types::integer::{IntType, INT_TYPE_UID};
use crate::builtin::{has_signature,
    builtin_function_id, builtin_type_id, f_id, slice_params, BuiltinInlineFunction,
    FunctionSignature, SelfType,
};
use crate::common::{address_text, ByteSize, FunctionID, LocalAddress, TypeID, TypeRef, Indirection};
use crate::compiler::global_tracker::GlobalTracker;

verus! {

/// Unique id of `exit`.
pub const EXIT_FUNCTION_UID: u16 = 2;

/// `exit` function: ends the program with the given exit code.
pub struct ExitFunction;

/// The text `exit` generates for an argument at `lhs`.
pub open spec fn exit_text(lhs: LocalAddress) -> Seq<char> {
    "    mov rax, 60\n    mov rdi, "@ + address_text(lhs) + "\n    syscall\n"@
}

impl ExitFunction {
    pub fn id() -> (f: FunctionID)
        ensures
            f == builtin_function_id(EXIT_FUNCTION_UID),
    {
        f_id(EXIT_FUNCTION_UID)
    }
}

impl BuiltinInlineFunction for ExitFunction {
    open spec fn function_id(&self) -> FunctionID {
        builtin_function_id(EXIT_FUNCTION_UID)
    }

    open spec fn function_name(&self) -> Seq<char> {
        "exit"@
    }

    open spec fn owner_type(&self) -> Option<TypeID> {
        None
    }

    open spec fn arity(&self) -> nat {
        1
    }

    open spec fn writes_return(&self) -> bool {
        false
    }

    open spec fn tags_used(&self) -> nat {
        0
    }

    fn id(&self) -> (r: FunctionID) {
        Self::id()
    }

    fn name(&self) -> (r: &'static str) {
        "exit"
    }

    open spec fn signature_spec(&self) -> (SelfType, Seq<(Seq<char>, TypeRef)>, Option<TypeRef>) {
        (SelfType::NoSelf, seq![("lhs"@, TypeRef { type_id: builtin_type_id(INT_TYPE_UID), element_count: 1, indirection: Indirection(0) })], None)
    }

    fn signature(&self) -> (s: FunctionSignature)
        ensures
            has_signature(s, SelfType::NoSelf, seq![("lhs"@, TypeRef { type_id: builtin_type_id(INT_TYPE_UID), element_count: 1, indirection: Indirection(0) })], None),
    {
        let args = [("lhs", IntType::id().immediate_single())];
        let s = FunctionSignature::new_inline_builtin(SelfType::NoSelf, &args, None);
        proof {
            assert(slice_params(args@) =~= seq![
                ("lhs"@, TypeRef { type_id: builtin_type_id(INT_TYPE_UID), element_count: 1, indirection: Indirection(0) }),
            ]);
        }
        s
    }

    open spec fn inline_text(&self, args: Seq<LocalAddress>, return_into: Option<LocalAddress>, sz: ByteSize, counter: nat) -> Seq<char> {
        exit_text(args[0])
    }

    fn inline(
        &self,
        args: &[LocalAddress],
        return_into: Option<LocalAddress>,
        gt: &mut GlobalTracker,
        sz: ByteSize,
    ) -> (a: Assembly)
        ensures
            a@ == exit_text(args@[0]),
            *final(gt) == *old(gt),
    {
        let lhs = args[0];
        let mut s = String::new();
        s.append("    mov rax, 60\n    mov rdi, ");
        lhs.append_text(&mut s);
        s.append("\n    syscall\n");
        proof {
            assert(s@ =~= exit_text(lhs));
        }
        s
    }

    fn parent_type(&self) -> (r: Option<TypeID>) {
        None
    }
}

} // verus!
