//! Integer negation.

use vstd::prelude::*;
use vstd::string::StringExecFns;
use crate::assembler::Assembly;
use crate::builtin::{builtin_function_id, f_id, has_signature, slice_params, BuiltinInlineFunction, FunctionSignature, SelfType};
use crate::builtin::types::integer::{int_type_id, IntType};
use crate::common::{address_text, value_ref, ByteSize, FunctionID, LocalAddress, TypeID, TypeRef};
use crate::compiler::global_tracker::GlobalTracker;

verus! {

/// Unique id of `IntPrefixSubtract`.
pub const INT_PREFIX_SUBTRACT_UID: u16 = 13;

/// Implements the integer prefix subtract operation
pub struct IntPrefixSubtract;

/// The text `p_sub` generates: `ret = -lhs`.
pub open spec fn int_prefix_subtract_text(lhs: LocalAddress, ret: LocalAddress) -> Seq<char> {
    "    mov rax, qword "@ + address_text(lhs) + "\n    neg rax\n    mov qword "@
        + address_text(ret) + ", rax\n"@
}

impl BuiltinInlineFunction for IntPrefixSubtract {
    open spec fn function_id(&self) -> FunctionID {
        builtin_function_id(INT_PREFIX_SUBTRACT_UID)
    }

    open spec fn function_name(&self) -> Seq<char> {
        "p_sub"@
    }

    open spec fn owner_type(&self) -> Option<TypeID> {
        Some(int_type_id())
    }

    open spec fn arity(&self) -> nat {
        1
    }

    open spec fn writes_return(&self) -> bool {
        true
    }

    open spec fn tags_used(&self) -> nat {
        0
    }

    fn id(&self) -> (r: FunctionID) {
        f_id(INT_PREFIX_SUBTRACT_UID)
    }

    fn name(&self) -> (r: &'static str) {
        "p_sub"
    }

    open spec fn signature_spec(&self) -> (SelfType, Seq<(Seq<char>, TypeRef)>, Option<TypeRef>) {
        (SelfType::CopySelf, seq![("lhs"@, value_ref(int_type_id()))], Some(value_ref(int_type_id())))
    }

    fn signature(&self) -> (s: FunctionSignature)
        ensures
            has_signature(s, SelfType::CopySelf, seq![("lhs"@, value_ref(int_type_id()))], Some(value_ref(int_type_id()))),
    {
        let args: [(&str, TypeRef); 1] = [("lhs", IntType::id().immediate_single())];
        let s = FunctionSignature::new_inline_builtin(SelfType::CopySelf, &args, Some(IntType::id().immediate_single()));
        proof {
            assert(slice_params(args@) =~= seq![("lhs"@, value_ref(int_type_id()))]);
        }
        s
    }

    open spec fn inline_text(&self, args: Seq<LocalAddress>, return_into: Option<LocalAddress>, sz: ByteSize, counter: nat) -> Seq<char> {
        int_prefix_subtract_text(args[0], return_into.unwrap())
    }

    fn inline(
        &self,
        args: &[LocalAddress],
        return_into: Option<LocalAddress>,
        gt: &mut GlobalTracker,
        sz: ByteSize,
    ) -> (a: Assembly)
        ensures
            a@ == int_prefix_subtract_text(args@[0], return_into.unwrap()),
            final(gt).readonly_names() == old(gt).readonly_names(),
            final(gt).readonly_section() == old(gt).readonly_section(),
    {
        let lhs = args[0];
        let ret = return_into.unwrap();
        let mut s = String::new();
        s.append("    mov rax, qword ");
        lhs.append_text(&mut s);
        s.append("\n    neg rax\n    mov qword ");
        ret.append_text(&mut s);
        s.append(", rax\n");
        proof {
            assert(s@ =~= int_prefix_subtract_text(lhs, ret));
        }
        s
    }

    fn parent_type(&self) -> (r: Option<TypeID>) {
        Some(IntType::id())
    }
}

} // verus!
