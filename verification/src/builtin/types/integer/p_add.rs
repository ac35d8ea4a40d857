//! Integer prefix addition (single-file form).

use vstd::prelude::*;
use crate::assembler::Assembly;
use crate::builtin::{builtin_function_id, f_id, has_signature, slice_params, BuiltinInlineFunction, FunctionSignature, SelfType};
use crate::builtin::types::integer::{int_type_id, IntType};
use crate::common::{value_ref, ByteSize, FunctionID, LocalAddress, TypeID, TypeRef};
use crate::compiler::global_tracker::GlobalTracker;

verus! {

/// Unique id of `IntPAdd`.
pub const INT_P_ADD_UID: u16 = 27;

/// Implements the integer prefix add operation (single-file form)
pub struct IntPAdd;

/// The text `p_add` generates: nothing.
pub open spec fn int_p_add_text() -> Seq<char> {
    Seq::empty()
}

impl BuiltinInlineFunction for IntPAdd {
    open spec fn function_id(&self) -> FunctionID {
        builtin_function_id(INT_P_ADD_UID)
    }

    open spec fn function_name(&self) -> Seq<char> {
        "p_add"@
    }

    open spec fn owner_type(&self) -> Option<TypeID> {
        Some(int_type_id())
    }

    open spec fn arity(&self) -> nat {
        0
    }

    open spec fn writes_return(&self) -> bool {
        false
    }

    open spec fn tags_used(&self) -> nat {
        0
    }

    fn id(&self) -> (r: FunctionID) {
        f_id(INT_P_ADD_UID)
    }

    fn name(&self) -> (r: &'static str) {
        "p_add"
    }

    open spec fn signature_spec(&self) -> (SelfType, Seq<(Seq<char>, TypeRef)>, Option<TypeRef>) {
        (SelfType::CopySelf, seq![("lhs"@, value_ref(int_type_id()))], Some(value_ref(int_type_id())))
    }

    fn signature(&self) -> (s: FunctionSignature)
        ensures
            has_signature(s, SelfType::CopySelf, seq![("lhs"@, value_ref(int_type_id()))], Some(value_ref(int_type_id()))),
    {
        let args: [(&str, TypeRef); 1] = [("lhs", IntType::id().immediate_single())];
        let s = FunctionSignature::new_inline_builtin(SelfType::CopySelf, &args, Some(IntType::id().immediate_single()));
        proof {
            assert(slice_params(args@) =~= seq![("lhs"@, value_ref(int_type_id()))]);
        }
        s
    }

    open spec fn inline_text(&self, args: Seq<LocalAddress>, return_into: Option<LocalAddress>, sz: ByteSize, counter: nat) -> Seq<char> {
        int_p_add_text()
    }

    fn inline(
        &self,
        args: &[LocalAddress],
        return_into: Option<LocalAddress>,
        gt: &mut GlobalTracker,
        sz: ByteSize,
    ) -> (a: Assembly)
        ensures
            a@ == int_p_add_text(),
            final(gt).readonly_names() == old(gt).readonly_names(),
            final(gt).readonly_section() == old(gt).readonly_section(),
    {
        let mut s = String::new();
        proof {
            assert(s@ =~= int_p_add_text());
        }
        s
    }

    fn parent_type(&self) -> (r: Option<TypeID>) {
        Some(IntType::id())
    }
}

} // verus!
