//! Integer subtraction (single-file form).

use vstd::prelude::*;
use vstd::string::StringExecFns;
use crate::assembler::Assembly;
use crate::builtin::{builtin_function_id, f_id, has_signature, slice_params, BuiltinInlineFunction, FunctionSignature, SelfType};
use crate::builtin::basic_int::basic_int_type_id;
use crate::common::{address_text, value_ref, ByteSize, FunctionID, LocalAddress, TypeID, TypeRef};
use crate::compiler::global_tracker::GlobalTracker;
use crate::builtin::basic_int::IntType;

verus! {

/// Unique id of `IntSub`.
pub const INT_SUB_UID: u16 = 31;

/// Implements integer subtraction (single-file form)
pub struct IntSub;

/// The text `sub` generates: `ret = lhs - rhs`, with no trailing newline.
pub open spec fn int_sub_text(
    lhs: LocalAddress,
    rhs: LocalAddress,
    ret: LocalAddress,
) -> Seq<char> {
    "    mov rax, qword "@ + address_text(lhs) + "\n    sub rax, qword "@ + address_text(rhs)
        + "\n    mov qword "@ + address_text(ret) + ", rax"@
}

impl BuiltinInlineFunction for IntSub {
    open spec fn function_id(&self) -> FunctionID {
        builtin_function_id(INT_SUB_UID)
    }

    open spec fn function_name(&self) -> Seq<char> {
        "sub"@
    }

    open spec fn owner_type(&self) -> Option<TypeID> {
        Some(basic_int_type_id())
    }

    open spec fn arity(&self) -> nat {
        2
    }

    open spec fn writes_return(&self) -> bool {
        true
    }

    open spec fn tags_used(&self) -> nat {
        0
    }

    fn id(&self) -> (r: FunctionID) {
        f_id(INT_SUB_UID)
    }

    fn name(&self) -> (r: &'static str) {
        "sub"
    }

    open spec fn signature_spec(&self) -> (SelfType, Seq<(Seq<char>, TypeRef)>, Option<TypeRef>) {
        (SelfType::CopySelf, seq![("lhs"@, value_ref(basic_int_type_id())), ("rhs"@, value_ref(basic_int_type_id()))], Some(value_ref(basic_int_type_id())))
    }

    fn signature(&self) -> (s: FunctionSignature)
        ensures
            has_signature(s, SelfType::CopySelf, seq![("lhs"@, value_ref(basic_int_type_id())), ("rhs"@, value_ref(basic_int_type_id()))], Some(value_ref(basic_int_type_id()))),
    {
        let args: [(&str, TypeRef); 2] = [("lhs", IntType::id().immediate_single()), ("rhs", IntType::id().immediate_single())];
        let s = FunctionSignature::new_inline_builtin(SelfType::CopySelf, &args, Some(IntType::id().immediate_single()));
        proof {
            assert(slice_params(args@) =~= seq![("lhs"@, value_ref(basic_int_type_id())), ("rhs"@, value_ref(basic_int_type_id()))]);
        }
        s
    }

    open spec fn inline_text(&self, args: Seq<LocalAddress>, return_into: Option<LocalAddress>, sz: ByteSize, counter: nat) -> Seq<char> {
        int_sub_text(args[0], args[1], return_into.unwrap())
    }

    fn inline(
        &self,
        args: &[LocalAddress],
        return_into: Option<LocalAddress>,
        gt: &mut GlobalTracker,
        sz: ByteSize,
    ) -> (a: Assembly)
        ensures
            a@ == int_sub_text(args@[0], args@[1], return_into.unwrap()),
            final(gt).readonly_names() == old(gt).readonly_names(),
            final(gt).readonly_section() == old(gt).readonly_section(),
    {
        let lhs = args[0];
        let rhs = args[1];
        let ret = return_into.unwrap();
        let mut s = String::new();
        s.append("    mov rax, qword ");
        lhs.append_text(&mut s);
        s.append("\n    sub rax, qword ");
        rhs.append_text(&mut s);
        s.append("\n    mov qword ");
        ret.append_text(&mut s);
        s.append(", rax");
        proof {
            assert(s@ =~= int_sub_text(lhs, rhs, ret));
        }
        s
    }

    fn parent_type(&self) -> (r: Option<TypeID>) {
        Some(IntType::id())
    }
}

} // verus!
