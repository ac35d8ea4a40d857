//! Integer division.

use vstd::prelude::*;
use vstd::string::StringExecFns;
use crate::assembler::Assembly;
use crate::builtin::{builtin_function_id, f_id, has_signature, slice_params, BuiltinInlineFunction, FunctionSignature, SelfType};
use crate::builtin::types::integer::{int_type_id, IntType};
use crate::common::{address_text, pointer_ref, value_ref, ByteSize, FunctionID, LocalAddress, TypeID, TypeRef};
use crate::compiler::global_tracker::GlobalTracker;

verus! {

/// Unique id of `IntDiv`.
pub const INT_DIV_UID: u16 = 24;

/// Implements the integer division operation
pub struct IntDiv;

/// The text `div` generates: `ret = lhs / rhs`.
pub open spec fn int_div_text(
    lhs: LocalAddress,
    rhs: LocalAddress,
    ret: LocalAddress,
) -> Seq<char> {
    "    mov rax, qword "@ + address_text(lhs) + "\n    mov rdx, 0\n    mov rbx, qword "@
        + address_text(rhs) + "\n    idiv rbx\n    mov qword "@ + address_text(ret) + ", rax\n"@
}

impl BuiltinInlineFunction for IntDiv {
    open spec fn function_id(&self) -> FunctionID {
        builtin_function_id(INT_DIV_UID)
    }

    open spec fn function_name(&self) -> Seq<char> {
        "div"@
    }

    open spec fn owner_type(&self) -> Option<TypeID> {
        Some(int_type_id())
    }

    open spec fn arity(&self) -> nat {
        2
    }

    open spec fn writes_return(&self) -> bool {
        true
    }

    open spec fn tags_used(&self) -> nat {
        0
    }

    fn id(&self) -> (r: FunctionID) {
        f_id(INT_DIV_UID)
    }

    fn name(&self) -> (r: &'static str) {
        "div"
    }

    open spec fn signature_spec(&self) -> (SelfType, Seq<(Seq<char>, TypeRef)>, Option<TypeRef>) {
        (SelfType::CopySelf, seq![("lhs"@, value_ref(int_type_id())), ("rhs"@, value_ref(int_type_id()))], Some(value_ref(int_type_id())))
    }

    fn signature(&self) -> (s: FunctionSignature)
        ensures
            has_signature(s, SelfType::CopySelf, seq![("lhs"@, value_ref(int_type_id())), ("rhs"@, value_ref(int_type_id()))], Some(value_ref(int_type_id()))),
    {
        let args: [(&str, TypeRef); 2] = [("lhs", IntType::id().immediate_single()), ("rhs", IntType::id().immediate_single())];
        let s = FunctionSignature::new_inline_builtin(SelfType::CopySelf, &args, Some(IntType::id().immediate_single()));
        proof {
            assert(slice_params(args@) =~= seq![("lhs"@, value_ref(int_type_id())), ("rhs"@, value_ref(int_type_id()))]);
        }
        s
    }

    open spec fn inline_text(&self, args: Seq<LocalAddress>, return_into: Option<LocalAddress>, sz: ByteSize, counter: nat) -> Seq<char> {
        int_div_text(args[0], args[1], return_into.unwrap())
    }

    fn inline(
        &self,
        args: &[LocalAddress],
        return_into: Option<LocalAddress>,
        gt: &mut GlobalTracker,
        sz: ByteSize,
    ) -> (a: Assembly)
        ensures
            a@ == int_div_text(args@[0], args@[1], return_into.unwrap()),
            final(gt).readonly_names() == old(gt).readonly_names(),
            final(gt).readonly_section() == old(gt).readonly_section(),
    {
        let lhs = args[0];
        let rhs = args[1];
        let ret = return_into.unwrap();
        let mut s = String::new();
        s.append("    mov rax, qword ");
        lhs.append_text(&mut s);
        s.append("\n    mov rdx, 0\n    mov rbx, qword ");
        rhs.append_text(&mut s);
        s.append("\n    idiv rbx\n    mov qword ");
        ret.append_text(&mut s);
        s.append(", rax\n");
        proof {
            assert(s@ =~= int_div_text(lhs, rhs, ret));
        }
        s
    }

    fn parent_type(&self) -> (r: Option<TypeID>) {
        Some(IntType::id())
    }
}

/// Unique id of `IntAsDiv`.
pub const INT_AS_DIV_UID: u16 = 25;

/// Implements the integer division assign operation
pub struct IntAsDiv;

/// The text `as_div` generates: `*lhs = *lhs / rhs`.
pub open spec fn int_as_div_text(lhs: LocalAddress, rhs: LocalAddress) -> Seq<char> {
    "    mov rcx, qword "@ + address_text(lhs)
        + "\n    mov rax, qword [rcx]\n    mov rdx, 0\n    mov rbx, qword "@ + address_text(rhs)
        + "\n    idiv rbx\n    mov qword [rcx], rax\n"@
}

impl BuiltinInlineFunction for IntAsDiv {
    open spec fn function_id(&self) -> FunctionID {
        builtin_function_id(INT_AS_DIV_UID)
    }

    open spec fn function_name(&self) -> Seq<char> {
        "as_div"@
    }

    open spec fn owner_type(&self) -> Option<TypeID> {
        Some(int_type_id())
    }

    open spec fn arity(&self) -> nat {
        2
    }

    open spec fn writes_return(&self) -> bool {
        false
    }

    open spec fn tags_used(&self) -> nat {
        0
    }

    fn id(&self) -> (r: FunctionID) {
        f_id(INT_AS_DIV_UID)
    }

    fn name(&self) -> (r: &'static str) {
        "as_div"
    }

    open spec fn signature_spec(&self) -> (SelfType, Seq<(Seq<char>, TypeRef)>, Option<TypeRef>) {
        (SelfType::RefSelf, seq![("lhs"@, pointer_ref(int_type_id())), ("rhs"@, value_ref(int_type_id()))], None)
    }

    fn signature(&self) -> (s: FunctionSignature)
        ensures
            has_signature(s, SelfType::RefSelf, seq![("lhs"@, pointer_ref(int_type_id())), ("rhs"@, value_ref(int_type_id()))], None),
    {
        let args: [(&str, TypeRef); 2] = [("lhs", IntType::id().with_indirection_single(1)), ("rhs", IntType::id().immediate_single())];
        let s = FunctionSignature::new_inline_builtin(SelfType::RefSelf, &args, None);
        proof {
            assert(slice_params(args@) =~= seq![("lhs"@, pointer_ref(int_type_id())), ("rhs"@, value_ref(int_type_id()))]);
        }
        s
    }

    open spec fn inline_text(&self, args: Seq<LocalAddress>, return_into: Option<LocalAddress>, sz: ByteSize, counter: nat) -> Seq<char> {
        int_as_div_text(args[0], args[1])
    }

    fn inline(
        &self,
        args: &[LocalAddress],
        return_into: Option<LocalAddress>,
        gt: &mut GlobalTracker,
        sz: ByteSize,
    ) -> (a: Assembly)
        ensures
            a@ == int_as_div_text(args@[0], args@[1]),
            final(gt).readonly_names() == old(gt).readonly_names(),
            final(gt).readonly_section() == old(gt).readonly_section(),
    {
        let lhs = args[0];
        let rhs = args[1];
        let mut s = String::new();
        s.append("    mov rcx, qword ");
        lhs.append_text(&mut s);
        s.append("\n    mov rax, qword [rcx]\n    mov rdx, 0\n    mov rbx, qword ");
        rhs.append_text(&mut s);
        s.append("\n    idiv rbx\n    mov qword [rcx], rax\n");
        proof {
            assert(s@ =~= int_as_div_text(lhs, rhs));
        }
        s
    }

    fn parent_type(&self) -> (r: Option<TypeID>) {
        Some(IntType::id())
    }
}

} // verus!
