//! Boolean and.

use vstd::prelude::*;
use vstd::string::StringExecFns;
use crate::assembler::Assembly;
use crate::builtin::{builtin_function_id, f_id, has_signature, slice_params, BuiltinInlineFunction, FunctionSignature, SelfType};
use crate::builtin::types::boolean::{bool_type_id, BoolType, boolean_signature};
use crate::builtin::types::boolean::printb::{PrintB, PRINT_B_UID};
use crate::common::{address_text, pointer_ref, value_ref, ByteSize, FunctionID, LocalAddress, TypeID, TypeRef};
use crate::compiler::global_tracker::{unique_tag, GlobalTracker};

verus! {

/// Unique id of `BoolAnd`.
pub const BOOL_AND_UID: u16 = 7;

/// Implements the boolean and operation
pub struct BoolAnd;

/// The text `and` generates: `ret = lhs && rhs`.
pub open spec fn bool_and_text(
    lhs: LocalAddress,
    rhs: LocalAddress,
    ret: LocalAddress,
    t0: Seq<char>,
    t1: Seq<char>,
) -> Seq<char> {
    "    mov al, byte "@ + address_text(lhs) + "\n    cmp al, 0\n    jz "@ + t0
        + "\n    mov al, byte "@ + address_text(rhs) + "\n    mov byte "@ + address_text(ret)
        + ", al\n    jmp "@ + t1 + "\n    "@ + t0 + ":\n    mov byte "@ + address_text(ret)
        + ", 0\n    "@ + t1 + ":\n"@
}

impl BuiltinInlineFunction for BoolAnd {
    open spec fn function_id(&self) -> FunctionID {
        builtin_function_id(BOOL_AND_UID)
    }

    open spec fn function_name(&self) -> Seq<char> {
        "and"@
    }

    open spec fn owner_type(&self) -> Option<TypeID> {
        Some(bool_type_id())
    }

    open spec fn arity(&self) -> nat {
        2
    }

    open spec fn writes_return(&self) -> bool {
        true
    }

    open spec fn tags_used(&self) -> nat {
        2
    }

    fn id(&self) -> (r: FunctionID) {
        f_id(BOOL_AND_UID)
    }

    fn name(&self) -> (r: &'static str) {
        "and"
    }

    open spec fn signature_spec(&self) -> (SelfType, Seq<(Seq<char>, TypeRef)>, Option<TypeRef>) {
        (SelfType::CopySelf, seq![("lhs"@, value_ref(bool_type_id())), ("rhs"@, value_ref(bool_type_id()))], Some(value_ref(bool_type_id())))
    }

    fn signature(&self) -> (s: FunctionSignature)
        ensures
            has_signature(s, SelfType::CopySelf, seq![("lhs"@, value_ref(bool_type_id())), ("rhs"@, value_ref(bool_type_id()))], Some(value_ref(bool_type_id()))),
    {
        boolean_signature()
    }

    open spec fn inline_text(&self, args: Seq<LocalAddress>, return_into: Option<LocalAddress>, sz: ByteSize, counter: nat) -> Seq<char> {
        bool_and_text(
            args[0],
            args[1],
            return_into.unwrap(),
            unique_tag(builtin_function_id(PRINT_B_UID), counter),
            unique_tag(builtin_function_id(PRINT_B_UID), counter + 1),
            )
    }

    fn inline(
        &self,
        args: &[LocalAddress],
        return_into: Option<LocalAddress>,
        gt: &mut GlobalTracker,
        sz: ByteSize,
    ) -> (a: Assembly)
        ensures
            a@ == bool_and_text(
                args@[0],
                args@[1],
                return_into.unwrap(),
                unique_tag(builtin_function_id(PRINT_B_UID), old(gt).tag_counter()),
                unique_tag(builtin_function_id(PRINT_B_UID), old(gt).tag_counter() + 1),
            ),
            final(gt).readonly_names() == old(gt).readonly_names(),
            final(gt).readonly_section() == old(gt).readonly_section(),
    {
        let lhs = args[0];
        let rhs = args[1];
        let ret = return_into.unwrap();
        let t0 = gt.get_unique_tag(PrintB::id());
        let t1 = gt.get_unique_tag(PrintB::id());
        let mut s = String::new();
        s.append("    mov al, byte ");
        lhs.append_text(&mut s);
        s.append("\n    cmp al, 0\n    jz ");
        s.append(t0.as_str());
        s.append("\n    mov al, byte ");
        rhs.append_text(&mut s);
        s.append("\n    mov byte ");
        ret.append_text(&mut s);
        s.append(", al\n    jmp ");
        s.append(t1.as_str());
        s.append("\n    ");
        s.append(t0.as_str());
        s.append(":\n    mov byte ");
        ret.append_text(&mut s);
        s.append(", 0\n    ");
        s.append(t1.as_str());
        s.append(":\n");
        proof {
            assert(s@ =~= bool_and_text(lhs, rhs, ret, t0@, t1@));
        }
        s
    }

    fn parent_type(&self) -> (r: Option<TypeID>) {
        Some(BoolType::id())
    }
}

/// Unique id of `BoolAssignAnd`.
pub const BOOL_ASSIGN_AND_UID: u16 = 8;

/// Implements the boolean and-assign operation
pub struct BoolAssignAnd;

/// The text `as_and` generates: `*lhs = *lhs && rhs`.
pub open spec fn bool_assign_and_text(
    lhs: LocalAddress,
    rhs: LocalAddress,
    t0: Seq<char>,
) -> Seq<char> {
    "    mov al, byte "@ + address_text(rhs) + "\n    cmp al, 0\n    jnz "@ + t0
        + "\n    mov rax, qword "@ + address_text(lhs) + "\n    mov byte [rax], 0\n    "@ + t0
        + ":\n"@
}

impl BuiltinInlineFunction for BoolAssignAnd {
    open spec fn function_id(&self) -> FunctionID {
        builtin_function_id(BOOL_ASSIGN_AND_UID)
    }

    open spec fn function_name(&self) -> Seq<char> {
        "as_and"@
    }

    open spec fn owner_type(&self) -> Option<TypeID> {
        Some(bool_type_id())
    }

    open spec fn arity(&self) -> nat {
        2
    }

    open spec fn writes_return(&self) -> bool {
        false
    }

    open spec fn tags_used(&self) -> nat {
        1
    }

    fn id(&self) -> (r: FunctionID) {
        f_id(BOOL_ASSIGN_AND_UID)
    }

    fn name(&self) -> (r: &'static str) {
        "as_and"
    }

    open spec fn signature_spec(&self) -> (SelfType, Seq<(Seq<char>, TypeRef)>, Option<TypeRef>) {
        (SelfType::RefSelf, seq![("lhs"@, pointer_ref(bool_type_id())), ("rhs"@, value_ref(bool_type_id()))], None)
    }

    fn signature(&self) -> (s: FunctionSignature)
        ensures
            has_signature(s, SelfType::RefSelf, seq![("lhs"@, pointer_ref(bool_type_id())), ("rhs"@, value_ref(bool_type_id()))], None),
    {
        let args: [(&str, TypeRef); 2] = [("lhs", BoolType::id().with_indirection_single(1)), ("rhs", BoolType::id().immediate_single())];
        let s = FunctionSignature::new_inline_builtin(SelfType::RefSelf, &args, None);
        proof {
            assert(slice_params(args@) =~= seq![("lhs"@, pointer_ref(bool_type_id())), ("rhs"@, value_ref(bool_type_id()))]);
        }
        s
    }

    open spec fn inline_text(&self, args: Seq<LocalAddress>, return_into: Option<LocalAddress>, sz: ByteSize, counter: nat) -> Seq<char> {
        bool_assign_and_text(
            args[0],
            args[1],
            unique_tag(builtin_function_id(PRINT_B_UID), counter),
            )
    }

    fn inline(
        &self,
        args: &[LocalAddress],
        return_into: Option<LocalAddress>,
        gt: &mut GlobalTracker,
        sz: ByteSize,
    ) -> (a: Assembly)
        ensures
            a@ == bool_assign_and_text(
                args@[0],
                args@[1],
                unique_tag(builtin_function_id(PRINT_B_UID), old(gt).tag_counter()),
            ),
            final(gt).readonly_names() == old(gt).readonly_names(),
            final(gt).readonly_section() == old(gt).readonly_section(),
    {
        let lhs = args[0];
        let rhs = args[1];
        let t0 = gt.get_unique_tag(PrintB::id());
        let mut s = String::new();
        s.append("    mov al, byte ");
        rhs.append_text(&mut s);
        s.append("\n    cmp al, 0\n    jnz ");
        s.append(t0.as_str());
        s.append("\n    mov rax, qword ");
        lhs.append_text(&mut s);
        s.append("\n    mov byte [rax], 0\n    ");
        s.append(t0.as_str());
        s.append(":\n");
        proof {
            assert(s@ =~= bool_assign_and_text(lhs, rhs, t0@));
        }
        s
    }

    fn parent_type(&self) -> (r: Option<TypeID>) {
        Some(BoolType::id())
    }
}

} // verus!
