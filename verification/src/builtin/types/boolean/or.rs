//! Boolean or.

use vstd::prelude::*;
use vstd::string::StringExecFns;
use crate::assembler::Assembly;
use crate::builtin::{builtin_function_id, f_id, has_signature, slice_params, BuiltinInlineFunction, FunctionSignature, SelfType};
use crate::builtin::types::boolean::{bool_type_id, BoolType, boolean_signature};
use crate::common::{address_text, pointer_ref, value_ref, ByteSize, FunctionID, LocalAddress, TypeID, TypeRef};
use crate::compiler::global_tracker::GlobalTracker;

verus! {

/// Unique id of `BoolOr`.
pub const BOOL_OR_UID: u16 = 9;

/// Implements the boolean or operation
pub struct BoolOr;

/// The text `or` generates: `ret = lhs || rhs`.
pub open spec fn bool_or_text(
    lhs: LocalAddress,
    rhs: LocalAddress,
    ret: LocalAddress,
) -> Seq<char> {
    "    mov al, byte "@ + address_text(lhs) + "\n    or al, byte "@ + address_text(rhs)
        + "\n    mov byte "@ + address_text(ret) + ", al\n"@
}

impl BuiltinInlineFunction for BoolOr {
    open spec fn function_id(&self) -> FunctionID {
        builtin_function_id(BOOL_OR_UID)
    }

    open spec fn function_name(&self) -> Seq<char> {
        "or"@
    }

    open spec fn owner_type(&self) -> Option<TypeID> {
        Some(bool_type_id())
    }

    open spec fn arity(&self) -> nat {
        2
    }

    open spec fn writes_return(&self) -> bool {
        true
    }

    open spec fn tags_used(&self) -> nat {
        0
    }

    fn id(&self) -> (r: FunctionID) {
        f_id(BOOL_OR_UID)
    }

    fn name(&self) -> (r: &'static str) {
        "or"
    }

    open spec fn signature_spec(&self) -> (SelfType, Seq<(Seq<char>, TypeRef)>, Option<TypeRef>) {
        (SelfType::CopySelf, seq![("lhs"@, value_ref(bool_type_id())), ("rhs"@, value_ref(bool_type_id()))], Some(value_ref(bool_type_id())))
    }

    fn signature(&self) -> (s: FunctionSignature)
        ensures
            has_signature(s, SelfType::CopySelf, seq![("lhs"@, value_ref(bool_type_id())), ("rhs"@, value_ref(bool_type_id()))], Some(value_ref(bool_type_id()))),
    {
        boolean_signature()
    }

    open spec fn inline_text(&self, args: Seq<LocalAddress>, return_into: Option<LocalAddress>, sz: ByteSize, counter: nat) -> Seq<char> {
        bool_or_text(args[0], args[1], return_into.unwrap())
    }

    fn inline(
        &self,
        args: &[LocalAddress],
        return_into: Option<LocalAddress>,
        gt: &mut GlobalTracker,
        sz: ByteSize,
    ) -> (a: Assembly)
        ensures
            a@ == bool_or_text(args@[0], args@[1], return_into.unwrap()),
            final(gt).readonly_names() == old(gt).readonly_names(),
            final(gt).readonly_section() == old(gt).readonly_section(),
    {
        let lhs = args[0];
        let rhs = args[1];
        let ret = return_into.unwrap();
        let mut s = String::new();
        s.append("    mov al, byte ");
        lhs.append_text(&mut s);
        s.append("\n    or al, byte ");
        rhs.append_text(&mut s);
        s.append("\n    mov byte ");
        ret.append_text(&mut s);
        s.append(", al\n");
        proof {
            assert(s@ =~= bool_or_text(lhs, rhs, ret));
        }
        s
    }

    fn parent_type(&self) -> (r: Option<TypeID>) {
        Some(BoolType::id())
    }
}

/// Unique id of `BoolAssignOr`.
pub const BOOL_ASSIGN_OR_UID: u16 = 10;

/// Implements the boolean or-assign operation
pub struct BoolAssignOr;

/// The text `as_or` generates: `*lhs = *lhs || rhs`.
pub open spec fn bool_assign_or_text(lhs: LocalAddress, rhs: LocalAddress) -> Seq<char> {
    "    mov rdx, qword "@ + address_text(lhs) + "\n    mov al, byte [rdx]\n    or al, byte "@
        + address_text(rhs) + "\n    mov byte [rdx], al\n"@
}

impl BuiltinInlineFunction for BoolAssignOr {
    open spec fn function_id(&self) -> FunctionID {
        builtin_function_id(BOOL_ASSIGN_OR_UID)
    }

    open spec fn function_name(&self) -> Seq<char> {
        "as_or"@
    }

    open spec fn owner_type(&self) -> Option<TypeID> {
        Some(bool_type_id())
    }

    open spec fn arity(&self) -> nat {
        2
    }

    open spec fn writes_return(&self) -> bool {
        false
    }

    open spec fn tags_used(&self) -> nat {
        0
    }

    fn id(&self) -> (r: FunctionID) {
        f_id(BOOL_ASSIGN_OR_UID)
    }

    fn name(&self) -> (r: &'static str) {
        "as_or"
    }

    open spec fn signature_spec(&self) -> (SelfType, Seq<(Seq<char>, TypeRef)>, Option<TypeRef>) {
        (SelfType::RefSelf, seq![("lhs"@, pointer_ref(bool_type_id())), ("rhs"@, value_ref(bool_type_id()))], None)
    }

    fn signature(&self) -> (s: FunctionSignature)
        ensures
            has_signature(s, SelfType::RefSelf, seq![("lhs"@, pointer_ref(bool_type_id())), ("rhs"@, value_ref(bool_type_id()))], None),
    {
        let args: [(&str, TypeRef); 2] = [("lhs", BoolType::id().with_indirection_single(1)), ("rhs", BoolType::id().immediate_single())];
        let s = FunctionSignature::new_inline_builtin(SelfType::RefSelf, &args, None);
        proof {
            assert(slice_params(args@) =~= seq![("lhs"@, pointer_ref(bool_type_id())), ("rhs"@, value_ref(bool_type_id()))]);
        }
        s
    }

    open spec fn inline_text(&self, args: Seq<LocalAddress>, return_into: Option<LocalAddress>, sz: ByteSize, counter: nat) -> Seq<char> {
        bool_assign_or_text(args[0], args[1])
    }

    fn inline(
        &self,
        args: &[LocalAddress],
        return_into: Option<LocalAddress>,
        gt: &mut GlobalTracker,
        sz: ByteSize,
    ) -> (a: Assembly)
        ensures
            a@ == bool_assign_or_text(args@[0], args@[1]),
            final(gt).readonly_names() == old(gt).readonly_names(),
            final(gt).readonly_section() == old(gt).readonly_section(),
    {
        let lhs = args[0];
        let rhs = args[1];
        let mut s = String::new();
        s.append("    mov rdx, qword ");
        lhs.append_text(&mut s);
        s.append("\n    mov al, byte [rdx]\n    or al, byte ");
        rhs.append_text(&mut s);
        s.append("\n    mov byte [rdx], al\n");
        proof {
            assert(s@ =~= bool_assign_or_text(lhs, rhs));
        }
        s
    }

    fn parent_type(&self) -> (r: Option<TypeID>) {
        Some(BoolType::id())
    }
}

} // verus!
