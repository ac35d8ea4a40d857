//! Boolean comparisons.

use vstd::prelude::*;
use vstd::string::StringExecFns;
use crate::assembler::Assembly;
use crate::builtin::{builtin_function_id, f_id, has_signature, BuiltinInlineFunction, FunctionSignature, SelfType};
use crate::builtin::types::boolean::{bool_type_id, BoolType, boolean_signature};
use crate::common::{TypeRef, address_text, value_ref, ByteSize, FunctionID, LocalAddress, TypeID};
use crate::compiler::global_tracker::{unique_tag, GlobalTracker};

verus! {

/// Unique id of `BoolEqual`.
pub const BOOL_EQUAL_UID: u16 = 5;

/// Implements the boolean equal operation
pub struct BoolEqual;

impl BoolEqual {
    pub fn id() -> (f: FunctionID)
        ensures
            f == builtin_function_id(BOOL_EQUAL_UID),
    {
        f_id(BOOL_EQUAL_UID)
    }
}

/// The text `eq` generates for booleans (tags: false, true, end).
pub open spec fn bool_equal_text(
    lhs: LocalAddress,
    rhs: LocalAddress,
    ret: LocalAddress,
    t0: Seq<char>,
    t1: Seq<char>,
    t2: Seq<char>,
) -> Seq<char> {
    "    cmp byte "@ + address_text(lhs) + ", 0\n    jz "@ + t0 + "\n    mov al, byte "@
        + address_text(rhs) + "\n    mov byte "@ + address_text(ret) + ", al\n    jmp "@ + t2
        + "\n    "@ + t0 + ":\n    cmp byte "@ + address_text(rhs) + ", 0\n    jnz "@ + t1
        + "\n    mov byte "@ + address_text(ret) + ", 1\n    jmp "@ + t2 + "\n    "@ + t1
        + ":\n    mov byte "@ + address_text(ret) + ", 0\n    "@ + t2 + ":\n"@
}

impl BuiltinInlineFunction for BoolEqual {
    open spec fn function_id(&self) -> FunctionID {
        builtin_function_id(BOOL_EQUAL_UID)
    }

    open spec fn function_name(&self) -> Seq<char> {
        "eq"@
    }

    open spec fn owner_type(&self) -> Option<TypeID> {
        Some(bool_type_id())
    }

    open spec fn arity(&self) -> nat {
        2
    }

    open spec fn writes_return(&self) -> bool {
        true
    }

    open spec fn tags_used(&self) -> nat {
        3
    }

    fn id(&self) -> (r: FunctionID) {
        BoolEqual::id()
    }

    fn name(&self) -> (r: &'static str) {
        "eq"
    }

    open spec fn signature_spec(&self) -> (SelfType, Seq<(Seq<char>, TypeRef)>, Option<TypeRef>) {
        (SelfType::CopySelf, seq![("lhs"@, value_ref(bool_type_id())), ("rhs"@, value_ref(bool_type_id()))], Some(value_ref(bool_type_id())))
    }

    fn signature(&self) -> (s: FunctionSignature)
        ensures
            has_signature(s, SelfType::CopySelf, seq![("lhs"@, value_ref(bool_type_id())), ("rhs"@, value_ref(bool_type_id()))], Some(value_ref(bool_type_id()))),
    {
        boolean_signature()
    }

    open spec fn inline_text(&self, args: Seq<LocalAddress>, return_into: Option<LocalAddress>, sz: ByteSize, counter: nat) -> Seq<char> {
        bool_equal_text(
            args[0],
            args[1],
            return_into.unwrap(),
            unique_tag(builtin_function_id(BOOL_EQUAL_UID), counter),
            unique_tag(builtin_function_id(BOOL_EQUAL_UID), counter + 1),
            unique_tag(builtin_function_id(BOOL_EQUAL_UID), counter + 2),
            )
    }

    fn inline(
        &self,
        args: &[LocalAddress],
        return_into: Option<LocalAddress>,
        gt: &mut GlobalTracker,
        sz: ByteSize,
    ) -> (a: Assembly)
        ensures
            a@ == bool_equal_text(
                args@[0],
                args@[1],
                return_into.unwrap(),
                unique_tag(builtin_function_id(BOOL_EQUAL_UID), old(gt).tag_counter()),
                unique_tag(builtin_function_id(BOOL_EQUAL_UID), old(gt).tag_counter() + 1),
                unique_tag(builtin_function_id(BOOL_EQUAL_UID), old(gt).tag_counter() + 2),
            ),
            final(gt).readonly_names() == old(gt).readonly_names(),
            final(gt).readonly_section() == old(gt).readonly_section(),
    {
        let lhs = args[0];
        let rhs = args[1];
        let ret = return_into.unwrap();
        let t0 = gt.get_unique_tag(BoolEqual::id());
        let t1 = gt.get_unique_tag(BoolEqual::id());
        let t2 = gt.get_unique_tag(BoolEqual::id());
        let mut s = String::new();
        s.append("    cmp byte ");
        lhs.append_text(&mut s);
        s.append(", 0\n    jz ");
        s.append(t0.as_str());
        s.append("\n    mov al, byte ");
        rhs.append_text(&mut s);
        s.append("\n    mov byte ");
        ret.append_text(&mut s);
        s.append(", al\n    jmp ");
        s.append(t2.as_str());
        s.append("\n    ");
        s.append(t0.as_str());
        s.append(":\n    cmp byte ");
        rhs.append_text(&mut s);
        s.append(", 0\n    jnz ");
        s.append(t1.as_str());
        s.append("\n    mov byte ");
        ret.append_text(&mut s);
        s.append(", 1\n    jmp ");
        s.append(t2.as_str());
        s.append("\n    ");
        s.append(t1.as_str());
        s.append(":\n    mov byte ");
        ret.append_text(&mut s);
        s.append(", 0\n    ");
        s.append(t2.as_str());
        s.append(":\n");
        proof {
            assert(s@ =~= bool_equal_text(lhs, rhs, ret, t0@, t1@, t2@));
        }
        s
    }

    fn parent_type(&self) -> (r: Option<TypeID>) {
        Some(BoolType::id())
    }
}

/// Unique id of `BoolNotEqual`.
pub const BOOL_NOT_EQUAL_UID: u16 = 6;

/// Implements the boolean not equal operation
pub struct BoolNotEqual;

impl BoolNotEqual {
    pub fn id() -> (f: FunctionID)
        ensures
            f == builtin_function_id(BOOL_NOT_EQUAL_UID),
    {
        f_id(BOOL_NOT_EQUAL_UID)
    }
}

/// The text `ne` generates for booleans (tags: false, true, end).
pub open spec fn bool_not_equal_text(
    lhs: LocalAddress,
    rhs: LocalAddress,
    ret: LocalAddress,
    t0: Seq<char>,
    t1: Seq<char>,
    t2: Seq<char>,
) -> Seq<char> {
    "    cmp byte "@ + address_text(lhs) + ", 0\n    jnz "@ + t1 + "\n    mov al, byte "@
        + address_text(rhs) + "\n    mov byte "@ + address_text(ret) + ", al\n    jmp "@ + t2
        + "\n    "@ + t1 + ":\n    cmp byte "@ + address_text(rhs) + ", 0\n    jnz "@ + t0
        + "\n    mov byte "@ + address_text(ret) + ", 1\n    jmp "@ + t2 + "\n    "@ + t0
        + ":\n    mov byte "@ + address_text(ret) + ", 0\n    "@ + t2 + ":\n"@
}

impl BuiltinInlineFunction for BoolNotEqual {
    open spec fn function_id(&self) -> FunctionID {
        builtin_function_id(BOOL_NOT_EQUAL_UID)
    }

    open spec fn function_name(&self) -> Seq<char> {
        "ne"@
    }

    open spec fn owner_type(&self) -> Option<TypeID> {
        Some(bool_type_id())
    }

    open spec fn arity(&self) -> nat {
        2
    }

    open spec fn writes_return(&self) -> bool {
        true
    }

    open spec fn tags_used(&self) -> nat {
        3
    }

    fn id(&self) -> (r: FunctionID) {
        BoolNotEqual::id()
    }

    fn name(&self) -> (r: &'static str) {
        "ne"
    }

    open spec fn signature_spec(&self) -> (SelfType, Seq<(Seq<char>, TypeRef)>, Option<TypeRef>) {
        (SelfType::CopySelf, seq![("lhs"@, value_ref(bool_type_id())), ("rhs"@, value_ref(bool_type_id()))], Some(value_ref(bool_type_id())))
    }

    fn signature(&self) -> (s: FunctionSignature)
        ensures
            has_signature(s, SelfType::CopySelf, seq![("lhs"@, value_ref(bool_type_id())), ("rhs"@, value_ref(bool_type_id()))], Some(value_ref(bool_type_id()))),
    {
        boolean_signature()
    }

    open spec fn inline_text(&self, args: Seq<LocalAddress>, return_into: Option<LocalAddress>, sz: ByteSize, counter: nat) -> Seq<char> {
        bool_not_equal_text(
            args[0],
            args[1],
            return_into.unwrap(),
            unique_tag(builtin_function_id(BOOL_NOT_EQUAL_UID), counter),
            unique_tag(builtin_function_id(BOOL_NOT_EQUAL_UID), counter + 1),
            unique_tag(builtin_function_id(BOOL_NOT_EQUAL_UID), counter + 2),
            )
    }

    fn inline(
        &self,
        args: &[LocalAddress],
        return_into: Option<LocalAddress>,
        gt: &mut GlobalTracker,
        sz: ByteSize,
    ) -> (a: Assembly)
        ensures
            a@ == bool_not_equal_text(
                args@[0],
                args@[1],
                return_into.unwrap(),
                unique_tag(builtin_function_id(BOOL_NOT_EQUAL_UID), old(gt).tag_counter()),
                unique_tag(builtin_function_id(BOOL_NOT_EQUAL_UID), old(gt).tag_counter() + 1),
                unique_tag(builtin_function_id(BOOL_NOT_EQUAL_UID), old(gt).tag_counter() + 2),
            ),
            final(gt).readonly_names() == old(gt).readonly_names(),
            final(gt).readonly_section() == old(gt).readonly_section(),
    {
        let lhs = args[0];
        let rhs = args[1];
        let ret = return_into.unwrap();
        let t0 = gt.get_unique_tag(BoolNotEqual::id());
        let t1 = gt.get_unique_tag(BoolNotEqual::id());
        let t2 = gt.get_unique_tag(BoolNotEqual::id());
        let mut s = String::new();
        s.append("    cmp byte ");
        lhs.append_text(&mut s);
        s.append(", 0\n    jnz ");
        s.append(t1.as_str());
        s.append("\n    mov al, byte ");
        rhs.append_text(&mut s);
        s.append("\n    mov byte ");
        ret.append_text(&mut s);
        s.append(", al\n    jmp ");
        s.append(t2.as_str());
        s.append("\n    ");
        s.append(t1.as_str());
        s.append(":\n    cmp byte ");
        rhs.append_text(&mut s);
        s.append(", 0\n    jnz ");
        s.append(t0.as_str());
        s.append("\n    mov byte ");
        ret.append_text(&mut s);
        s.append(", 1\n    jmp ");
        s.append(t2.as_str());
        s.append("\n    ");
        s.append(t0.as_str());
        s.append(":\n    mov byte ");
        ret.append_text(&mut s);
        s.append(", 0\n    ");
        s.append(t2.as_str());
        s.append(":\n");
        proof {
            assert(s@ =~= bool_not_equal_text(lhs, rhs, ret, t0@, t1@, t2@));
        }
        s
    }

    fn parent_type(&self) -> (r: Option<TypeID>) {
        Some(BoolType::id())
    }
}

} // verus!
