//! Integer comparisons.

use vstd::prelude::*;
use vstd::string::StringExecFns;
use crate::assembler::Assembly;
use crate::builtin::{builtin_function_id, f_id, has_signature, slice_params, BuiltinInlineFunction, FunctionSignature, SelfType};
use crate::builtin::types::boolean::{bool_type_id, BoolType};
use crate::builtin::types::integer::{int_type_id, IntType};
use crate::common::{address_text, value_ref, ByteSize, FunctionID, LocalAddress, TypeID, TypeRef};
use crate::compiler::global_tracker::{unique_tag, GlobalTracker};

verus! {

/// Unique id of `IntEqual`.
pub const INT_EQUAL_UID: u16 = 16;

/// Implements the integer equal operation
pub struct IntEqual;

impl IntEqual {
    pub fn id() -> (f: FunctionID)
        ensures
            f == builtin_function_id(INT_EQUAL_UID),
    {
        f_id(INT_EQUAL_UID)
    }
}

/// The text `eq` generates for integers (tags: true, end).
pub open spec fn int_equal_text(
    lhs: LocalAddress,
    rhs: LocalAddress,
    ret: LocalAddress,
    t0: Seq<char>,
    t1: Seq<char>,
) -> Seq<char> {
    "    mov rax, qword "@ + address_text(lhs) + "\n    cmp rax, qword "@ + address_text(rhs)
        + "\n    jz "@ + t0 + "\n    mov byte "@ + address_text(ret) + ", 0\n    jmp "@ + t1
        + "\n    "@ + t0 + ":\n    mov byte "@ + address_text(ret) + ", 1\n    "@ + t1 + ":\n"@
}

impl BuiltinInlineFunction for IntEqual {
    open spec fn function_id(&self) -> FunctionID {
        builtin_function_id(INT_EQUAL_UID)
    }

    open spec fn function_name(&self) -> Seq<char> {
        "eq"@
    }

    open spec fn owner_type(&self) -> Option<TypeID> {
        Some(int_type_id())
    }

    open spec fn arity(&self) -> nat {
        2
    }

    open spec fn writes_return(&self) -> bool {
        true
    }

    open spec fn tags_used(&self) -> nat {
        2
    }

    fn id(&self) -> (r: FunctionID) {
        IntEqual::id()
    }

    fn name(&self) -> (r: &'static str) {
        "eq"
    }

    open spec fn signature_spec(&self) -> (SelfType, Seq<(Seq<char>, TypeRef)>, Option<TypeRef>) {
        (SelfType::CopySelf, seq![("lhs"@, value_ref(int_type_id())), ("rhs"@, value_ref(int_type_id()))], Some(value_ref(bool_type_id())))
    }

    fn signature(&self) -> (s: FunctionSignature)
        ensures
            has_signature(s, SelfType::CopySelf, seq![("lhs"@, value_ref(int_type_id())), ("rhs"@, value_ref(int_type_id()))], Some(value_ref(bool_type_id()))),
    {
        let args: [(&str, TypeRef); 2] = [("lhs", IntType::id().immediate_single()), ("rhs", IntType::id().immediate_single())];
        let s = FunctionSignature::new_inline_builtin(SelfType::CopySelf, &args, Some(BoolType::id().immediate_single()));
        proof {
            assert(slice_params(args@) =~= seq![("lhs"@, value_ref(int_type_id())), ("rhs"@, value_ref(int_type_id()))]);
        }
        s
    }

    open spec fn inline_text(&self, args: Seq<LocalAddress>, return_into: Option<LocalAddress>, sz: ByteSize, counter: nat) -> Seq<char> {
        int_equal_text(
            args[0],
            args[1],
            return_into.unwrap(),
            unique_tag(builtin_function_id(INT_EQUAL_UID), counter),
            unique_tag(builtin_function_id(INT_EQUAL_UID), counter + 1),
            )
    }

    fn inline(
        &self,
        args: &[LocalAddress],
        return_into: Option<LocalAddress>,
        gt: &mut GlobalTracker,
        sz: ByteSize,
    ) -> (a: Assembly)
        ensures
            a@ == int_equal_text(
                args@[0],
                args@[1],
                return_into.unwrap(),
                unique_tag(builtin_function_id(INT_EQUAL_UID), old(gt).tag_counter()),
                unique_tag(builtin_function_id(INT_EQUAL_UID), old(gt).tag_counter() + 1),
            ),
            final(gt).readonly_names() == old(gt).readonly_names(),
            final(gt).readonly_section() == old(gt).readonly_section(),
    {
        let lhs = args[0];
        let rhs = args[1];
        let ret = return_into.unwrap();
        let t0 = gt.get_unique_tag(IntEqual::id());
        let t1 = gt.get_unique_tag(IntEqual::id());
        let mut s = String::new();
        s.append("    mov rax, qword ");
        lhs.append_text(&mut s);
        s.append("\n    cmp rax, qword ");
        rhs.append_text(&mut s);
        s.append("\n    jz ");
        s.append(t0.as_str());
        s.append("\n    mov byte ");
        ret.append_text(&mut s);
        s.append(", 0\n    jmp ");
        s.append(t1.as_str());
        s.append("\n    ");
        s.append(t0.as_str());
        s.append(":\n    mov byte ");
        ret.append_text(&mut s);
        s.append(", 1\n    ");
        s.append(t1.as_str());
        s.append(":\n");
        proof {
            assert(s@ =~= int_equal_text(lhs, rhs, ret, t0@, t1@));
        }
        s
    }

    fn parent_type(&self) -> (r: Option<TypeID>) {
        Some(IntType::id())
    }
}

/// Unique id of `IntNotEqual`.
pub const INT_NOT_EQUAL_UID: u16 = 17;

/// Implements the integer not equal operation
pub struct IntNotEqual;

impl IntNotEqual {
    pub fn id() -> (f: FunctionID)
        ensures
            f == builtin_function_id(INT_NOT_EQUAL_UID),
    {
        f_id(INT_NOT_EQUAL_UID)
    }
}

/// The text `ne` generates for integers (tags: true, end).
pub open spec fn int_not_equal_text(
    lhs: LocalAddress,
    rhs: LocalAddress,
    ret: LocalAddress,
    t0: Seq<char>,
    t1: Seq<char>,
) -> Seq<char> {
    "    mov rax, qword "@ + address_text(lhs) + "\n    cmp rax, qword "@ + address_text(rhs)
        + "\n    jnz "@ + t0 + "\n    mov byte "@ + address_text(ret) + ", 0\n    jmp "@ + t1
        + "\n    "@ + t0 + ":\n    mov byte "@ + address_text(ret) + ", 1\n    "@ + t1 + ":\n"@
}

impl BuiltinInlineFunction for IntNotEqual {
    open spec fn function_id(&self) -> FunctionID {
        builtin_function_id(INT_NOT_EQUAL_UID)
    }

    open spec fn function_name(&self) -> Seq<char> {
        "ne"@
    }

    open spec fn owner_type(&self) -> Option<TypeID> {
        Some(int_type_id())
    }

    open spec fn arity(&self) -> nat {
        2
    }

    open spec fn writes_return(&self) -> bool {
        true
    }

    open spec fn tags_used(&self) -> nat {
        2
    }

    fn id(&self) -> (r: FunctionID) {
        IntNotEqual::id()
    }

    fn name(&self) -> (r: &'static str) {
        "ne"
    }

    open spec fn signature_spec(&self) -> (SelfType, Seq<(Seq<char>, TypeRef)>, Option<TypeRef>) {
        (SelfType::CopySelf, seq![("lhs"@, value_ref(int_type_id())), ("rhs"@, value_ref(int_type_id()))], Some(value_ref(bool_type_id())))
    }

    fn signature(&self) -> (s: FunctionSignature)
        ensures
            has_signature(s, SelfType::CopySelf, seq![("lhs"@, value_ref(int_type_id())), ("rhs"@, value_ref(int_type_id()))], Some(value_ref(bool_type_id()))),
    {
        let args: [(&str, TypeRef); 2] = [("lhs", IntType::id().immediate_single()), ("rhs", IntType::id().immediate_single())];
        let s = FunctionSignature::new_inline_builtin(SelfType::CopySelf, &args, Some(BoolType::id().immediate_single()));
        proof {
            assert(slice_params(args@) =~= seq![("lhs"@, value_ref(int_type_id())), ("rhs"@, value_ref(int_type_id()))]);
        }
        s
    }

    open spec fn inline_text(&self, args: Seq<LocalAddress>, return_into: Option<LocalAddress>, sz: ByteSize, counter: nat) -> Seq<char> {
        int_not_equal_text(
            args[0],
            args[1],
            return_into.unwrap(),
            unique_tag(builtin_function_id(INT_NOT_EQUAL_UID), counter),
            unique_tag(builtin_function_id(INT_NOT_EQUAL_UID), counter + 1),
            )
    }

    fn inline(
        &self,
        args: &[LocalAddress],
        return_into: Option<LocalAddress>,
        gt: &mut GlobalTracker,
        sz: ByteSize,
    ) -> (a: Assembly)
        ensures
            a@ == int_not_equal_text(
                args@[0],
                args@[1],
                return_into.unwrap(),
                unique_tag(builtin_function_id(INT_NOT_EQUAL_UID), old(gt).tag_counter()),
                unique_tag(builtin_function_id(INT_NOT_EQUAL_UID), old(gt).tag_counter() + 1),
            ),
            final(gt).readonly_names() == old(gt).readonly_names(),
            final(gt).readonly_section() == old(gt).readonly_section(),
    {
        let lhs = args[0];
        let rhs = args[1];
        let ret = return_into.unwrap();
        let t0 = gt.get_unique_tag(IntNotEqual::id());
        let t1 = gt.get_unique_tag(IntNotEqual::id());
        let mut s = String::new();
        s.append("    mov rax, qword ");
        lhs.append_text(&mut s);
        s.append("\n    cmp rax, qword ");
        rhs.append_text(&mut s);
        s.append("\n    jnz ");
        s.append(t0.as_str());
        s.append("\n    mov byte ");
        ret.append_text(&mut s);
        s.append(", 0\n    jmp ");
        s.append(t1.as_str());
        s.append("\n    ");
        s.append(t0.as_str());
        s.append(":\n    mov byte ");
        ret.append_text(&mut s);
        s.append(", 1\n    ");
        s.append(t1.as_str());
        s.append(":\n");
        proof {
            assert(s@ =~= int_not_equal_text(lhs, rhs, ret, t0@, t1@));
        }
        s
    }

    fn parent_type(&self) -> (r: Option<TypeID>) {
        Some(IntType::id())
    }
}

/// Unique id of `IntGreaterThan`.
pub const INT_GREATER_THAN_UID: u16 = 18;

/// Implements the integer greater than operation
pub struct IntGreaterThan;

impl IntGreaterThan {
    pub fn id() -> (f: FunctionID)
        ensures
            f == builtin_function_id(INT_GREATER_THAN_UID),
    {
        f_id(INT_GREATER_THAN_UID)
    }
}

/// The text `gt` generates for integers (tags: true, end).
pub open spec fn int_greater_than_text(
    lhs: LocalAddress,
    rhs: LocalAddress,
    ret: LocalAddress,
    t0: Seq<char>,
    t1: Seq<char>,
) -> Seq<char> {
    "    mov rax, qword "@ + address_text(lhs) + "\n    cmp rax, qword "@ + address_text(rhs)
        + "\n    jg "@ + t0 + "\n    mov byte "@ + address_text(ret) + ", 0\n    jmp "@ + t1
        + "\n    "@ + t0 + ":\n    mov byte "@ + address_text(ret) + ", 1\n    "@ + t1 + ":\n"@
}

impl BuiltinInlineFunction for IntGreaterThan {
    open spec fn function_id(&self) -> FunctionID {
        builtin_function_id(INT_GREATER_THAN_UID)
    }

    open spec fn function_name(&self) -> Seq<char> {
        "gt"@
    }

    open spec fn owner_type(&self) -> Option<TypeID> {
        Some(int_type_id())
    }

    open spec fn arity(&self) -> nat {
        2
    }

    open spec fn writes_return(&self) -> bool {
        true
    }

    open spec fn tags_used(&self) -> nat {
        2
    }

    fn id(&self) -> (r: FunctionID) {
        IntGreaterThan::id()
    }

    fn name(&self) -> (r: &'static str) {
        "gt"
    }

    open spec fn signature_spec(&self) -> (SelfType, Seq<(Seq<char>, TypeRef)>, Option<TypeRef>) {
        (SelfType::CopySelf, seq![("lhs"@, value_ref(int_type_id())), ("rhs"@, value_ref(int_type_id()))], Some(value_ref(bool_type_id())))
    }

    fn signature(&self) -> (s: FunctionSignature)
        ensures
            has_signature(s, SelfType::CopySelf, seq![("lhs"@, value_ref(int_type_id())), ("rhs"@, value_ref(int_type_id()))], Some(value_ref(bool_type_id()))),
    {
        let args: [(&str, TypeRef); 2] = [("lhs", IntType::id().immediate_single()), ("rhs", IntType::id().immediate_single())];
        let s = FunctionSignature::new_inline_builtin(SelfType::CopySelf, &args, Some(BoolType::id().immediate_single()));
        proof {
            assert(slice_params(args@) =~= seq![("lhs"@, value_ref(int_type_id())), ("rhs"@, value_ref(int_type_id()))]);
        }
        s
    }

    open spec fn inline_text(&self, args: Seq<LocalAddress>, return_into: Option<LocalAddress>, sz: ByteSize, counter: nat) -> Seq<char> {
        int_greater_than_text(
            args[0],
            args[1],
            return_into.unwrap(),
            unique_tag(builtin_function_id(INT_GREATER_THAN_UID), counter),
            unique_tag(builtin_function_id(INT_GREATER_THAN_UID), counter + 1),
            )
    }

    fn inline(
        &self,
        args: &[LocalAddress],
        return_into: Option<LocalAddress>,
        gt: &mut GlobalTracker,
        sz: ByteSize,
    ) -> (a: Assembly)
        ensures
            a@ == int_greater_than_text(
                args@[0],
                args@[1],
                return_into.unwrap(),
                unique_tag(builtin_function_id(INT_GREATER_THAN_UID), old(gt).tag_counter()),
                unique_tag(builtin_function_id(INT_GREATER_THAN_UID), old(gt).tag_counter() + 1),
            ),
            final(gt).readonly_names() == old(gt).readonly_names(),
            final(gt).readonly_section() == old(gt).readonly_section(),
    {
        let lhs = args[0];
        let rhs = args[1];
        let ret = return_into.unwrap();
        let t0 = gt.get_unique_tag(IntGreaterThan::id());
        let t1 = gt.get_unique_tag(IntGreaterThan::id());
        let mut s = String::new();
        s.append("    mov rax, qword ");
        lhs.append_text(&mut s);
        s.append("\n    cmp rax, qword ");
        rhs.append_text(&mut s);
        s.append("\n    jg ");
        s.append(t0.as_str());
        s.append("\n    mov byte ");
        ret.append_text(&mut s);
        s.append(", 0\n    jmp ");
        s.append(t1.as_str());
        s.append("\n    ");
        s.append(t0.as_str());
        s.append(":\n    mov byte ");
        ret.append_text(&mut s);
        s.append(", 1\n    ");
        s.append(t1.as_str());
        s.append(":\n");
        proof {
            assert(s@ =~= int_greater_than_text(lhs, rhs, ret, t0@, t1@));
        }
        s
    }

    fn parent_type(&self) -> (r: Option<TypeID>) {
        Some(IntType::id())
    }
}

/// Unique id of `IntLessThan`.
pub const INT_LESS_THAN_UID: u16 = 19;

/// Implements the integer less than operation
pub struct IntLessThan;

impl IntLessThan {
    pub fn id() -> (f: FunctionID)
        ensures
            f == builtin_function_id(INT_LESS_THAN_UID),
    {
        f_id(INT_LESS_THAN_UID)
    }
}

/// The text `lt` generates for integers (tags: true, end).
pub open spec fn int_less_than_text(
    lhs: LocalAddress,
    rhs: LocalAddress,
    ret: LocalAddress,
    t0: Seq<char>,
    t1: Seq<char>,
) -> Seq<char> {
    "    mov rax, qword "@ + address_text(rhs) + "\n    cmp rax, qword "@ + address_text(lhs)
        + "\n    jg "@ + t0 + "\n    mov byte "@ + address_text(ret) + ", 0\n    jmp "@ + t1
        + "\n    "@ + t0 + ":\n    mov byte "@ + address_text(ret) + ", 1\n    "@ + t1 + ":\n"@
}

impl BuiltinInlineFunction for IntLessThan {
    open spec fn function_id(&self) -> FunctionID {
        builtin_function_id(INT_LESS_THAN_UID)
    }

    open spec fn function_name(&self) -> Seq<char> {
        "lt"@
    }

    open spec fn owner_type(&self) -> Option<TypeID> {
        Some(int_type_id())
    }

    open spec fn arity(&self) -> nat {
        2
    }

    open spec fn writes_return(&self) -> bool {
        true
    }

    open spec fn tags_used(&self) -> nat {
        2
    }

    fn id(&self) -> (r: FunctionID) {
        IntLessThan::id()
    }

    fn name(&self) -> (r: &'static str) {
        "lt"
    }

    open spec fn signature_spec(&self) -> (SelfType, Seq<(Seq<char>, TypeRef)>, Option<TypeRef>) {
        (SelfType::CopySelf, seq![("lhs"@, value_ref(int_type_id())), ("rhs"@, value_ref(int_type_id()))], Some(value_ref(bool_type_id())))
    }

    fn signature(&self) -> (s: FunctionSignature)
        ensures
            has_signature(s, SelfType::CopySelf, seq![("lhs"@, value_ref(int_type_id())), ("rhs"@, value_ref(int_type_id()))], Some(value_ref(bool_type_id()))),
    {
        let args: [(&str, TypeRef); 2] = [("lhs", IntType::id().immediate_single()), ("rhs", IntType::id().immediate_single())];
        let s = FunctionSignature::new_inline_builtin(SelfType::CopySelf, &args, Some(BoolType::id().immediate_single()));
        proof {
            assert(slice_params(args@) =~= seq![("lhs"@, value_ref(int_type_id())), ("rhs"@, value_ref(int_type_id()))]);
        }
        s
    }

    open spec fn inline_text(&self, args: Seq<LocalAddress>, return_into: Option<LocalAddress>, sz: ByteSize, counter: nat) -> Seq<char> {
        int_less_than_text(
            args[0],
            args[1],
            return_into.unwrap(),
            unique_tag(builtin_function_id(INT_LESS_THAN_UID), counter),
            unique_tag(builtin_function_id(INT_LESS_THAN_UID), counter + 1),
            )
    }

    fn inline(
        &self,
        args: &[LocalAddress],
        return_into: Option<LocalAddress>,
        gt: &mut GlobalTracker,
        sz: ByteSize,
    ) -> (a: Assembly)
        ensures
            a@ == int_less_than_text(
                args@[0],
                args@[1],
                return_into.unwrap(),
                unique_tag(builtin_function_id(INT_LESS_THAN_UID), old(gt).tag_counter()),
                unique_tag(builtin_function_id(INT_LESS_THAN_UID), old(gt).tag_counter() + 1),
            ),
            final(gt).readonly_names() == old(gt).readonly_names(),
            final(gt).readonly_section() == old(gt).readonly_section(),
    {
        let lhs = args[0];
        let rhs = args[1];
        let ret = return_into.unwrap();
        let t0 = gt.get_unique_tag(IntLessThan::id());
        let t1 = gt.get_unique_tag(IntLessThan::id());
        let mut s = String::new();
        s.append("    mov rax, qword ");
        rhs.append_text(&mut s);
        s.append("\n    cmp rax, qword ");
        lhs.append_text(&mut s);
        s.append("\n    jg ");
        s.append(t0.as_str());
        s.append("\n    mov byte ");
        ret.append_text(&mut s);
        s.append(", 0\n    jmp ");
        s.append(t1.as_str());
        s.append("\n    ");
        s.append(t0.as_str());
        s.append(":\n    mov byte ");
        ret.append_text(&mut s);
        s.append(", 1\n    ");
        s.append(t1.as_str());
        s.append(":\n");
        proof {
            assert(s@ =~= int_less_than_text(lhs, rhs, ret, t0@, t1@));
        }
        s
    }

    fn parent_type(&self) -> (r: Option<TypeID>) {
        Some(IntType::id())
    }
}

/// Unique id of `IntGreaterThanEqual`.
pub const INT_GREATER_THAN_EQUAL_UID: u16 = 20;

/// Implements the integer greater than or equal operation
pub struct IntGreaterThanEqual;

impl IntGreaterThanEqual {
    pub fn id() -> (f: FunctionID)
        ensures
            f == builtin_function_id(INT_GREATER_THAN_EQUAL_UID),
    {
        f_id(INT_GREATER_THAN_EQUAL_UID)
    }
}

/// The text `ge` generates for integers (tags: true, end).
pub open spec fn int_greater_than_equal_text(
    lhs: LocalAddress,
    rhs: LocalAddress,
    ret: LocalAddress,
    t0: Seq<char>,
    t1: Seq<char>,
) -> Seq<char> {
    "    mov rax, qword "@ + address_text(lhs) + "\n    cmp rax, qword "@ + address_text(rhs)
        + "\n    jge "@ + t0 + "\n    mov byte "@ + address_text(ret) + ", 0\n    jmp "@ + t1
        + "\n    "@ + t0 + ":\n    mov byte "@ + address_text(ret) + ", 1\n    "@ + t1 + ":\n"@
}

impl BuiltinInlineFunction for IntGreaterThanEqual {
    open spec fn function_id(&self) -> FunctionID {
        builtin_function_id(INT_GREATER_THAN_EQUAL_UID)
    }

    open spec fn function_name(&self) -> Seq<char> {
        "ge"@
    }

    open spec fn owner_type(&self) -> Option<TypeID> {
        Some(int_type_id())
    }

    open spec fn arity(&self) -> nat {
        2
    }

    open spec fn writes_return(&self) -> bool {
        true
    }

    open spec fn tags_used(&self) -> nat {
        2
    }

    fn id(&self) -> (r: FunctionID) {
        IntGreaterThanEqual::id()
    }

    fn name(&self) -> (r: &'static str) {
        "ge"
    }

    open spec fn signature_spec(&self) -> (SelfType, Seq<(Seq<char>, TypeRef)>, Option<TypeRef>) {
        (SelfType::CopySelf, seq![("lhs"@, value_ref(int_type_id())), ("rhs"@, value_ref(int_type_id()))], Some(value_ref(bool_type_id())))
    }

    fn signature(&self) -> (s: FunctionSignature)
        ensures
            has_signature(s, SelfType::CopySelf, seq![("lhs"@, value_ref(int_type_id())), ("rhs"@, value_ref(int_type_id()))], Some(value_ref(bool_type_id()))),
    {
        let args: [(&str, TypeRef); 2] = [("lhs", IntType::id().immediate_single()), ("rhs", IntType::id().immediate_single())];
        let s = FunctionSignature::new_inline_builtin(SelfType::CopySelf, &args, Some(BoolType::id().immediate_single()));
        proof {
            assert(slice_params(args@) =~= seq![("lhs"@, value_ref(int_type_id())), ("rhs"@, value_ref(int_type_id()))]);
        }
        s
    }

    open spec fn inline_text(&self, args: Seq<LocalAddress>, return_into: Option<LocalAddress>, sz: ByteSize, counter: nat) -> Seq<char> {
        int_greater_than_equal_text(
            args[0],
            args[1],
            return_into.unwrap(),
            unique_tag(
            builtin_function_id(INT_GREATER_THAN_EQUAL_UID),
            counter,
            ),
            unique_tag(
            builtin_function_id(INT_GREATER_THAN_EQUAL_UID),
            counter + 1,
            ),
            )
    }

    fn inline(
        &self,
        args: &[LocalAddress],
        return_into: Option<LocalAddress>,
        gt: &mut GlobalTracker,
        sz: ByteSize,
    ) -> (a: Assembly)
        ensures
            a@ == int_greater_than_equal_text(
                args@[0],
                args@[1],
                return_into.unwrap(),
                unique_tag(
                    builtin_function_id(INT_GREATER_THAN_EQUAL_UID),
                    old(gt).tag_counter(),
                ),
                unique_tag(
                    builtin_function_id(INT_GREATER_THAN_EQUAL_UID),
                    old(gt).tag_counter() + 1,
                ),
            ),
            final(gt).readonly_names() == old(gt).readonly_names(),
            final(gt).readonly_section() == old(gt).readonly_section(),
    {
        let lhs = args[0];
        let rhs = args[1];
        let ret = return_into.unwrap();
        let t0 = gt.get_unique_tag(IntGreaterThanEqual::id());
        let t1 = gt.get_unique_tag(IntGreaterThanEqual::id());
        let mut s = String::new();
        s.append("    mov rax, qword ");
        lhs.append_text(&mut s);
        s.append("\n    cmp rax, qword ");
        rhs.append_text(&mut s);
        s.append("\n    jge ");
        s.append(t0.as_str());
        s.append("\n    mov byte ");
        ret.append_text(&mut s);
        s.append(", 0\n    jmp ");
        s.append(t1.as_str());
        s.append("\n    ");
        s.append(t0.as_str());
        s.append(":\n    mov byte ");
        ret.append_text(&mut s);
        s.append(", 1\n    ");
        s.append(t1.as_str());
        s.append(":\n");
        proof {
            assert(s@ =~= int_greater_than_equal_text(lhs, rhs, ret, t0@, t1@));
        }
        s
    }

    fn parent_type(&self) -> (r: Option<TypeID>) {
        Some(IntType::id())
    }
}

/// Unique id of `IntLessThanEqual`.
pub const INT_LESS_THAN_EQUAL_UID: u16 = 21;

/// Implements the integer less than or equal operation
pub struct IntLessThanEqual;

impl IntLessThanEqual {
    pub fn id() -> (f: FunctionID)
        ensures
            f == builtin_function_id(INT_LESS_THAN_EQUAL_UID),
    {
        f_id(INT_LESS_THAN_EQUAL_UID)
    }
}

/// The text `le` generates for integers (tags: true, end).
pub open spec fn int_less_than_equal_text(
    lhs: LocalAddress,
    rhs: LocalAddress,
    ret: LocalAddress,
    t0: Seq<char>,
    t1: Seq<char>,
) -> Seq<char> {
    "    mov rax, qword "@ + address_text(rhs) + "\n    cmp rax, qword "@ + address_text(lhs)
        + "\n    jge "@ + t0 + "\n    mov byte "@ + address_text(ret) + ", 0\n    jmp "@ + t1
        + "\n    "@ + t0 + ":\n    mov byte "@ + address_text(ret) + ", 1\n    "@ + t1 + ":\n"@
}

impl BuiltinInlineFunction for IntLessThanEqual {
    open spec fn function_id(&self) -> FunctionID {
        builtin_function_id(INT_LESS_THAN_EQUAL_UID)
    }

    open spec fn function_name(&self) -> Seq<char> {
        "le"@
    }

    open spec fn owner_type(&self) -> Option<TypeID> {
        Some(int_type_id())
    }

    open spec fn arity(&self) -> nat {
        2
    }

    open spec fn writes_return(&self) -> bool {
        true
    }

    open spec fn tags_used(&self) -> nat {
        2
    }

    fn id(&self) -> (r: FunctionID) {
        IntLessThanEqual::id()
    }

    fn name(&self) -> (r: &'static str) {
        "le"
    }

    open spec fn signature_spec(&self) -> (SelfType, Seq<(Seq<char>, TypeRef)>, Option<TypeRef>) {
        (SelfType::CopySelf, seq![("lhs"@, value_ref(int_type_id())), ("rhs"@, value_ref(int_type_id()))], Some(value_ref(bool_type_id())))
    }

    fn signature(&self) -> (s: FunctionSignature)
        ensures
            has_signature(s, SelfType::CopySelf, seq![("lhs"@, value_ref(int_type_id())), ("rhs"@, value_ref(int_type_id()))], Some(value_ref(bool_type_id()))),
    {
        let args: [(&str, TypeRef); 2] = [("lhs", IntType::id().immediate_single()), ("rhs", IntType::id().immediate_single())];
        let s = FunctionSignature::new_inline_builtin(SelfType::CopySelf, &args, Some(BoolType::id().immediate_single()));
        proof {
            assert(slice_params(args@) =~= seq![("lhs"@, value_ref(int_type_id())), ("rhs"@, value_ref(int_type_id()))]);
        }
        s
    }

    open spec fn inline_text(&self, args: Seq<LocalAddress>, return_into: Option<LocalAddress>, sz: ByteSize, counter: nat) -> Seq<char> {
        int_less_than_equal_text(
            args[0],
            args[1],
            return_into.unwrap(),
            unique_tag(builtin_function_id(INT_LESS_THAN_EQUAL_UID), counter),
            unique_tag(
            builtin_function_id(INT_LESS_THAN_EQUAL_UID),
            counter + 1,
            ),
            )
    }

    fn inline(
        &self,
        args: &[LocalAddress],
        return_into: Option<LocalAddress>,
        gt: &mut GlobalTracker,
        sz: ByteSize,
    ) -> (a: Assembly)
        ensures
            a@ == int_less_than_equal_text(
                args@[0],
                args@[1],
                return_into.unwrap(),
                unique_tag(builtin_function_id(INT_LESS_THAN_EQUAL_UID), old(gt).tag_counter()),
                unique_tag(
                    builtin_function_id(INT_LESS_THAN_EQUAL_UID),
                    old(gt).tag_counter() + 1,
                ),
            ),
            final(gt).readonly_names() == old(gt).readonly_names(),
            final(gt).readonly_section() == old(gt).readonly_section(),
    {
        let lhs = args[0];
        let rhs = args[1];
        let ret = return_into.unwrap();
        let t0 = gt.get_unique_tag(IntLessThanEqual::id());
        let t1 = gt.get_unique_tag(IntLessThanEqual::id());
        let mut s = String::new();
        s.append("    mov rax, qword ");
        rhs.append_text(&mut s);
        s.append("\n    cmp rax, qword ");
        lhs.append_text(&mut s);
        s.append("\n    jge ");
        s.append(t0.as_str());
        s.append("\n    mov byte ");
        ret.append_text(&mut s);
        s.append(", 0\n    jmp ");
        s.append(t1.as_str());
        s.append("\n    ");
        s.append(t0.as_str());
        s.append(":\n    mov byte ");
        ret.append_text(&mut s);
        s.append(", 1\n    ");
        s.append(t1.as_str());
        s.append(":\n");
        proof {
            assert(s@ =~= int_less_than_equal_text(lhs, rhs, ret, t0@, t1@));
        }
        s
    }

    fn parent_type(&self) -> (r: Option<TypeID>) {
        Some(IntType::id())
    }
}

} // verus!
