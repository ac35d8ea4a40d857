//! Null pointers.

use vstd::prelude::*;
use vstd::string::StringExecFns;
use crate::assembler::Assembly;
use crate::builtin::{builtin_function_id, f_id, has_signature, signature_params, BuiltinInlineFunction, FunctionSignature, SelfType};
use crate::builtin::types::boolean::{bool_type_id, BoolType};
use crate::common::{address_text, pointer_ref, value_ref, ByteSize, FunctionID, LocalAddress, TypeID, TypeRef};
use crate::compiler::global_tracker::{unique_tag, GlobalTracker};

verus! {

/// `null` function that returns a null pointer with a specified type
pub struct NullFunction {
    pub id: FunctionID,
    pub parent_type: TypeID,
}

/// The text `null` generates: stores a null pointer in `ret`.
pub open spec fn null_text(ret: LocalAddress) -> Seq<char> {
    "    mov qword "@ + address_text(ret) + ", 0\n"@
}

impl BuiltinInlineFunction for NullFunction {
    open spec fn function_id(&self) -> FunctionID {
        self.id
    }

    open spec fn function_name(&self) -> Seq<char> {
        "null"@
    }

    open spec fn owner_type(&self) -> Option<TypeID> {
        Some(self.parent_type)
    }

    open spec fn arity(&self) -> nat {
        0
    }

    open spec fn writes_return(&self) -> bool {
        true
    }

    open spec fn tags_used(&self) -> nat {
        0
    }

    fn id(&self) -> (r: FunctionID) {
        self.id
    }

    fn name(&self) -> (r: &'static str) {
        "null"
    }

    open spec fn signature_spec(&self) -> (SelfType, Seq<(Seq<char>, TypeRef)>, Option<TypeRef>) {
        (SelfType::NoSelf, Seq::empty(), Some(pointer_ref(self.parent_type)))
    }

    fn signature(&self) -> (s: FunctionSignature)
        ensures
            has_signature(s, SelfType::NoSelf, Seq::empty(), Some(pointer_ref(self.parent_type))),
    {
        let args: Vec<(String, TypeRef)> = Vec::new();
        let ghost a = args@;
        let s = FunctionSignature::new(SelfType::NoSelf, args, Some(self.parent_type.with_indirection_single(1)));
        proof {
            assert(signature_params(a) =~= Seq::empty());
        }
        s
    }

    open spec fn inline_text(&self, args: Seq<LocalAddress>, return_into: Option<LocalAddress>, sz: ByteSize, counter: nat) -> Seq<char> {
        null_text(return_into.unwrap())
    }

    fn inline(
        &self,
        args: &[LocalAddress],
        return_into: Option<LocalAddress>,
        gt: &mut GlobalTracker,
        sz: ByteSize,
    ) -> (a: Assembly)
        ensures
            a@ == null_text(return_into.unwrap()),
            final(gt).readonly_names() == old(gt).readonly_names(),
            final(gt).readonly_section() == old(gt).readonly_section(),
    {
        let ret = return_into.unwrap();
        let mut s = String::new();
        s.append("    mov qword ");
        ret.append_text(&mut s);
        s.append(", 0\n");
        proof {
            assert(s@ =~= null_text(ret));
        }
        s
    }

    fn parent_type(&self) -> (r: Option<TypeID>) {
        Some(self.parent_type)
    }
}

/// Unique id of `IsNullFunction`.
pub const IS_NULL_UID: u16 = 23;

/// `is_null` function for checking if a reference is null
pub struct IsNullFunction {
    pub id: FunctionID,
    pub parent_type: TypeID,
}

impl IsNullFunction {
    fn const_id() -> (f: FunctionID)
        ensures
            f == builtin_function_id(IS_NULL_UID),
    {
        f_id(IS_NULL_UID)
    }
}

/// The text `is_null` generates (tags: false, end).
pub open spec fn is_null_text(
    lhs: LocalAddress,
    ret: LocalAddress,
    t0: Seq<char>,
    t1: Seq<char>,
) -> Seq<char> {
    "    mov rax, qword "@ + address_text(lhs) + "\n    cmp rax, 0\n    jz "@ + t0
        + "\n    mov byte "@ + address_text(ret) + ", 0\n    jmp "@ + t1 + "\n    "@ + t0
        + ":\n    mov byte "@ + address_text(ret) + ", 1\n    "@ + t1 + ":\n"@
}

impl BuiltinInlineFunction for IsNullFunction {
    open spec fn function_id(&self) -> FunctionID {
        self.id
    }

    open spec fn function_name(&self) -> Seq<char> {
        "is_null"@
    }

    open spec fn owner_type(&self) -> Option<TypeID> {
        Some(self.parent_type)
    }

    open spec fn arity(&self) -> nat {
        1
    }

    open spec fn writes_return(&self) -> bool {
        true
    }

    open spec fn tags_used(&self) -> nat {
        2
    }

    fn id(&self) -> (r: FunctionID) {
        self.id
    }

    fn name(&self) -> (r: &'static str) {
        "is_null"
    }

    open spec fn signature_spec(&self) -> (SelfType, Seq<(Seq<char>, TypeRef)>, Option<TypeRef>) {
        (SelfType::NoSelf, seq![("pointer"@, pointer_ref(self.parent_type))], Some(value_ref(bool_type_id())))
    }

    fn signature(&self) -> (s: FunctionSignature)
        ensures
            has_signature(s, SelfType::NoSelf, seq![("pointer"@, pointer_ref(self.parent_type))], Some(value_ref(bool_type_id()))),
    {
        let args: Vec<(String, TypeRef)> = vec![(String::from_str("pointer"), self.parent_type.with_indirection_single(1))];
        let ghost a = args@;
        let s = FunctionSignature::new(SelfType::NoSelf, args, Some(BoolType::id().immediate_single()));
        proof {
            assert(signature_params(a) =~= seq![("pointer"@, pointer_ref(self.parent_type))]);
        }
        s
    }

    open spec fn inline_text(&self, args: Seq<LocalAddress>, return_into: Option<LocalAddress>, sz: ByteSize, counter: nat) -> Seq<char> {
        is_null_text(
            args[0],
            return_into.unwrap(),
            unique_tag(builtin_function_id(IS_NULL_UID), counter),
            unique_tag(builtin_function_id(IS_NULL_UID), counter + 1),
            )
    }

    fn inline(
        &self,
        args: &[LocalAddress],
        return_into: Option<LocalAddress>,
        gt: &mut GlobalTracker,
        sz: ByteSize,
    ) -> (a: Assembly)
        ensures
            a@ == is_null_text(
                args@[0],
                return_into.unwrap(),
                unique_tag(builtin_function_id(IS_NULL_UID), old(gt).tag_counter()),
                unique_tag(builtin_function_id(IS_NULL_UID), old(gt).tag_counter() + 1),
            ),
            final(gt).readonly_names() == old(gt).readonly_names(),
            final(gt).readonly_section() == old(gt).readonly_section(),
    {
        let lhs = args[0];
        let ret = return_into.unwrap();
        let t0 = gt.get_unique_tag(IsNullFunction::const_id());
        let t1 = gt.get_unique_tag(IsNullFunction::const_id());
        let mut s = String::new();
        s.append("    mov rax, qword ");
        lhs.append_text(&mut s);
        s.append("\n    cmp rax, 0\n    jz ");
        s.append(t0.as_str());
        s.append("\n    mov byte ");
        ret.append_text(&mut s);
        s.append(", 0\n    jmp ");
        s.append(t1.as_str());
        s.append("\n    ");
        s.append(t0.as_str());
        s.append(":\n    mov byte ");
        ret.append_text(&mut s);
        s.append(", 1\n    ");
        s.append(t1.as_str());
        s.append(":\n");
        proof {
            assert(s@ =~= is_null_text(lhs, ret, t0@, t1@));
        }
        s
    }

    fn parent_type(&self) -> (r: Option<TypeID>) {
        Some(self.parent_type)
    }
}

/// Creates a `NullFunction` for a given type and function id.
pub fn null_function(t: TypeID, f: FunctionID) -> (r: NullFunction)
    ensures
        r.function_id() == f,
        r.owner_type() == Some(t),
{
    NullFunction { id: f, parent_type: t }
}

/// Creates an `IsNullFunction` for a given type and function id.
pub fn is_null_function(t: TypeID, f: FunctionID) -> (r: IsNullFunction)
    ensures
        r.function_id() == f,
        r.owner_type() == Some(t),
{
    IsNullFunction { id: f, parent_type: t }
}

} // verus!
