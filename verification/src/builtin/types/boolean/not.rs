//! Boolean not.

use vstd::prelude::*;
use vstd::string::StringExecFns;
use crate::assembler::Assembly;
use crate::builtin::{builtin_function_id, f_id, has_signature, slice_params, BuiltinInlineFunction, FunctionSignature, SelfType};
use crate::builtin::types::boolean::{bool_type_id, BoolType};
use crate::builtin::types::boolean::printb::{PrintB, PRINT_B_UID};
use crate::common::{address_text, value_ref, ByteSize, FunctionID, LocalAddress, TypeID, TypeRef};
use crate::compiler::global_tracker::{unique_tag, GlobalTracker};

verus! {

/// Unique id of `BoolNot`.
pub const BOOL_NOT_UID: u16 = 11;

/// Implements the boolean not operation
pub struct BoolNot;

/// The text `p_not` generates: `ret = !lhs`.
pub open spec fn bool_not_text(
    lhs: LocalAddress,
    ret: LocalAddress,
    t0: Seq<char>,
    t1: Seq<char>,
) -> Seq<char> {
    "    mov al, byte "@ + address_text(lhs) + "\n    cmp al, 0\n    jz "@ + t0
        + "\n    mov byte "@ + address_text(ret) + ", 0\n    jmp "@ + t1 + "\n    "@ + t0
        + ":\n    mov byte "@ + address_text(ret) + ", 1\n    "@ + t1 + ":\n"@
}

impl BuiltinInlineFunction for BoolNot {
    open spec fn function_id(&self) -> FunctionID {
        builtin_function_id(BOOL_NOT_UID)
    }

    open spec fn function_name(&self) -> Seq<char> {
        "p_not"@
    }

    open spec fn owner_type(&self) -> Option<TypeID> {
        Some(bool_type_id())
    }

    open spec fn arity(&self) -> nat {
        1
    }

    open spec fn writes_return(&self) -> bool {
        true
    }

    open spec fn tags_used(&self) -> nat {
        2
    }

    fn id(&self) -> (r: FunctionID) {
        f_id(BOOL_NOT_UID)
    }

    fn name(&self) -> (r: &'static str) {
        "p_not"
    }

    open spec fn signature_spec(&self) -> (SelfType, Seq<(Seq<char>, TypeRef)>, Option<TypeRef>) {
        (SelfType::CopySelf, seq![("lhs"@, value_ref(bool_type_id()))], Some(value_ref(bool_type_id())))
    }

    fn signature(&self) -> (s: FunctionSignature)
        ensures
            has_signature(s, SelfType::CopySelf, seq![("lhs"@, value_ref(bool_type_id()))], Some(value_ref(bool_type_id()))),
    {
        let args: [(&str, TypeRef); 1] = [("lhs", BoolType::id().immediate_single())];
        let s = FunctionSignature::new_inline_builtin(SelfType::CopySelf, &args, Some(BoolType::id().immediate_single()));
        proof {
            assert(slice_params(args@) =~= seq![("lhs"@, value_ref(bool_type_id()))]);
        }
        s
    }

    open spec fn inline_text(&self, args: Seq<LocalAddress>, return_into: Option<LocalAddress>, sz: ByteSize, counter: nat) -> Seq<char> {
        bool_not_text(
            args[0],
            return_into.unwrap(),
            unique_tag(builtin_function_id(PRINT_B_UID), counter),
            unique_tag(builtin_function_id(PRINT_B_UID), counter + 1),
            )
    }

    fn inline(
        &self,
        args: &[LocalAddress],
        return_into: Option<LocalAddress>,
        gt: &mut GlobalTracker,
        sz: ByteSize,
    ) -> (a: Assembly)
        ensures
            a@ == bool_not_text(
                args@[0],
                return_into.unwrap(),
                unique_tag(builtin_function_id(PRINT_B_UID), old(gt).tag_counter()),
                unique_tag(builtin_function_id(PRINT_B_UID), old(gt).tag_counter() + 1),
            ),
            final(gt).readonly_names() == old(gt).readonly_names(),
            final(gt).readonly_section() == old(gt).readonly_section(),
    {
        let lhs = args[0];
        let ret = return_into.unwrap();
        let t0 = gt.get_unique_tag(PrintB::id());
        let t1 = gt.get_unique_tag(PrintB::id());
        let mut s = String::new();
        s.append("    mov al, byte ");
        lhs.append_text(&mut s);
        s.append("\n    cmp al, 0\n    jz ");
        s.append(t0.as_str());
        s.append("\n    mov byte ");
        ret.append_text(&mut s);
        s.append(", 0\n    jmp ");
        s.append(t1.as_str());
        s.append("\n    ");
        s.append(t0.as_str());
        s.append(":\n    mov byte ");
        ret.append_text(&mut s);
        s.append(", 1\n    ");
        s.append(t1.as_str());
        s.append(":\n");
        proof {
            assert(s@ =~= bool_not_text(lhs, ret, t0@, t1@));
        }
        s
    }

    fn parent_type(&self) -> (r: Option<TypeID>) {
        Some(BoolType::id())
    }
}

} // verus!
