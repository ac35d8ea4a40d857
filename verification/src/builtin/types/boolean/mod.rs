//! The builtin boolean type `bool` and its operations.

use vstd::prelude::*;
use vstd::string::StringExecFns;
use crate::assembler::Assembly;
use crate::builtin::{
    builtin_type_id, has_signature, slice_params, t_id, BuiltinInlineFunction, FunctionSignature,
    SelfType, Type,
};
use crate::common::{address_text, value_ref, ByteSize, FunctionID, LocalAddress, TypeID, TypeRef};
use crate::compiler::global_table::GlobalTable;
use crate::errors::{LiteralToken, LiteralTokens, WErr};
use and::{BoolAnd, BoolAssignAnd};
use comparators::{BoolEqual, BoolNotEqual};
use not::BoolNot;
use or::{BoolAssignOr, BoolOr};
use printb::PrintB;

pub mod and;
pub mod comparators;
pub mod not;
pub mod or;
pub mod printb;

verus! {

/// Unique id of `bool`.
pub const BOOL_TYPE_UID: u16 = 1;

/// The type id of `bool`.
pub open spec fn bool_type_id() -> TypeID {
    builtin_type_id(BOOL_TYPE_UID)
}

/// Helper for getting the function signature of common boolean operations:
/// `lhs: bool`, `rhs: bool`, returning `bool`.
pub fn boolean_signature() -> (s: FunctionSignature)
    ensures
        has_signature(
            s,
            SelfType::CopySelf,
            seq![("lhs"@, value_ref(bool_type_id())), ("rhs"@, value_ref(bool_type_id()))],
            Some(value_ref(bool_type_id())),
        ),
{
    let args: [(&str, TypeRef); 2] = [
        ("lhs", BoolType::id().immediate_single()),
        ("rhs", BoolType::id().immediate_single()),
    ];
    let s = FunctionSignature::new_inline_builtin(
        SelfType::CopySelf,
        &args,
        Some(BoolType::id().immediate_single()),
    );
    proof {
        assert(slice_params(args@) =~= seq![
            ("lhs"@, value_ref(bool_type_id())),
            ("rhs"@, value_ref(bool_type_id())),
        ]);
    }
    s
}

/// The entries `register_bool` adds: id, name and parent type of each function.
pub open spec fn bool_function_defs() -> Seq<(FunctionID, Seq<char>, Option<TypeID>)> {
    seq![
        (PrintB.function_id(), PrintB.function_name(), PrintB.owner_type()),
        (BoolEqual.function_id(), BoolEqual.function_name(), BoolEqual.owner_type()),
        (BoolNotEqual.function_id(), BoolNotEqual.function_name(), BoolNotEqual.owner_type()),
        (BoolAnd.function_id(), BoolAnd.function_name(), BoolAnd.owner_type()),
        (BoolAssignAnd.function_id(), BoolAssignAnd.function_name(), BoolAssignAnd.owner_type()),
        (BoolOr.function_id(), BoolOr.function_name(), BoolOr.owner_type()),
        (BoolAssignOr.function_id(), BoolAssignOr.function_name(), BoolAssignOr.owner_type()),
        (BoolNot.function_id(), BoolNot.function_name(), BoolNot.owner_type()),
    ]
}

/// The signatures `register_bool` registers, in order.
pub open spec fn bool_function_signatures() -> Seq<(SelfType, Seq<(Seq<char>, TypeRef)>, Option<TypeRef>)> {
    seq![
        PrintB.signature_spec(),
        BoolEqual.signature_spec(),
        BoolNotEqual.signature_spec(),
        BoolAnd.signature_spec(),
        BoolAssignAnd.signature_spec(),
        BoolOr.signature_spec(),
        BoolAssignOr.signature_spec(),
        BoolNot.signature_spec(),
    ]
}

/// Registers the boolean type and its functions in the `GlobalTable`.
pub fn register_bool(global_table: &mut GlobalTable)
    ensures
        final(global_table).type_defs() == old(global_table).type_defs().push(
            (bool_type_id(), "bool"@, 1usize),
        ),
        final(global_table).function_defs() == old(global_table).function_defs() + bool_function_defs(),
        final(global_table).function_signatures() == old(global_table).function_signatures()
            + bool_function_signatures(),
{
    global_table.register_builtin_type(&BoolType);
    global_table.register_inline_function(&PrintB);
    global_table.register_inline_function(&BoolEqual);
    global_table.register_inline_function(&BoolNotEqual);
    global_table.register_inline_function(&BoolAnd);
    global_table.register_inline_function(&BoolAssignAnd);
    global_table.register_inline_function(&BoolOr);
    global_table.register_inline_function(&BoolAssignOr);
    global_table.register_inline_function(&BoolNot);
    proof {
        assert(global_table.function_defs() =~= old(global_table).function_defs() + bool_function_defs());
        assert(global_table.function_signatures() =~= old(global_table).function_signatures() + bool_function_signatures());
    }
}

/// The boolean type `bool`.
pub struct BoolType;

impl BoolType {
    pub fn id() -> (t: TypeID)
        ensures
            t == bool_type_id(),
    {
        t_id(BOOL_TYPE_UID)
    }
}

/// The byte a boolean literal is stored as: `1` for true (or a non-zero integer), else `0`.
pub open spec fn bool_literal_byte(literal: LiteralTokens) -> Seq<char> {
    match literal {
        LiteralTokens::Bool(value) => if value {
            "1"@
        } else {
            "0"@
        },
        LiteralTokens::Int(value) => if value == 0 {
            "0"@
        } else {
            "1"@
        },
    }
}

/// The text storing a boolean literal at `location`.
pub open spec fn bool_literal_text(location: LocalAddress, literal: LiteralTokens) -> Seq<char> {
    "    mov byte "@ + address_text(location) + ", "@ + bool_literal_byte(literal) + "\n"@
}

impl Type for BoolType {
    open spec fn type_id(&self) -> TypeID {
        bool_type_id()
    }

    open spec fn type_size(&self) -> usize {
        1
    }

    open spec fn display_name(&self) -> Seq<char> {
        "bool"@
    }

    fn id(&self) -> (r: TypeID) {
        Self::id()
    }

    fn size(&self) -> (r: ByteSize) {
        ByteSize(1)
    }

    fn name(&self) -> (r: &'static str) {
        "bool"
    }

    fn instantiate_from_literal(&self, location: &LocalAddress, literal: &LiteralToken) -> (r:
        Result<Assembly, WErr>)
        ensures
            r matches Ok(a) && a@ == bool_literal_text(*location, literal.literal),
    {
        let byte = match literal.literal() {
            LiteralTokens::Bool(value) => if *value {
                "1"
            } else {
                "0"
            },
            LiteralTokens::Int(value) => if *value == 0 {
                "0"
            } else {
                "1"
            },
        };
        let mut s = String::new();
        s.append("    mov byte ");
        location.append_text(&mut s);
        s.append(", ");
        s.append(byte);
        s.append("\n");
        proof {
            assert(s@ =~= bool_literal_text(*location, literal.literal));
        }
        Ok(s)
    }
}

} // verus!
