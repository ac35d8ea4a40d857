//! The builtin integer type `int` and its operations.

use vstd::prelude::*;
use crate::builtin::SelfType;
use crate::common::TypeRef;
use vstd::string::StringExecFns;
use crate::assembler::Assembly;
use crate::builtin::{builtin_type_id, t_id, BuiltinInlineFunction, Type};
use crate::common::{address_text, ByteSize, FunctionID, LocalAddress, TypeID};
use crate::compiler::assembly::utils::{write_64bit_int, write_int_text};
use crate::compiler::global_table::GlobalTable;
use crate::errors::{CompErrs, ErrorKind, LiteralToken, LiteralTokens, WErr};
use comparators::{
    IntEqual, IntGreaterThan, IntGreaterThanEqual, IntLessThan, IntLessThanEqual, IntNotEqual,
};
use modulo::{IntAssignModulo, IntModulo};
use prefix_addition::IntPrefixAddition;
use prefix_subtract::IntPrefixSubtract;
use print_int::PrintInt;

pub mod comparators;
pub mod div;
pub mod eq;
pub mod modulo;
pub mod p_add;
pub mod p_sub;
pub mod prefix_addition;
pub mod prefix_subtract;
pub mod print_int;
pub mod printi;

verus! {

/// Unique id of `int`.
pub const INT_TYPE_UID: u16 = 0;

/// The type id of `int`.
pub open spec fn int_type_id() -> TypeID {
    builtin_type_id(INT_TYPE_UID)
}

/// The entries `register_int` adds: id, name and parent type of each function.
pub open spec fn int_function_defs() -> Seq<(FunctionID, Seq<char>, Option<TypeID>)> {
    seq![
        (IntPrefixAddition.function_id(), IntPrefixAddition.function_name(), IntPrefixAddition.owner_type()),
        (IntPrefixSubtract.function_id(), IntPrefixSubtract.function_name(), IntPrefixSubtract.owner_type()),
        (IntModulo.function_id(), IntModulo.function_name(), IntModulo.owner_type()),
        (IntAssignModulo.function_id(), IntAssignModulo.function_name(), IntAssignModulo.owner_type()),
        (IntEqual.function_id(), IntEqual.function_name(), IntEqual.owner_type()),
        (IntNotEqual.function_id(), IntNotEqual.function_name(), IntNotEqual.owner_type()),
        (IntGreaterThan.function_id(), IntGreaterThan.function_name(), IntGreaterThan.owner_type()),
        (IntLessThan.function_id(), IntLessThan.function_name(), IntLessThan.owner_type()),
        (IntGreaterThanEqual.function_id(), IntGreaterThanEqual.function_name(), IntGreaterThanEqual.owner_type()),
        (IntLessThanEqual.function_id(), IntLessThanEqual.function_name(), IntLessThanEqual.owner_type()),
        (PrintInt.function_id(), PrintInt.function_name(), PrintInt.owner_type()),
    ]
}

/// The signatures `register_int` registers, in order.
pub open spec fn int_function_signatures() -> Seq<(SelfType, Seq<(Seq<char>, TypeRef)>, Option<TypeRef>)> {
    seq![
        IntPrefixAddition.signature_spec(),
        IntPrefixSubtract.signature_spec(),
        IntModulo.signature_spec(),
        IntAssignModulo.signature_spec(),
        IntEqual.signature_spec(),
        IntNotEqual.signature_spec(),
        IntGreaterThan.signature_spec(),
        IntLessThan.signature_spec(),
        IntGreaterThanEqual.signature_spec(),
        IntLessThanEqual.signature_spec(),
        PrintInt.signature_spec(),
    ]
}

/// Registers the integer type and its functions in the `GlobalTable`.
pub fn register_int(global_table: &mut GlobalTable)
    ensures
        final(global_table).type_defs() == old(global_table).type_defs().push(
            (int_type_id(), "int"@, 8usize),
        ),
        final(global_table).function_defs() == old(global_table).function_defs() + int_function_defs(),
        final(global_table).function_signatures() == old(global_table).function_signatures()
            + int_function_signatures(),
{
    global_table.register_builtin_type(&IntType);
    global_table.register_inline_function(&IntPrefixAddition);
    global_table.register_inline_function(&IntPrefixSubtract);
    global_table.register_inline_function(&IntModulo);
    global_table.register_inline_function(&IntAssignModulo);
    global_table.register_inline_function(&IntEqual);
    global_table.register_inline_function(&IntNotEqual);
    global_table.register_inline_function(&IntGreaterThan);
    global_table.register_inline_function(&IntLessThan);
    global_table.register_inline_function(&IntGreaterThanEqual);
    global_table.register_inline_function(&IntLessThanEqual);
    global_table.register_inline_function(&PrintInt);
    proof {
        assert(global_table.function_defs() =~= old(global_table).function_defs() + int_function_defs());
        assert(global_table.function_signatures() =~= old(global_table).function_signatures() + int_function_signatures());
    }
}

/// The builtin 64-bit integer type `int`.
pub struct IntType;

impl IntType {
    pub fn id() -> (t: TypeID)
        ensures
            t == int_type_id(),
    {
        t_id(INT_TYPE_UID)
    }
}

/// The text storing a boolean literal in an integer: `true` is stored as `0`, `false` as `1`.
pub open spec fn int_bool_literal_text(location: LocalAddress, value: bool) -> Seq<char> {
    "    mov qword "@ + address_text(location) + (if value {
        ", 0\n"@
    } else {
        ", 1\n"@
    })
}

impl Type for IntType {
    open spec fn type_id(&self) -> TypeID {
        int_type_id()
    }

    open spec fn type_size(&self) -> usize {
        8
    }

    open spec fn display_name(&self) -> Seq<char> {
        "int"@
    }

    fn id(&self) -> (r: TypeID) {
        Self::id()
    }

    fn size(&self) -> (r: ByteSize) {
        ByteSize(8)
    }

    fn name(&self) -> (r: &'static str) {
        "int"
    }

    fn instantiate_from_literal(&self, location: &LocalAddress, literal: &LiteralToken) -> (r:
        Result<Assembly, WErr>)
        ensures
            match literal.literal {
                LiteralTokens::Bool(value) => r matches Ok(a) && a@ == int_bool_literal_text(
                    *location,
                    value,
                ),
                LiteralTokens::Int(value) => if value > i64::MAX {
                    &&& r matches Err(e)
                    &&& e.location == literal.location
                    &&& e.error matches ErrorKind::Comp(CompErrs::IntLiteralExceedsMax(v, m))
                    &&& v == value
                    &&& m == i64::MAX
                } else if value < i64::MIN {
                    &&& r matches Err(e)
                    &&& e.location == literal.location
                    &&& e.error matches ErrorKind::Comp(CompErrs::IntLiteralBelowMin(v, m))
                    &&& v == value
                    &&& m == i64::MIN
                } else {
                    r matches Ok(a) && a@ == write_int_text(value as int, *location)
                },
            },
    {
        match literal.literal() {
            LiteralTokens::Bool(value) => {
                let mut s = String::new();
                s.append("    mov qword ");
                location.append_text(&mut s);
                if *value {
                    s.append(", 0\n");
                } else {
                    s.append(", 1\n");
                }
                proof {
                    assert(s@ =~= int_bool_literal_text(*location, *value));
                }
                Ok(s)
            },
            LiteralTokens::Int(value) => {
                if *value > i64::MAX as i128 {
                    return Err(
                        WErr::n(
                            ErrorKind::Comp(
                                CompErrs::IntLiteralExceedsMax(*value, i64::MAX as i128),
                            ),
                            *literal.location(),
                        ),
                    );
                }
                if *value < i64::MIN as i128 {
                    return Err(
                        WErr::n(
                            ErrorKind::Comp(CompErrs::IntLiteralBelowMin(*value, i64::MIN as i128)),
                            *literal.location(),
                        ),
                    );
                }
                Ok(write_64bit_int(*value as i64, location))
            },
        }
    }
}

} // verus!
