//! A self-contained integer type with its own id, kept beside `types::integer`.

use vstd::prelude::*;
use vstd::string::StringExecFns;
use crate::assembler::Assembly;
use crate::builtin::{builtin_type_id, Type};
use crate::common::{address_text, ByteSize, LocalAddress, TypeID};
use crate::errors::{LiteralToken, LiteralTokens, WErr};
use crate::text::{append_int, int_text};

pub mod sub;

verus! {

/// Unique id of this integer type.
pub const BASIC_INT_TYPE_UID: u16 = 30;

/// The type id of this integer type.
pub open spec fn basic_int_type_id() -> TypeID {
    builtin_type_id(BASIC_INT_TYPE_UID)
}

/// A 64-bit integer type `int`.
pub struct IntType;

impl IntType {
    pub fn id() -> (t: TypeID)
        ensures
            t == basic_int_type_id(),
    {
        TypeID(-(BASIC_INT_TYPE_UID as isize) - 1)
    }
}

/// The text storing a literal: booleans as `0` for true and `1` for false, integers as
/// their value. No trailing newline.
pub open spec fn basic_int_literal_text(location: LocalAddress, literal: LiteralTokens) -> Seq<char> {
    "    mov qword "@ + address_text(location) + ", "@ + match literal {
        LiteralTokens::Bool(value) => if value {
            "0"@
        } else {
            "1"@
        },
        LiteralTokens::Int(value) => int_text(value as int),
    }
}

impl Type for IntType {
    open spec fn type_id(&self) -> TypeID {
        basic_int_type_id()
    }

    open spec fn type_size(&self) -> usize {
        8
    }

    open spec fn display_name(&self) -> Seq<char> {
        "int"@
    }

    fn id(&self) -> (r: TypeID) {
        Self::id()
    }

    fn size(&self) -> (r: ByteSize) {
        ByteSize(8)
    }

    fn name(&self) -> (r: &'static str) {
        "int"
    }

    fn instantiate_from_literal(&self, location: &LocalAddress, literal: &LiteralToken) -> (r:
        Result<Assembly, WErr>)
        ensures
            r matches Ok(a) && a@ == basic_int_literal_text(*location, literal.literal),
    {
        let mut s = String::new();
        s.append("    mov qword ");
        location.append_text(&mut s);
        s.append(", ");
        match literal.literal() {
            LiteralTokens::Bool(value) => {
                if *value {
                    s.append("0");
                } else {
                    s.append("1");
                }
            },
            LiteralTokens::Int(value) => {
                append_int(&mut s, *value);
            },
        }
        proof {
            assert(s@ =~= basic_int_literal_text(*location, literal.literal));
        }
        Ok(s)
    }
}

} // verus!
