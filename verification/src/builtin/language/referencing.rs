//! Taking references and dereferencing.

use vstd::prelude::*;
use vstd::string::StringExecFns;
use crate::common::{address_text, AddressedTypeRef, LocalAddress};
use crate::compiler::assembly::utils::{copy_from_indirect, copy_in_range, copy_text, CopyMode};
use crate::compiler::global_table::GlobalTable;
use crate::errors::{ErrorKind, EvalErrs, Location, WErr};
use crate::text::{append_hex, hex_text};

verus! {

/// The text that stores the address of the slot `to_ref` in the slot `into`.
/// The offset is written as `0x` and sixteen hexadecimal digits (two's complement).
pub open spec fn set_reference_text(to_ref: LocalAddress, into: LocalAddress) -> Seq<char> {
    "    mov rax, rbp\n    add rax, 0x"@ + hex_text((to_ref.0 as u64) as nat, 16)
        + "\n    mov qword "@ + address_text(into) + ", rax\n"@
}

/// Sets `into` to the address of `to_ref`.
pub fn set_reference(
    location: &Location,
    to_ref: AddressedTypeRef,
    into: AddressedTypeRef,
    global_table: &GlobalTable,
) -> (r: Result<String, WErr>)
    requires
        to_ref.type_ref.indirection.0 < usize::MAX,
        global_table.has_type(to_ref.type_ref.type_id),
        global_table.has_type(into.type_ref.type_id),
    ensures
        into.type_ref == to_ref.type_ref.plus_one_indirect_spec() ==> (r matches Ok(s) && s@
            == set_reference_text(to_ref.address, into.address)),
        into.type_ref != to_ref.type_ref.plus_one_indirect_spec() ==> ({
            &&& r matches Err(e)
            &&& e.location == *location
            &&& e.error matches ErrorKind::Eval(EvalErrs::OpWrongReturnType(expected, found))
            &&& expected@ == global_table.name_of(into.type_ref)
            &&& found@ == global_table.name_of(to_ref.type_ref.plus_one_indirect_spec())
        }),
{
    let new_type = to_ref.type_ref().plus_one_indirect();
    if new_type != *into.type_ref() {
        return Err(
            WErr::n(
                ErrorKind::Eval(
                    EvalErrs::OpWrongReturnType(
                        global_table.get_type_name(into.type_ref()),
                        global_table.get_type_name(&new_type),
                    ),
                ),
                *location,
            ),
        );
    }
    let mut s = String::new();
    s.append("    mov rax, rbp\n    add rax, 0x");
    append_hex(&mut s, to_ref.local_address().0 as u64, 16);
    s.append("\n    mov qword ");
    into.local_address().append_text(&mut s);
    s.append(", rax\n");
    proof {
        assert(s@ =~= set_reference_text(to_ref.address, into.address));
    }
    Ok(s)
}

/// Sets `into` to the value pointed to by `to_deref`.
pub fn set_deref(
    location: &Location,
    to_deref: AddressedTypeRef,
    into: AddressedTypeRef,
    global_table: &GlobalTable,
) -> (r: Result<String, WErr>)
    requires
        into.type_ref.indirection.0 < usize::MAX,
        global_table.has_type(to_deref.type_ref.type_id),
        global_table.has_type(into.type_ref.type_id),
        copy_in_range(into.address, crate::common::ByteSize(global_table.size_of(into.type_ref) as usize)),
    ensures
        to_deref.type_ref == into.type_ref.plus_one_indirect_spec() ==> (r matches Ok(s) && s@
            == copy_text(
            CopyMode::FromIndirect,
            to_deref.address,
            into.address,
            global_table.size_of(into.type_ref),
        )),
        to_deref.type_ref != into.type_ref.plus_one_indirect_spec() ==> ({
            &&& r matches Err(e)
            &&& e.location == *location
            &&& e.error matches ErrorKind::Eval(EvalErrs::ExpectedDifferentType(expected, found))
            &&& expected@ == global_table.name_of(into.type_ref.plus_one_indirect_spec())
            &&& found@ == global_table.name_of(to_deref.type_ref)
        }),
{
    let expected = into.type_ref().plus_one_indirect();
    if *to_deref.type_ref() != expected {
        return Err(
            WErr::n(
                ErrorKind::Eval(
                    EvalErrs::ExpectedDifferentType(
                        global_table.get_type_name(&expected),
                        global_table.get_type_name(to_deref.type_ref()),
                    ),
                ),
                *location,
            ),
        );
    }
    Ok(
        copy_from_indirect(
            *to_deref.local_address(),
            *into.local_address(),
            global_table.get_size(into.type_ref()),
        ),
    )
}

} // verus!
