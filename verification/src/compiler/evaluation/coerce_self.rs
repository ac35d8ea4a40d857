//! Bringing the receiver of a method call into the form the method takes.

use vstd::prelude::*;
use crate::builtin::language::referencing::{set_reference, set_reference_text};
use crate::builtin::SelfType;
use crate::common::{pointer_ref, value_ref, AddressedTypeRef};
use crate::compiler::assembly::utils::{copy_from_indirect_levels, copy_through_text};
use crate::compiler::global_table::GlobalTable;
use crate::compiler::local_variable_table::LocalVariableTable;
use crate::errors::{Location, WErr};

verus! {

/// What `coerce_self` does to `current`, given the stack sizes `before`: the code it emits,
/// the receiver it hands back and the stack sizes after.
pub open spec fn coerced(
    current: AddressedTypeRef,
    self_type: SelfType,
    global_table: GlobalTable,
    before: Seq<usize>,
    code: Seq<char>,
    receiver: AddressedTypeRef,
    after: Seq<usize>,
) -> bool {
    let stack = before.last();
    let indirection = current.type_ref.indirection.0;
    let unchanged = code == Seq::<char>::empty() && receiver == current && after == before;
    let new_slot = |size: nat|
        receiver.address.0 == -(stack + size) && after == before.update(
            before.len() - 1,
            (stack + size) as usize,
        );
    match self_type {
        SelfType::NoSelf => unchanged,
        SelfType::CopySelf => if indirection > 0 {
            let t = value_ref(current.type_ref.type_id);
            let size = global_table.size_of(t);
            &&& receiver.type_ref == t
            &&& new_slot(size)
            &&& code == copy_through_text(current.address, receiver.address, size, indirection as nat)
        } else {
            unchanged
        },
        SelfType::RefSelf => if indirection == 0 {
            &&& receiver.type_ref == current.type_ref.plus_one_indirect_spec()
            &&& new_slot(8)
            &&& code == set_reference_text(current.address, receiver.address)
        } else if indirection == 1 {
            unchanged
        } else {
            &&& receiver.type_ref == pointer_ref(current.type_ref.type_id)
            &&& new_slot(8)
            &&& code == copy_through_text(
                current.address,
                receiver.address,
                8,
                (indirection - 1) as nat,
            )
        },
    }
}

/// The receiver `coerce_self` hands back is of the same type as the one it was given and
/// reached through as many pointers as the method takes: none for a method taking
/// `self` by value, one for a method taking a reference.
pub proof fn coerced_receiver_has_wanted_form(
    current: AddressedTypeRef,
    self_type: SelfType,
    global_table: GlobalTable,
    before: Seq<usize>,
    code: Seq<char>,
    receiver: AddressedTypeRef,
    after: Seq<usize>,
)
    requires
        coerced(current, self_type, global_table, before, code, receiver, after),
    ensures
        receiver.type_ref.type_id == current.type_ref.type_id,
        self_type is CopySelf ==> receiver.type_ref.indirection.0 == 0,
        self_type is RefSelf ==> receiver.type_ref.indirection.0 == 1,
        self_type is NoSelf ==> receiver == current,
{
}

/// A receiver already in the form the method takes (any receiver for a function without
/// `self`, a value for `self` by value, a single reference for `self` by reference) is
/// handed back as it is, with no code and no stack space; so coercing the receiver that
/// an earlier coercion handed back, with the same `self_type`, does nothing.
pub proof fn coercing_again_does_nothing(
    current: AddressedTypeRef,
    self_type: SelfType,
    global_table: GlobalTable,
    before: Seq<usize>,
    code: Seq<char>,
    receiver: AddressedTypeRef,
    after: Seq<usize>,
    code2: Seq<char>,
    receiver2: AddressedTypeRef,
    after2: Seq<usize>,
)
    requires
        coerced(current, self_type, global_table, before, code, receiver, after),
        coerced(receiver, self_type, global_table, after, code2, receiver2, after2),
    ensures
        code2 == Seq::<char>::empty(),
        receiver2 == receiver,
        after2 == after,
{
}

/// Converts `current_self` into the form `self_type` asks for: a copy of the value, or a
/// reference to it. Returns the code and the converted receiver.
pub fn coerce_self(
    current_self: AddressedTypeRef,
    self_type: SelfType,
    global_table: &GlobalTable,
    local_variables: &mut LocalVariableTable,
) -> (r: Result<(String, AddressedTypeRef), WErr>)
    requires
        global_table.has_type(current_self.type_ref.type_id),
        current_self.type_ref.indirection.0 < usize::MAX,
        old(local_variables).wf(),
        old(local_variables).sizes().len() > 0,
        old(local_variables).current_size() + 8 <= isize::MAX,
        old(local_variables).current_size() + global_table.size_of(
            value_ref(current_self.type_ref.type_id),
        ) <= isize::MAX,
    ensures
        final(local_variables).wf(),
        final(local_variables).scopes() == old(local_variables).scopes(),
        r matches Ok(v) && coerced(
            current_self,
            self_type,
            *global_table,
            old(local_variables).sizes(),
            v.0@,
            v.1,
            final(local_variables).sizes(),
        ),
{
    match self_type {
        SelfType::NoSelf => Ok((String::new(), current_self)),
        SelfType::CopySelf => {
            if current_self.type_ref().indirection().has_indirection() {
                let new_self = global_table.add_local_variable_unnamed(
                    current_self.type_ref().type_id().immediate_single(),
                    local_variables,
                );
                let size = global_table.get_size(new_self.type_ref());
                let code = copy_from_indirect_levels(
                    *current_self.local_address(),
                    *new_self.local_address(),
                    size,
                    current_self.type_ref().indirection().0,
                );
                Ok((code, new_self))
            } else {
                Ok((String::new(), current_self))
            }
        },
        SelfType::RefSelf => {
            if !current_self.type_ref().indirection().has_indirection() {
                let new_self = global_table.add_local_variable_unnamed(
                    current_self.type_ref().plus_one_indirect(),
                    local_variables,
                );
                let code = set_reference(
                    &Location::builtin(),
                    current_self,
                    new_self,
                    global_table,
                )?;
                Ok((code, new_self))
            } else if current_self.type_ref().indirection().0 == 1 {
                Ok((String::new(), current_self))
            } else {
                let new_self = global_table.add_local_variable_unnamed(
                    current_self.type_ref().type_id().with_indirection_single(1),
                    local_variables,
                );
                let size = global_table.get_size(new_self.type_ref());
                let code = copy_from_indirect_levels(
                    *current_self.local_address(),
                    *new_self.local_address(),
                    size,
                    current_self.type_ref().indirection().0 - 1,
                );
                Ok((code, new_self))
            }
        },
    }
}

} // verus!
