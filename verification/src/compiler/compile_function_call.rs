//! Calling a compiled function with arguments that are already evaluated.

use vstd::prelude::*;
use vstd::string::StringExecFns;
use crate::assembler::{indented_line, Assembly, AssemblyBuilder};
use crate::builtin::BuiltinInlineFunction;
use crate::common::{function_label, AddressedTypeRef, ByteSize, FunctionID, LocalAddress, TypeRef};
use crate::compiler::assembly::utils::{aligned_16, aligned_16_plus_8, align_16_bytes, align_16_bytes_plus_8, copy, copy_text, CopyMode};
use crate::compiler::compile_function::parameter_address;
use crate::compiler::evaluation::evaluate::{place_ok, slot};
use crate::compiler::global_table::GlobalTable;
use crate::compiler::global_tracker::GlobalTracker;
use crate::compiler::local_variable_table::LocalVariableTable;
use crate::text::nat_text;

verus! {

/// The copies of `args[k - 1]`, `args[k - 2]`, ..., `args[0]` into new slots from stack
/// size `size` on, and the stack size after them.
pub open spec fn argument_copies(table: GlobalTable, args: Seq<AddressedTypeRef>, k: nat, size: nat) -> (Seq<char>, nat)
    decreases k,
{
    if k == 0 || k > args.len() {
        (Seq::empty(), size)
    } else {
        let t = args[k - 1].type_ref;
        let s = slot(table, size, t);
        let rest = argument_copies(table, args, (k - 1) as nat, size + table.size_of(t));
        (copy_text(CopyMode::Direct, args[k - 1].address, s.address, table.size_of(t)) + rest.0, rest.1)
    }
}

/// The padding below the arguments that keeps the stack aligned at the call: the return
/// value's slot sits just above the arguments.
pub open spec fn call_padding(table: GlobalTable, return_type: Option<TypeRef>) -> nat {
    match return_type {
        Some(t) => (aligned_16(table.size_of(t)) - table.size_of(t)) as nat,
        None => aligned_16_plus_8(0),
    }
}

/// The slot the return value is left in, on a stack of `size` bytes.
pub open spec fn return_slot(table: GlobalTable, size: nat, return_type: Option<TypeRef>) -> Option<AddressedTypeRef> {
    match return_type {
        Some(t) => Some(slot(table, size + call_padding(table, return_type), t)),
        None => None,
    }
}

/// The stack size after the padding and the return slot.
pub open spec fn frame_size(table: GlobalTable, size: nat, return_type: Option<TypeRef>) -> nat {
    size + call_padding(table, return_type) + match return_type {
        Some(t) => table.size_of(t),
        None => 0,
    }
}

/// The text of a call of `fid` with `args` on a stack of `size` bytes: the arguments
/// copied, last first, above the return slot; the stack pointer moved below them for the
/// call; and the return value copied to `return_address` if one is given.
pub open spec fn call_text(
    table: GlobalTable,
    fid: FunctionID,
    args: Seq<AddressedTypeRef>,
    size: nat,
    return_type: Option<TypeRef>,
    return_address: Option<AddressedTypeRef>,
) -> Seq<char> {
    let copies = argument_copies(table, args, args.len(), frame_size(table, size, return_type));
    let n = nat_text(copies.1);
    copies.0 + indented_line("sub rsp, "@ + n) + indented_line("call "@ + function_label(fid))
        + indented_line("add rsp, "@ + n) + match return_address {
        Some(ra) => copy_text(
            CopyMode::Direct,
            return_slot(table, size, return_type).unwrap().address,
            ra.address,
            table.size_of(return_type.unwrap()),
        ),
        None => Seq::empty(),
    }
}

/// Copies `args[..k]`, last first, into new slots.
fn copy_arguments(
    args: &[AddressedTypeRef],
    k: usize,
    global_table: &GlobalTable,
    local_variables: &mut LocalVariableTable,
    out: &mut String,
)
    requires
        k <= args@.len(),
        old(local_variables).wf(),
        old(local_variables).sizes().len() > 0,
        forall|j: int| 0 <= j < args@.len() ==> place_ok(*global_table, #[trigger] args@[j]),
        argument_copies(*global_table, args@, k as nat, old(local_variables).current_size() as nat).1 <= isize::MAX,
    ensures
        final(local_variables).wf(),
        final(local_variables).scopes() == old(local_variables).scopes(),
        final(local_variables).sizes() == old(local_variables).sizes().update(
            old(local_variables).sizes().len() - 1,
            argument_copies(*global_table, args@, k as nat, old(local_variables).current_size() as nat).1 as usize,
        ),
        final(out)@ == old(out)@ + argument_copies(*global_table, args@, k as nat, old(local_variables).current_size() as nat).0,
    decreases k,
{
    let ghost table = *global_table;
    let ghost size0 = local_variables.current_size() as nat;
    proof {
        local_variables.lemma_scopes_match_sizes();
        assert(local_variables.sizes().update(local_variables.sizes().len() - 1, local_variables.current_size()) =~= local_variables.sizes());
    }
    if k == 0 {
        proof {
            assert(old(out)@ + Seq::<char>::empty() =~= old(out)@);
        }
        return;
    }
    let a = args[k - 1];
    proof {
        lemma_copies_grow(table, args@, (k - 1) as nat, size0 + table.size_of(a.type_ref));
    }
    let s = global_table.add_local_variable_unnamed(a.type_ref, local_variables);
    let c = copy(a.address, s.address, global_table.get_size(&a.type_ref));
    out.append(c.as_str());
    let ghost mid = out@;
    copy_arguments(args, k - 1, global_table, local_variables, out);
    proof {
        assert(local_variables.sizes() =~= old(local_variables).sizes().update(
            old(local_variables).sizes().len() - 1,
            argument_copies(table, args@, k as nat, size0).1 as usize,
        ));
        assert(out@ =~= old(out)@ + argument_copies(table, args@, k as nat, size0).0);
    }
}

/// The copies never shrink the stack.
proof fn lemma_copies_grow(table: GlobalTable, args: Seq<AddressedTypeRef>, k: nat, size: nat)
    ensures
        argument_copies(table, args, k, size).1 >= size,
    decreases k,
{
    if k > 0 && k <= args.len() {
        lemma_copies_grow(table, args, (k - 1) as nat, size + table.size_of(args[k - 1].type_ref));
    }
}

/// The types of the arguments, in order.
pub open spec fn argument_types(args: Seq<AddressedTypeRef>) -> Seq<TypeRef> {
    args.map_values(|a: AddressedTypeRef| a.type_ref)
}

/// `f(k - 1) + f(k - 2) + ... + f(0)`.
pub open spec fn last_first(f: spec_fn(nat) -> Seq<char>, k: nat) -> Seq<char>
    decreases k,
{
    if k == 0 {
        Seq::empty()
    } else {
        f((k - 1) as nat) + last_first(f, (k - 1) as nat)
    }
}

/// The copy of argument `j` of `args` into the slot at `parameter_address(j) - 16 - n`,
/// which, once the stack pointer is lowered by `n` and the call has pushed the return
/// address and the callee its frame pointer, is the callee's `[rbp + parameter_address(j)]`.
pub open spec fn argument_to_parameter(table: GlobalTable, args: Seq<AddressedTypeRef>, n: nat, j: nat) -> Seq<char> {
    copy_text(
        CopyMode::Direct,
        args[j as int].address,
        LocalAddress((parameter_address(table, argument_types(args), j) - 16 - n) as isize),
        table.size_of(args[j as int].type_ref),
    )
}

proof fn lemma_arguments_at_parameters(table: GlobalTable, args: Seq<AddressedTypeRef>, k: nat, size: nat, n: nat)
    requires
        k <= args.len(),
        n == size + parameter_address(table, argument_types(args), k) - 16,
    ensures
        argument_copies(table, args, k, size).1 == n,
        argument_copies(table, args, k, size).0 == last_first(|j: nat| argument_to_parameter(table, args, n, j), k),
    decreases k,
{
    if k > 0 {
        let t = args[k - 1].type_ref;
        assert(argument_types(args)[k - 1] == t);
        lemma_arguments_at_parameters(table, args, (k - 1) as nat, size + table.size_of(t), n);
    }
}

/// Each argument lands where the callee reads the matching parameter: with `n` the stack
/// size after the copies (the amount `rsp` is lowered by for the call), argument `j` is
/// copied to `parameter_address(j) - 16 - n` below the caller's frame pointer, which is the
/// callee's `[rbp + parameter_address(j)]`; the last argument is copied first. The stack
/// grows by exactly the arguments' sizes.
pub proof fn arguments_land_on_parameters(table: GlobalTable, args: Seq<AddressedTypeRef>, size: nat)
    ensures
        argument_copies(table, args, args.len(), size).1 == size + parameter_address(table, argument_types(args), args.len()) - 16,
        argument_copies(table, args, args.len(), size).0 == last_first(
            |j: nat| argument_to_parameter(table, args, argument_copies(table, args, args.len(), size).1, j),
            args.len(),
        ),
{
    let n = (size + parameter_address(table, argument_types(args), args.len()) - 16) as nat;
    lemma_parameter_address_at_least_16(table, argument_types(args), args.len());
    lemma_arguments_at_parameters(table, args, args.len(), size, n);
}

proof fn lemma_parameter_address_at_least_16(table: GlobalTable, types: Seq<TypeRef>, i: nat)
    ensures
        parameter_address(table, types, i) >= 16,
    decreases i,
{
    if i > 0 {
        lemma_parameter_address_at_least_16(table, types, (i - 1) as nat);
    }
}

/// Calls the compiled function `fid`, which returns a value of `return_type` if any, with
/// the arguments `args`, already evaluated. Records the call so that `fid` is compiled.
/// Returns the code and where the return value is: `return_address` if given, otherwise
/// the slot the call left it in.
pub fn call_function(
    fid: FunctionID,
    args: &[AddressedTypeRef],
    return_type: Option<TypeRef>,
    return_address: Option<AddressedTypeRef>,
    global_table: &GlobalTable,
    local_variables: &mut LocalVariableTable,
    global_tracker: &mut GlobalTracker,
) -> (r: (Assembly, Option<AddressedTypeRef>))
    requires
        old(local_variables).wf(),
        old(local_variables).sizes().len() > 0,
        old(global_tracker).wf(),
        forall|j: int| 0 <= j < args@.len() ==> place_ok(*global_table, #[trigger] args@[j]),
        return_type matches Some(t) ==> global_table.has_type(t.type_id),
        return_address is Some ==> return_type is Some,
        return_address matches Some(ra) ==> place_ok(*global_table, ra)
            && global_table.size_of(ra.type_ref) == global_table.size_of(return_type.unwrap()),
        argument_copies(*global_table, args@, args@.len(), frame_size(*global_table, old(local_variables).current_size() as nat, return_type)).1
            <= isize::MAX,
    ensures
        r.0@ == call_text(*global_table, fid, args@, old(local_variables).current_size() as nat, return_type, return_address),
        r.1 == match return_address {
            Some(ra) => Some(ra),
            None => return_slot(*global_table, old(local_variables).current_size() as nat, return_type),
        },
        final(local_variables).wf(),
        final(local_variables).scopes() == old(local_variables).scopes(),
        final(local_variables).sizes() == old(local_variables).sizes().update(
            old(local_variables).sizes().len() - 1,
            frame_size(*global_table, old(local_variables).current_size() as nat, return_type) as usize,
        ),
        final(global_tracker).wf(),
        final(global_tracker).calls() == old(global_tracker).calls().insert(fid),
        final(global_tracker).tag_counter() == old(global_tracker).tag_counter(),
        final(global_tracker).readonly_section() == old(global_tracker).readonly_section(),
{
    let ghost table = *global_table;
    let ghost size0 = local_variables.current_size() as nat;
    proof {
        lemma_copies_grow(table, args@, args@.len(), frame_size(table, size0, return_type));
    }
    global_tracker.store_function_call(fid);
    let ret = match return_type {
        Some(t) => {
            let s = global_table.get_size(&t);
            let padding = align_16_bytes(s);
            local_variables.add_new_unnamed(ByteSize(padding.0 - s.0));
            Some(global_table.add_local_variable_unnamed(t, local_variables))
        },
        None => {
            let padding = align_16_bytes_plus_8(ByteSize(0));
            local_variables.add_new_unnamed(padding);
            None
        },
    };
    proof {
        assert(ret == return_slot(table, size0, return_type));
        local_variables.lemma_scopes_match_sizes();
    }
    let ghost outer = local_variables.sizes();
    local_variables.enter_scope();
    let mut text = String::new();
    copy_arguments(args, args.len(), global_table, local_variables, &mut text);
    let n = local_variables.stack_size();
    let mut sub = String::from_str("sub rsp, ");
    n.append_text(&mut sub);
    let mut call = String::from_str("call ");
    fid.append_string_id(&mut call);
    let mut add = String::from_str("add rsp, ");
    n.append_text(&mut add);
    proof {
        local_variables.lemma_scopes_match_sizes();
    }
    local_variables.leave_scope();
    let mut b = AssemblyBuilder::new();
    b.other(text.as_str());
    b.line(sub.as_str());
    b.line(call.as_str());
    b.line(add.as_str());
    let result = match return_address {
        Some(ra) => {
            let rs = ret.unwrap();
            b.other(copy(rs.address, ra.address, global_table.get_size(&rs.type_ref)).as_str());
            Some(ra)
        },
        None => ret,
    };
    proof {
        assert(local_variables.scopes() =~= old(local_variables).scopes());
        assert(local_variables.sizes() =~= old(local_variables).sizes().update(
            old(local_variables).sizes().len() - 1,
            frame_size(table, size0, return_type) as usize,
        ));
        assert(b@ =~= call_text(table, fid, args@, size0, return_type, return_address));
    }
    (b.finish(), result)
}

/// The addresses of `args`, in order.
pub open spec fn argument_addresses(args: Seq<AddressedTypeRef>) -> Seq<LocalAddress> {
    args.map_values(|a: AddressedTypeRef| a.address)
}

/// Where the result of an inline call goes: the given place, or else a new slot of the
/// return type on a stack of `size` bytes; nowhere when the function returns nothing.
pub open spec fn inline_return(
    table: GlobalTable,
    size: nat,
    return_type: Option<TypeRef>,
    return_address: Option<AddressedTypeRef>,
) -> Option<AddressedTypeRef> {
    match return_type {
        Some(t) => match return_address {
            Some(ra) => Some(ra),
            None => Some(slot(table, size, t)),
        },
        None => None,
    }
}

/// The stack size after an inline call that started on a stack of `size` bytes.
pub open spec fn inline_frame_size(
    table: GlobalTable,
    size: nat,
    return_type: Option<TypeRef>,
    return_address: Option<AddressedTypeRef>,
) -> nat {
    match return_type {
        Some(t) => if return_address is None {
            size + table.size_of(t)
        } else {
            size
        },
        None => size,
    }
}

/// Calls the builtin `f`, whose code is written in place, with arguments that are already
/// evaluated: the result goes to `return_address`, or to a new slot when none is given,
/// and the call is recorded so that the function counts as used.
pub fn call_inline_function<F: BuiltinInlineFunction>(
    f: &F,
    args: &[AddressedTypeRef],
    return_address: Option<AddressedTypeRef>,
    global_table: &GlobalTable,
    local_variables: &mut LocalVariableTable,
    global_tracker: &mut GlobalTracker,
) -> (r: (Assembly, Option<AddressedTypeRef>))
    requires
        old(local_variables).wf(),
        old(local_variables).sizes().len() > 0,
        old(global_tracker).wf(),
        old(global_tracker).tag_counter() + f.tags_used() <= usize::MAX,
        args@.len() >= f.arity(),
        f.writes_return() ==> f.signature_spec().2 is Some,
        return_address is Some ==> f.signature_spec().2 is Some,
        return_address matches Some(ra) ==> ra.type_ref == f.signature_spec().2.unwrap(),
        f.signature_spec().2 matches Some(t) ==> (t.indirection.0 == 0 ==> global_table.has_type(t.type_id))
            && old(local_variables).current_size() + global_table.size_of(t) <= isize::MAX,
    ensures
        r.1 == inline_return(*global_table, old(local_variables).current_size() as nat, f.signature_spec().2, return_address),
        r.0@ == f.inline_text(
            argument_addresses(args@),
            match r.1 {
                Some(v) => Some(v.address),
                None => None,
            },
            ByteSize(final(local_variables).current_size()),
            old(global_tracker).tag_counter() as nat,
        ),
        final(local_variables).wf(),
        final(local_variables).scopes() == old(local_variables).scopes(),
        final(local_variables).sizes() == old(local_variables).sizes().update(
            old(local_variables).sizes().len() - 1,
            inline_frame_size(*global_table, old(local_variables).current_size() as nat, f.signature_spec().2, return_address) as usize,
        ),
        final(global_tracker).wf(),
        final(global_tracker).calls() == old(global_tracker).calls().insert(f.function_id()),
        final(global_tracker).tag_counter() == old(global_tracker).tag_counter() + f.tags_used(),
{
    global_tracker.store_function_call(f.id());
    let signature = f.signature();
    let return_into = match signature.return_type {
        Some(t) => match return_address {
            Some(ra) => Some(ra),
            None => Some(global_table.add_local_variable_unnamed(t, local_variables)),
        },
        None => None,
    };
    proof {
        if f.signature_spec().2 is None || return_address is Some {
            assert(local_variables.sizes() =~= old(local_variables).sizes().update(
                old(local_variables).sizes().len() - 1,
                old(local_variables).current_size(),
            ));
        }
    }
    let mut addresses: Vec<LocalAddress> = Vec::new();
    let mut i: usize = 0;
    while i < args.len()
        invariant
            i <= args@.len(),
            addresses@ == argument_addresses(args@).take(i as int),
        decreases args@.len() - i,
    {
        addresses.push(args[i].address);
        proof {
            assert(argument_addresses(args@).take(i + 1) =~= argument_addresses(args@).take(i as int).push(args@[i as int].address));
        }
        i = i + 1;
    }
    proof {
        assert(argument_addresses(args@).take(args@.len() as int) =~= argument_addresses(args@));
    }
    let into = match return_into {
        Some(v) => Some(v.address),
        None => None,
    };
    let sz = local_variables.stack_size();
    let text = f.inline(addresses.as_slice(), into, global_tracker, sz);
    (text, return_into)
}

} // verus!
