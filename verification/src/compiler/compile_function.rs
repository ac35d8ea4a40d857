//! The frame of a compiled function: where its parameters and return value live, the
//! check that it returns, and the text around its body.

use vstd::prelude::*;
use vstd::string::StringExecFns;
use crate::assembler::Assembly;
use crate::builtin::types::integer::{int_type_id, IntType};
use crate::common::{function_label, AddressedTypeRef, FunctionID, LocalAddress, TypeRef};
use crate::compiler::global_table::GlobalTable;
use crate::compiler::local_variable_table::LocalVariableTable;
use crate::ast::evaluable::LineTokens;
use crate::builtin::types::boolean::bool_type_id;
use crate::common::{ByteSize, Indirection};
use crate::compiler::assembly::utils::copy_in_range;
use crate::compiler::compile_lines::{block_lines_outcome, lines_ok, lines_tags, recursively_compile_lines, scopes_ready, LinesOutcome, NESTING_LIMIT};
use crate::compiler::evaluation::evaluate::{error_is, place_ok, EvalError};
use crate::compiler::global_tracker::GlobalTracker;
use crate::errors::{CompErrs, ErrorKind, Location, WErr};

verus! {

/// The address of parameter `i`: parameters lie above the saved base pointer and return
/// address, from `rbp+16` upwards, each right after the one before it.
pub open spec fn parameter_address(table: GlobalTable, types: Seq<TypeRef>, i: nat) -> int
    decreases i,
{
    if i == 0 {
        16
    } else {
        parameter_address(table, types, (i - 1) as nat) + table.size_of(types[i - 1])
    }
}

/// The types of the parameters.
pub open spec fn parameter_types(parameters: Seq<(String, TypeRef)>) -> Seq<TypeRef> {
    parameters.map_values(|p: (String, TypeRef)| p.1)
}

/// A scope after the first `n` parameters have been defined in it.
pub open spec fn with_parameters(
    scope: Map<Seq<char>, AddressedTypeRef>,
    table: GlobalTable,
    parameters: Seq<(String, TypeRef)>,
    n: nat,
) -> Map<Seq<char>, AddressedTypeRef>
    decreases n,
{
    if n == 0 {
        scope
    } else {
        with_parameters(scope, table, parameters, (n - 1) as nat).insert(
            parameters[n - 1].0@,
            AddressedTypeRef {
                address: LocalAddress(
                    parameter_address(table, parameter_types(parameters), (n - 1) as nat) as isize,
                ),
                type_ref: parameters[n - 1].1,
            },
        )
    }
}

/// The return type a function is compiled with: `main` returns nothing to its caller.
pub open spec fn effective_return_type(fid: FunctionID, declared: Option<TypeRef>) -> Option<TypeRef> {
    if fid.0 == 0 {
        None
    } else {
        declared
    }
}

/// The return type of a function as written, with `main` returning nothing.
pub fn return_type_of(fid: FunctionID, declared: Option<TypeRef>) -> (r: Option<TypeRef>)
    ensures
        r == effective_return_type(fid, declared),
{
    if fid.is_main() {
        None
    } else {
        declared
    }
}

/// Defines the parameters in the innermost scope, each at its address above the base
/// pointer, and returns the variable the return value goes into, just above them.
pub fn place_parameters(
    parameters: &[(String, TypeRef)],
    return_type: Option<TypeRef>,
    global_table: &GlobalTable,
    local_variables: &mut LocalVariableTable,
) -> (r: Option<AddressedTypeRef>)
    requires
        old(local_variables).wf(),
        old(local_variables).sizes().len() > 0,
        forall|i: int|
            0 <= i < parameters@.len() ==> (#[trigger] parameters@[i]).1.indirection.0 == 0
                ==> global_table.has_type(parameters@[i].1.type_id),
        parameter_address(*global_table, parameter_types(parameters@), parameters@.len() as nat)
            <= isize::MAX,
    ensures
        final(local_variables).wf(),
        final(local_variables).sizes() == old(local_variables).sizes(),
        final(local_variables).scopes() == old(local_variables).scopes().update(
            old(local_variables).scopes().len() - 1,
            with_parameters(
                old(local_variables).scopes().last(),
                *global_table,
                parameters@,
                parameters@.len() as nat,
            ),
        ),
        r == match return_type {
            Some(t) => Some(
                AddressedTypeRef {
                    address: LocalAddress(
                        parameter_address(
                            *global_table,
                            parameter_types(parameters@),
                            parameters@.len() as nat,
                        ) as isize,
                    ),
                    type_ref: t,
                },
            ),
            None => None,
        },
{
    let ghost table = *global_table;
    let ghost types = parameter_types(parameters@);
    let ghost start = old(local_variables).scopes();
    let mut address: isize = 16;
    let mut i: usize = 0;
    proof {
        old(local_variables).lemma_scopes_match_sizes();
        assert(start.update(start.len() - 1, with_parameters(start.last(), table, parameters@, 0))
            =~= start);
    }
    while i < parameters.len()
        invariant
            i <= parameters@.len(),
            table == *global_table,
            types == parameter_types(parameters@),
            forall|j: int|
                0 <= j < parameters@.len() ==> (#[trigger] parameters@[j]).1.indirection.0 == 0
                    ==> global_table.has_type(parameters@[j].1.type_id),
            parameter_address(table, types, parameters@.len() as nat) <= isize::MAX,
            address == parameter_address(table, types, i as nat),
            local_variables.wf(),
            start.len() > 0,
            old(local_variables).sizes().len() > 0,
            local_variables.sizes() == old(local_variables).sizes(),
            local_variables.scopes() == start.update(
                start.len() - 1,
                with_parameters(start.last(), table, parameters@, i as nat),
            ),
        decreases parameters@.len() - i,
    {
        proof {
            lemma_parameter_addresses_grow(table, types, (i + 1) as nat, parameters@.len() as nat);
            lemma_parameter_addresses_grow(table, types, 0, i as nat);
        }
        let (name, t) = &parameters[i];
        let entry = AddressedTypeRef::new(LocalAddress(address), *t);
        let ghost before = local_variables.scopes();
        local_variables.add_existing(name.clone(), entry);
        proof {
            assert(types[i as int] == *t);
            assert(local_variables.scopes() =~= start.update(
                start.len() - 1,
                with_parameters(start.last(), table, parameters@, (i + 1) as nat),
            ));
        }
        let size = global_table.get_size(t);
        address = address + size.0 as isize;
        i = i + 1;
    }
    match return_type {
        Some(t) => Some(AddressedTypeRef::new(LocalAddress(address), t)),
        None => None,
    }
}

/// Later parameters lie at higher addresses: the address of parameter `i` is at most that
/// of parameter `j` for `i <= j`.
proof fn lemma_parameter_addresses_grow(table: GlobalTable, types: Seq<TypeRef>, i: nat, j: nat)
    requires
        i <= j,
    ensures
        parameter_address(table, types, i) <= parameter_address(table, types, j),
    decreases j,
{
    if i < j {
        lemma_parameter_addresses_grow(table, types, i, (j - 1) as nat);
    }
}

/// The code that ends a function whose last line is not a `return`.
pub open spec fn implicit_return() -> Seq<char> {
    "\nleave\nret"@
}

/// The whole text of a compiled function: its label, the frame set-up, its body, and a
/// return when the body does not end in one.
pub open spec fn function_text(fid: FunctionID, body: Seq<char>, last_return: bool) -> Seq<char> {
    function_label(fid) + ":\n    push rbp\n    mov rbp, rsp\n"@ + body + if last_return {
        Seq::empty()
    } else {
        implicit_return()
    }
}

/// Finishes a compiled function: fails when a function that must return a value (or
/// `main`) does not end in a return, and otherwise wraps the body in the function's frame.
/// The error names the return type, `int` for `main`.
pub fn finish_function(
    fid: FunctionID,
    return_variable: Option<AddressedTypeRef>,
    body: &str,
    last_return: bool,
    end_location: Location,
    global_table: &GlobalTable,
) -> (r: Result<Assembly, WErr>)
    requires
        return_variable matches Some(v) ==> global_table.has_type(v.type_ref.type_id),
        global_table.has_type(int_type_id()),
    ensures
        (return_variable is Some || fid.0 == 0) && !last_return ==> ({
            &&& r matches Err(e)
            &&& e.location == end_location
            &&& e.error matches ErrorKind::Comp(CompErrs::ExpectedReturn(t))
            &&& t@ == global_table.name_of(
                match return_variable {
                    Some(v) => v.type_ref,
                    None => TypeRef {
                        type_id: int_type_id(),
                        element_count: 1,
                        indirection: crate::common::Indirection(0),
                    },
                },
            )
        }),
        !((return_variable is Some || fid.0 == 0) && !last_return) ==> (r matches Ok(a) && a@
            == function_text(fid, body@, last_return)),
{
    if (return_variable.is_some() || fid.is_main()) && !last_return {
        let type_ref = match return_variable {
            Some(v) => v.type_ref,
            None => IntType::id().immediate_single(),
        };
        return Err(
            WErr::n(
                ErrorKind::Comp(CompErrs::ExpectedReturn(global_table.get_type_name(&type_ref))),
                end_location,
            ),
        );
    }
    let mut text = fid.string_id();
    text.append(":\n    push rbp\n    mov rbp, rsp\n");
    text.append(body);
    if !last_return {
        text.append("\nleave\nret");
    }
    proof {
        assert(text@ =~= function_text(fid, body@, last_return));
    }
    Ok(text)
}

/// The variable the return value of a function goes into: just above its parameters.
pub open spec fn return_place(table: GlobalTable, parameters: Seq<(String, TypeRef)>, t: Option<TypeRef>) -> Option<AddressedTypeRef> {
    match t {
        Some(t) => Some(AddressedTypeRef {
            address: LocalAddress(parameter_address(table, parameter_types(parameters), parameters.len() as nat) as isize),
            type_ref: t,
        }),
        None => None,
    }
}

/// The only scope of a function body before its first statement: its parameters.
pub open spec fn parameter_scopes(table: GlobalTable, parameters: Seq<(String, TypeRef)>) -> Seq<Map<Seq<char>, AddressedTypeRef>> {
    seq![with_parameters(Map::empty(), table, parameters, parameters.len() as nat)]
}

/// Compiling the body of function `fid` with `parameters`, declared return type
/// `return_type`, and statements `lines`, with the tag counter at `counter`.
pub open spec fn body_outcome(
    table: GlobalTable, fid: FunctionID, parameters: Seq<(String, TypeRef)>, return_type: Option<TypeRef>,
    lines: Seq<LineTokens>, counter: nat,
) -> LinesOutcome {
    block_lines_outcome(
        table, fid, return_place(table, parameters, effective_return_type(fid, return_type)), None,
        parameter_scopes(table, parameters), 0, counter, lines,
    )
}

/// Whether the parameters and return type are ones the compiler can lay out: registered,
/// within the nesting limit, and all at valid stack addresses.
pub open spec fn signature_ok(table: GlobalTable, parameters: Seq<(String, TypeRef)>, return_type: Option<TypeRef>) -> bool {
    &&& forall|i: int| 0 <= i < parameters.len() ==> table.has_type((#[trigger] parameters[i]).1.type_id)
        && parameters[i].1.indirection.0 <= NESTING_LIMIT
    &&& return_type matches Some(t) ==> table.has_type(t.type_id) && t.indirection.0 + 1 < usize::MAX
    &&& parameter_address(table, parameter_types(parameters), parameters.len() as nat)
        + match return_type { Some(t) => table.size_of(t), None => 0 } <= isize::MAX
}

/// Every parameter is the place of one of the parameters, at its address.
proof fn lemma_parameter_places(
    table: GlobalTable,
    parameters: Seq<(String, TypeRef)>,
    k: nat,
    n: Seq<char>,
)
    requires
        k <= parameters.len(),
        with_parameters(Map::empty(), table, parameters, k).dom().contains(n),
    ensures
        exists|j: int| 0 <= j < k && #[trigger] with_parameters(Map::empty(), table, parameters, k)[n] == (AddressedTypeRef {
            address: LocalAddress(parameter_address(table, parameter_types(parameters), j as nat) as isize),
            type_ref: parameters[j].1,
        }),
    decreases k,
{
    if k > 0 {
        if parameters[k - 1].0@ == n {
            assert(with_parameters(Map::empty(), table, parameters, k)[n] == (AddressedTypeRef {
                address: LocalAddress(parameter_address(table, parameter_types(parameters), (k - 1) as nat) as isize),
                type_ref: parameters[k - 1].1,
            }));
        } else {
            lemma_parameter_places(table, parameters, (k - 1) as nat, n);
        }
    }
}

/// The parameters of a function with a good signature are good places.
proof fn lemma_parameters_ready(table: GlobalTable, parameters: Seq<(String, TypeRef)>, return_type: Option<TypeRef>)
    requires
        signature_ok(table, parameters, return_type),
        table.has_type(int_type_id()),
        table.has_type(bool_type_id()),
    ensures
        scopes_ready(table, parameter_scopes(table, parameters)),
{
    let scopes = parameter_scopes(table, parameters);
    let types = parameter_types(parameters);
    assert forall|i: int, n: Seq<char>| 0 <= i < scopes.len() && #[trigger] scopes[i].dom().contains(n)
        implies place_ok(table, scopes[i][n]) && scopes[i][n].type_ref.indirection.0 + NESTING_LIMIT < usize::MAX by {
        lemma_parameter_places(table, parameters, parameters.len() as nat, n);
        let j = choose|j: int| 0 <= j < parameters.len() && #[trigger] with_parameters(Map::empty(), table, parameters, parameters.len() as nat)[n] == (AddressedTypeRef {
            address: LocalAddress(parameter_address(table, types, j as nat) as isize),
            type_ref: parameters[j].1,
        });
        lemma_parameter_addresses_grow(table, types, (j + 1) as nat, parameters.len() as nat);
        lemma_parameter_addresses_grow(table, types, 0, j as nat);
        assert(types[j] == parameters[j].1);
        assert(parameters[j].1.indirection.0 <= NESTING_LIMIT);
    }
}

/// What compiling a whole function gives: its text, or the first error.
pub open spec fn function_result(
    table: GlobalTable, fid: FunctionID, parameters: Seq<(String, TypeRef)>, return_type: Option<TypeRef>,
    lines: Seq<LineTokens>, counter: nat, end_location: Location, r: Result<Assembly, WErr>,
) -> bool {
    let body = body_outcome(table, fid, parameters, return_type, lines, counter);
    let ret = return_place(table, parameters, effective_return_type(fid, return_type));
    if body.error is Some {
        r matches Err(e) && error_is(e, body.error.unwrap().0, body.error.unwrap().1)
    } else if (ret is Some || fid.0 == 0) && !body.last_return {
        {
            &&& r matches Err(e)
            &&& r->Err_0.location == end_location
            &&& r->Err_0.error matches ErrorKind::Comp(CompErrs::ExpectedReturn(t))
            &&& r->Err_0.error->Comp_0->ExpectedReturn_0@ == table.name_of(match ret {
                Some(v) => v.type_ref,
                None => TypeRef { type_id: int_type_id(), element_count: 1, indirection: Indirection(0) },
            })
        }
    } else {
        r matches Ok(a) && a@ == function_text(fid, body.code, body.last_return)
    }
}

/// Compiles a function: its parameters above the frame, its return variable above them,
/// its statements as a block, then the check that it returns and its frame.
pub fn compile_function(
    fid: FunctionID,
    parameters: &[(String, TypeRef)],
    return_type: Option<TypeRef>,
    lines: &[LineTokens],
    end_location: Location,
    global_table: &GlobalTable,
    global_tracker: &mut GlobalTracker,
) -> (r: Result<Assembly, WErr>)
    requires
        global_table.has_type(int_type_id()),
        global_table.has_type(bool_type_id()),
        signature_ok(*global_table, parameters@, return_type),
        lines_ok(*global_table, lines@, 0),
        old(global_tracker).wf(),
        old(global_tracker).tag_counter() + lines_tags(lines@, 0) <= usize::MAX,
        body_outcome(*global_table, fid, parameters@, return_type, lines@, old(global_tracker).tag_counter() as nat).peak <= isize::MAX,
    ensures
        function_result(*global_table, fid, parameters@, return_type, lines@, old(global_tracker).tag_counter() as nat, end_location, r),
        final(global_tracker).wf(),
        final(global_tracker).tag_counter() == body_outcome(*global_table, fid, parameters@, return_type, lines@, old(global_tracker).tag_counter() as nat).counter,
        final(global_tracker).calls() == old(global_tracker).calls(),
        final(global_tracker).readonly_section() == old(global_tracker).readonly_section(),
{
    let ghost table = *global_table;
    let mut local_variables = LocalVariableTable::new();
    proof {
        lemma_parameter_addresses_grow(table, parameter_types(parameters@), 0, parameters@.len() as nat);
    }
    let rt = return_type_of(fid, return_type);
    let ret = place_parameters(parameters, rt, global_table, &mut local_variables);
    proof {
        assert(local_variables.scopes() =~= parameter_scopes(table, parameters@));
        lemma_parameters_ready(table, parameters@, rt);
        if rt is Some {
            assert(rt == return_type);
        }
    }
    let (body, last_return) = match recursively_compile_lines(fid, lines, &ret, &None, &mut local_variables, global_table, global_tracker) {
        Ok(x) => x,
        Err(e) => return Err(e),
    };
    finish_function(fid, ret, body.as_str(), last_return, end_location, global_table)
}

} // verus!
