//! Compiling the callee of a function call: a name that refers to a function.

use vstd::prelude::*;
use crate::ast::evaluable::{EvaluableToken, EvaluableTokens};
use crate::common::{AddressedTypeRef, FunctionID};
use crate::compiler::evaluation::evaluate::{error_is, EvalError};
use crate::compiler::global_table::{find_function_named, find_type_named, GlobalTable};
use crate::compiler::local_variable_table::{lookup, LocalVariableTable};
use crate::errors::{ErrorKind, EvalErrs, WErr};

verus! {

/// Whether `e` is the error that `et` does not name a function.
pub open spec fn is_expected_function_name(e: WErr, et: EvaluableToken) -> bool {
    e.location == et.location && e.error matches ErrorKind::Eval(EvalErrs::ExpectedFunctionName)
}

/// Resolves the expression `et` standing before the arguments of a call to the function it
/// names. A name resolves to a local variable first, then to a function that belongs to no
/// type, then to a type; only a function is a function name, and no other expression is.
pub fn compile_evaluable_function_only(
    et: &EvaluableToken,
    local_variables: &LocalVariableTable,
    global_table: &GlobalTable,
) -> (r: Result<(Option<AddressedTypeRef>, FunctionID, String), WErr>)
    requires
        local_variables.wf(),
    ensures
        match et.token {
            EvaluableTokens::Name(n) => if lookup(local_variables.scopes(), n@) is Some {
                r matches Err(e) && is_expected_function_name(e, *et)
            } else {
                match find_function_named(global_table.function_defs(), n@) {
                    Some(id) => r matches Ok(x) && x.0 is None && x.1 == id && x.2@ == n@,
                    None => if find_type_named(global_table.type_defs(), n@) is Some {
                        r matches Err(e) && is_expected_function_name(e, *et)
                    } else {
                        r matches Err(e) && error_is(e, et.location, EvalError::NameNotFound(n@))
                    },
                }
            },
            _ => r matches Err(e) && is_expected_function_name(e, *et),
        },
{
    match &et.token {
        EvaluableTokens::Name(n) => {
            if local_variables.get(n.as_str()).is_some() {
                return Err(WErr::n(ErrorKind::Eval(EvalErrs::ExpectedFunctionName), et.location));
            }
            match global_table.resolve_function_name(n.as_str()) {
                Some(id) => Ok((None, id, n.clone())),
                None => if global_table.resolve_type_name(n.as_str()).is_some() {
                    Err(WErr::n(ErrorKind::Eval(EvalErrs::ExpectedFunctionName), et.location))
                } else {
                    Err(WErr::n(ErrorKind::Eval(EvalErrs::NameNotFound(n.clone())), et.location))
                },
            }
        },
        _ => Err(WErr::n(ErrorKind::Eval(EvalErrs::ExpectedFunctionName), et.location)),
    }
}

} // verus!
