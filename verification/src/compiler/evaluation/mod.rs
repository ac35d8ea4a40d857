//! Evaluation helpers shared by the expression compilers.

use vstd::prelude::*;
use crate::common::AddressedTypeRef;
use crate::errors::{ErrorKind, EvalErrs, Location, WErr};

pub mod coerce_self;
pub mod evaluate;
pub mod function_only;

verus! {

/// Takes the address out of an evaluation result; an empty address is an error.
pub fn expect_addr(r: (String, Option<AddressedTypeRef>)) -> (out: Result<(String, AddressedTypeRef), WErr>)
    ensures
        r.1 matches Some(a) ==> (out matches Ok(v) && v.0 == r.0 && v.1 == a),
        r.1 is None ==> (out matches Err(e) && e.location == Location::builtin_spec()
            && e.error matches ErrorKind::Eval(EvalErrs::ExpectedNotNone)),
{
    let (code, address) = r;
    match address {
        Some(a) => Ok((code, a)),
        None => Err(WErr::n(ErrorKind::Eval(EvalErrs::ExpectedNotNone), Location::builtin())),
    }
}

} // verus!
