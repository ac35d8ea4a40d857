//! Compiling expressions: into a given place, into a new stack slot, as a reference to an
//! existing value, or only to find their type.

use vstd::prelude::*;
use vstd::string::StringExecFns;
use crate::assembler::Assembly;
use crate::ast::evaluable::{EvaluableToken, EvaluableTokens};
use crate::builtin::language::referencing::{set_deref, set_reference, set_reference_text};
use crate::builtin::types::boolean::{bool_literal_text, bool_type_id, BoolType};
use crate::builtin::types::integer::{int_bool_literal_text, int_type_id, IntType};
use crate::builtin::Type;
use crate::common::{value_ref, AddressedTypeRef, ByteSize, Indirection, LocalAddress, TypeRef};
use crate::compiler::assembly::utils::{copy, copy_in_range, copy_text, copy_to_indirect, write_int_text, CopyMode};
use crate::compiler::global_table::{find_function_named, find_type_named, GlobalTable};
use crate::compiler::local_variable_table::{lookup, LocalVariableTable};
use crate::errors::{CompErrs, ErrorKind, EvalErrs, LiteralToken, LiteralTokens, Location, WErr};

verus! {

/// What went wrong while compiling an expression, with the texts the message names.
pub enum EvalError {
    NameNotFound(Seq<char>),
    ExpectedReference(Seq<char>),
    ExpectedDifferentType(Seq<char>, Seq<char>),
    OpWrongReturnType(Seq<char>, Seq<char>),
    ExpectedNotNone,
    BadIndirection(nat, nat),
    ExpectedType(Seq<char>),
    IntLiteralExceedsMax(int),
    IntLiteralBelowMin(int),
    CannotBreak,
    ExpectedSomeReturn(Seq<char>),
    ExpectedNoReturn,
    FunctionMustBeCalled(Seq<char>),
    CannotEvalStandaloneType(Seq<char>),
}

/// Why a name that is no variable in scope cannot be evaluated: it names a function that
/// must be called, or a type that is no value, or nothing at all. Variables are looked up
/// first, then functions, then types.
pub open spec fn unresolved_name(table: GlobalTable, n: Seq<char>) -> EvalError {
    if find_function_named(table.function_defs(), n) is Some {
        EvalError::FunctionMustBeCalled(n)
    } else if find_type_named(table.type_defs(), n) is Some {
        EvalError::CannotEvalStandaloneType(n)
    } else {
        EvalError::NameNotFound(n)
    }
}

/// The error for the name `n`, which is no variable in scope, at `location`.
pub fn name_error(global_table: &GlobalTable, n: &String, location: Location) -> (e: WErr)
    ensures
        error_is(e, location, unresolved_name(*global_table, n@)),
{
    if global_table.resolve_function_name(n.as_str()).is_some() {
        WErr::n(ErrorKind::Eval(EvalErrs::FunctionMustBeCalled(n.clone())), location)
    } else if global_table.resolve_type_name(n.as_str()).is_some() {
        WErr::n(ErrorKind::Eval(EvalErrs::CannotEvalStandaloneType(n.clone())), location)
    } else {
        WErr::n(ErrorKind::Eval(EvalErrs::NameNotFound(n.clone())), location)
    }
}

/// Whether the error `e` is `err` at `location`.
pub open spec fn error_is(e: WErr, location: Location, err: EvalError) -> bool {
    &&& e.location == location
    &&& match err {
        EvalError::NameNotFound(n) => e.error matches ErrorKind::Eval(EvalErrs::NameNotFound(x))
            && x@ == n,
        EvalError::ExpectedReference(t) => e.error matches ErrorKind::Eval(
            EvalErrs::ExpectedReference(x),
        ) && x@ == t,
        EvalError::ExpectedDifferentType(a, b) => e.error matches ErrorKind::Eval(
            EvalErrs::ExpectedDifferentType(x, y),
        ) && x@ == a && y@ == b,
        EvalError::OpWrongReturnType(a, b) => e.error matches ErrorKind::Eval(
            EvalErrs::OpWrongReturnType(x, y),
        ) && x@ == a && y@ == b,
        EvalError::ExpectedNotNone => e.error matches ErrorKind::Eval(EvalErrs::ExpectedNotNone),
        EvalError::BadIndirection(a, b) => e.error matches ErrorKind::Eval(
            EvalErrs::BadIndirection(x, y),
        ) && x == a && y == b,
        EvalError::ExpectedType(t) => e.error matches ErrorKind::Eval(EvalErrs::ExpectedType(x))
            && x@ == t,
        EvalError::IntLiteralExceedsMax(v) => e.error matches ErrorKind::Comp(
            CompErrs::IntLiteralExceedsMax(x, m),
        ) && x == v && m == i64::MAX,
        EvalError::IntLiteralBelowMin(v) => e.error matches ErrorKind::Comp(
            CompErrs::IntLiteralBelowMin(x, m),
        ) && x == v && m == i64::MIN,
        EvalError::CannotBreak => e.error matches ErrorKind::Comp(CompErrs::CannotBreak),
        EvalError::ExpectedSomeReturn(t) => e.error matches ErrorKind::Comp(
            CompErrs::ExpectedSomeReturn(x),
        ) && x@ == t,
        EvalError::ExpectedNoReturn => e.error matches ErrorKind::Comp(CompErrs::ExpectedNoReturn),
        EvalError::FunctionMustBeCalled(n) => e.error matches ErrorKind::Eval(EvalErrs::FunctionMustBeCalled(x))
            && x@ == n,
        EvalError::CannotEvalStandaloneType(n) => e.error matches ErrorKind::Eval(
            EvalErrs::CannotEvalStandaloneType(x),
        ) && x@ == n,
    }
}

/// What compiling an expression gives: the code, the place holding the value (if it
/// has one), the stack size reached, and the error where it fails.
pub struct Outcome {
    pub code: Seq<char>,
    pub value: Option<AddressedTypeRef>,
    pub size: nat,
    pub error: Option<(Location, EvalError)>,
}

/// A failed outcome that reached stack size `size`.
pub open spec fn failed(size: nat, location: Location, err: EvalError) -> Outcome {
    Outcome { code: Seq::empty(), value: None, size, error: Some((location, err)) }
}

/// The type a literal has when nothing else asks for one.
pub open spec fn literal_type(l: LiteralTokens) -> TypeRef {
    match l {
        LiteralTokens::Int(_) => value_ref(int_type_id()),
        LiteralTokens::Bool(_) => value_ref(bool_type_id()),
    }
}

/// How deeply expressions nest in `et`.
pub open spec fn depth(et: EvaluableToken) -> nat
    decreases et,
{
    match et.token {
        EvaluableTokens::Reference(e) => 1 + depth(*e),
        EvaluableTokens::Dereference(e) => 1 + depth(*e),
        EvaluableTokens::Assign(l, r) => 1 + if depth(*l) > depth(*r) {
            depth(*l)
        } else {
            depth(*r)
        },
        _ => 0,
    }
}

/// The type `et` evaluates to, or why it has none.
pub open spec fn type_of(
    table: GlobalTable,
    scopes: Seq<Map<Seq<char>, AddressedTypeRef>>,
    et: EvaluableToken,
) -> Result<TypeRef, (Location, EvalError)>
    decreases et,
{
    match et.token {
        EvaluableTokens::Name(n) => match lookup(scopes, n@) {
            Some(v) => Ok(v.type_ref),
            None => Err((et.location, unresolved_name(table, n@))),
        },
        EvaluableTokens::Literal(l) => Ok(literal_type(l.literal)),
        EvaluableTokens::Reference(e) => match type_of(table, scopes, *e) {
            Ok(t) => Ok(t.plus_one_indirect_spec()),
            Err(x) => Err(x),
        },
        EvaluableTokens::Dereference(e) => match type_of(table, scopes, *e) {
            Ok(t) => if t.indirection.0 == 0 {
                Err((e.location, EvalError::ExpectedReference(table.name_of(t))))
            } else {
                Ok(TypeRef { indirection: Indirection((t.indirection.0 - 1) as usize), ..t })
            },
            Err(x) => Err(x),
        },
        EvaluableTokens::Assign(_, _) => Err((et.location, EvalError::ExpectedNotNone)),
    }
}

/// The code storing the literal `l` at `at`, a value of type `t`, or why it cannot be stored.
pub open spec fn literal_text(table: GlobalTable, t: TypeRef, at: LocalAddress, l: LiteralToken) -> Result<
    Seq<char>,
    (Location, EvalError),
> {
    if t.type_id == int_type_id() {
        match l.literal {
            LiteralTokens::Bool(b) => Ok(int_bool_literal_text(at, b)),
            LiteralTokens::Int(v) => if v > i64::MAX {
                Err((l.location, EvalError::IntLiteralExceedsMax(v as int)))
            } else if v < i64::MIN {
                Err((l.location, EvalError::IntLiteralBelowMin(v as int)))
            } else {
                Ok(write_int_text(v as int, at))
            },
        }
    } else if t.type_id == bool_type_id() {
        Ok(bool_literal_text(at, l.literal))
    } else {
        Err(
            (
                l.location,
                EvalError::ExpectedDifferentType(
                    table.name_of(t),
                    table.name_of(literal_type(l.literal)),
                ),
            ),
        )
    }
}

/// A new slot for a value of type `t` on a stack of `size` bytes.
pub open spec fn slot(table: GlobalTable, size: nat, t: TypeRef) -> AddressedTypeRef {
    AddressedTypeRef {
        address: LocalAddress((-(size + table.size_of(t))) as isize),
        type_ref: t,
    }
}

/// Compiling `et` as a reference to an existing place where one exists (a variable),
/// and otherwise into a new slot, on a stack of `size` bytes.
pub closed spec fn ref_outcome(
    table: GlobalTable,
    scopes: Seq<Map<Seq<char>, AddressedTypeRef>>,
    size: nat,
    et: EvaluableToken,
) -> Outcome
    decreases et, 2nat,
{
    match et.token {
        EvaluableTokens::Name(n) => match lookup(scopes, n@) {
            Some(v) => Outcome { code: Seq::empty(), value: Some(v), size, error: None },
            None => failed(size, et.location, unresolved_name(table, n@)),
        },
        _ => new_outcome(table, scopes, size, et),
    }
}

/// The type one reference fewer than `t`.
pub open spec fn deref_type(t: TypeRef) -> TypeRef {
    TypeRef { indirection: Indirection((t.indirection.0 - 1) as usize), ..t }
}

/// Compiling `et` into a new slot on a stack of `size` bytes.
pub closed spec fn new_outcome(
    table: GlobalTable,
    scopes: Seq<Map<Seq<char>, AddressedTypeRef>>,
    size: nat,
    et: EvaluableToken,
) -> Outcome
    decreases et, 1nat,
{
    match et.token {
        EvaluableTokens::Name(n) => match lookup(scopes, n@) {
            Some(v) => {
                let s = slot(table, size, v.type_ref);
                Outcome {
                    code: copy_text(CopyMode::Direct, v.address, s.address, table.size_of(v.type_ref)),
                    value: Some(s),
                    size: size + table.size_of(v.type_ref),
                    error: None,
                }
            },
            None => failed(size, et.location, unresolved_name(table, n@)),
        },
        EvaluableTokens::Literal(l) => {
            let t = literal_type(l.literal);
            let s = slot(table, size, t);
            let new_size = size + table.size_of(t);
            match literal_text(table, t, s.address, l) {
                Ok(c) => Outcome { code: c, value: Some(s), size: new_size, error: None },
                Err(x) => failed(new_size, x.0, x.1),
            }
        },
        EvaluableTokens::Reference(e) => new_reference_outcome(table, scopes, size, *e, et.location),
        EvaluableTokens::Dereference(e) => new_dereference_outcome(table, scopes, size, *e, et.location),
        EvaluableTokens::Assign(l, r) => {
            let into = new_outcome(table, scopes, size, *l);
            if into.error is Some {
                failed(into.size, into.error.unwrap().0, into.error.unwrap().1)
            } else if into.value is None {
                failed(into.size, l.location, EvalError::ExpectedNotNone)
            } else if into.value.unwrap().type_ref.indirection.0 == 0 {
                failed(
                    into.size,
                    l.location,
                    EvalError::ExpectedReference(table.name_of(into.value.unwrap().type_ref)),
                )
            } else {
                let assigned = assign_outcome(table, scopes, into.size, *r, into.value.unwrap());
                if assigned.error is Some {
                    failed(assigned.size, assigned.error.unwrap().0, assigned.error.unwrap().1)
                } else {
                    Outcome { code: into.code + assigned.code, value: None, size: assigned.size, error: None }
                }
            }
        },
    }
}

/// Compiling `&e` into a new slot.
pub closed spec fn new_reference_outcome(
    table: GlobalTable,
    scopes: Seq<Map<Seq<char>, AddressedTypeRef>>,
    size: nat,
    e: EvaluableToken,
    location: Location,
) -> Outcome
    decreases e, 3nat,
{
    let inner = ref_outcome(table, scopes, size, e);
    if inner.error is Some {
        failed(inner.size, inner.error.unwrap().0, inner.error.unwrap().1)
    } else if inner.value is None {
        failed(inner.size, e.location, EvalError::ExpectedNotNone)
    } else {
        let v = inner.value.unwrap();
        let t = v.type_ref.plus_one_indirect_spec();
        let s = slot(table, inner.size, t);
        Outcome {
            code: inner.code + set_reference_text(v.address, s.address),
            value: Some(s),
            size: inner.size + table.size_of(t),
            error: None,
        }
    }
}

/// Compiling `*e` into a new slot.
pub closed spec fn new_dereference_outcome(
    table: GlobalTable,
    scopes: Seq<Map<Seq<char>, AddressedTypeRef>>,
    size: nat,
    e: EvaluableToken,
    location: Location,
) -> Outcome
    decreases e, 3nat,
{
    let inner = ref_outcome(table, scopes, size, e);
    if inner.error is Some {
        failed(inner.size, inner.error.unwrap().0, inner.error.unwrap().1)
    } else if inner.value is None {
        failed(inner.size, e.location, EvalError::ExpectedNotNone)
    } else if inner.value.unwrap().type_ref.indirection.0 == 0 {
        failed(
            inner.size,
            e.location,
            EvalError::ExpectedReference(table.name_of(inner.value.unwrap().type_ref)),
        )
    } else {
        let v = inner.value.unwrap();
        let t = deref_type(v.type_ref);
        let s = slot(table, inner.size, t);
        Outcome {
            code: inner.code + copy_text(CopyMode::FromIndirect, v.address, s.address, table.size_of(t)),
            value: Some(s),
            size: inner.size + table.size_of(t),
            error: None,
        }
    }
}


/// Compiling `et` into `target` on a stack of `size` bytes.
pub closed spec fn into_outcome(
    table: GlobalTable,
    scopes: Seq<Map<Seq<char>, AddressedTypeRef>>,
    size: nat,
    et: EvaluableToken,
    target: AddressedTypeRef,
) -> Outcome
    decreases et, 1nat,
{
    match et.token {
        EvaluableTokens::Name(n) => match lookup(scopes, n@) {
            Some(v) => if v.type_ref != target.type_ref {
                failed(
                    size,
                    et.location,
                    EvalError::ExpectedDifferentType(table.name_of(target.type_ref), table.name_of(v.type_ref)),
                )
            } else {
                Outcome {
                    code: copy_text(CopyMode::Direct, v.address, target.address, table.size_of(target.type_ref)),
                    value: Some(target),
                    size,
                    error: None,
                }
            },
            None => failed(size, et.location, unresolved_name(table, n@)),
        },
        EvaluableTokens::Literal(l) => if target.type_ref.indirection.0 != 0 {
            failed(size, l.location, EvalError::BadIndirection(target.type_ref.indirection.0 as nat, 0))
        } else {
            match literal_text(table, target.type_ref, target.address, l) {
                Ok(c) => Outcome { code: c, value: Some(target), size, error: None },
                Err(x) => failed(size, x.0, x.1),
            }
        },
        EvaluableTokens::Reference(e) => into_reference_outcome(table, scopes, size, *e, et.location, target),
        EvaluableTokens::Dereference(e) => into_dereference_outcome(table, scopes, size, *e, et.location, target),
        EvaluableTokens::Assign(_, _) => failed(
            size,
            et.location,
            EvalError::ExpectedType(table.name_of(target.type_ref)),
        ),
    }
}

/// Compiling `&e` into `target`.
pub closed spec fn into_reference_outcome(
    table: GlobalTable,
    scopes: Seq<Map<Seq<char>, AddressedTypeRef>>,
    size: nat,
    e: EvaluableToken,
    location: Location,
    target: AddressedTypeRef,
) -> Outcome
    decreases e, 3nat,
{
    let inner = ref_outcome(table, scopes, size, e);
    if inner.error is Some {
        failed(inner.size, inner.error.unwrap().0, inner.error.unwrap().1)
    } else if inner.value is None {
        failed(inner.size, e.location, EvalError::ExpectedNotNone)
    } else if target.type_ref != inner.value.unwrap().type_ref.plus_one_indirect_spec() {
        failed(
            inner.size,
            location,
            EvalError::OpWrongReturnType(
                table.name_of(target.type_ref),
                table.name_of(inner.value.unwrap().type_ref.plus_one_indirect_spec()),
            ),
        )
    } else {
        Outcome {
            code: inner.code + set_reference_text(inner.value.unwrap().address, target.address),
            value: Some(target),
            size: inner.size,
            error: None,
        }
    }
}

/// Compiling `*e` into `target`.
pub closed spec fn into_dereference_outcome(
    table: GlobalTable,
    scopes: Seq<Map<Seq<char>, AddressedTypeRef>>,
    size: nat,
    e: EvaluableToken,
    location: Location,
    target: AddressedTypeRef,
) -> Outcome
    decreases e, 3nat,
{
    let inner = ref_outcome(table, scopes, size, e);
    if inner.error is Some {
        failed(inner.size, inner.error.unwrap().0, inner.error.unwrap().1)
    } else if inner.value is None {
        failed(inner.size, e.location, EvalError::ExpectedNotNone)
    } else if inner.value.unwrap().type_ref != target.type_ref.plus_one_indirect_spec() {
        failed(
            inner.size,
            e.location,
            EvalError::ExpectedDifferentType(
                table.name_of(target.type_ref.plus_one_indirect_spec()),
                table.name_of(inner.value.unwrap().type_ref),
            ),
        )
    } else {
        Outcome {
            code: inner.code + copy_text(
                CopyMode::FromIndirect,
                inner.value.unwrap().address,
                target.address,
                table.size_of(target.type_ref),
            ),
            value: Some(target),
            size: inner.size,
            error: None,
        }
    }
}


/// A place whose type is registered and whose bytes all lie at valid stack addresses.
pub open spec fn place_ok(table: GlobalTable, v: AddressedTypeRef) -> bool {
    &&& table.has_type(v.type_ref.type_id)
    &&& copy_in_range(v.address, ByteSize(table.size_of(v.type_ref) as usize))
}

/// The builtin types are registered, and every variable in scope is a good place whose
/// indirection leaves room for `d` more references.
pub open spec fn ready(table: GlobalTable, scopes: Seq<Map<Seq<char>, AddressedTypeRef>>, d: nat) -> bool {
    &&& table.has_type(int_type_id())
    &&& table.has_type(bool_type_id())
    &&& d < usize::MAX
    &&& forall|i: int, n: Seq<char>|
        0 <= i < scopes.len() && #[trigger] scopes[i].dom().contains(n) ==> place_ok(
            table,
            scopes[i][n],
        ) && scopes[i][n].type_ref.indirection.0 + d < usize::MAX
}

/// What a lookup finds is a variable of one of the scopes.
proof fn lemma_lookup_in_scopes(scopes: Seq<Map<Seq<char>, AddressedTypeRef>>, n: Seq<char>)
    requires
        lookup(scopes, n) is Some,
    ensures
        exists|i: int|
            0 <= i < scopes.len() && #[trigger] scopes[i].dom().contains(n) && scopes[i][n]
                == lookup(scopes, n).unwrap(),
    decreases scopes.len(),
{
    if scopes.last().dom().contains(n) {
        assert(scopes[scopes.len() - 1].dom().contains(n));
    } else {
        lemma_lookup_in_scopes(scopes.drop_last(), n);
        let i = choose|i: int|
            0 <= i < scopes.drop_last().len() && #[trigger] scopes.drop_last()[i].dom().contains(n)
                && scopes.drop_last()[i][n] == lookup(scopes.drop_last(), n).unwrap();
        assert(scopes[i] == scopes.drop_last()[i]);
    }
}

/// A variable found by a lookup is a good place with room for `d` more references.
proof fn lemma_found_ok(
    table: GlobalTable,
    scopes: Seq<Map<Seq<char>, AddressedTypeRef>>,
    d: nat,
    n: Seq<char>,
)
    requires
        ready(table, scopes, d),
        lookup(scopes, n) is Some,
    ensures
        place_ok(table, lookup(scopes, n).unwrap()),
        lookup(scopes, n).unwrap().type_ref.indirection.0 + d < usize::MAX,
{
    lemma_lookup_in_scopes(scopes, n);
}

/// A value found or made on a stack of `size` bytes: a good place, with room for `room`
/// more references.
pub open spec fn value_ok(table: GlobalTable, v: Option<AddressedTypeRef>, room: int) -> bool {
    v matches Some(x) ==> place_ok(table, x) && x.type_ref.indirection.0 + room < usize::MAX
}

/// Stores the literal `l` at `at`, a place of type `t`.
fn literal_into(global_table: &GlobalTable, t: TypeRef, at: LocalAddress, l: &LiteralToken) -> (r: Result<
    Assembly,
    WErr,
>)
    requires
        global_table.has_type(t.type_id),
        global_table.has_type(int_type_id()),
        global_table.has_type(bool_type_id()),
    ensures
        match literal_text(*global_table, t, at, *l) {
            Ok(c) => r matches Ok(a) && a@ == c,
            Err(x) => r matches Err(e) && error_is(e, x.0, x.1),
        },
{
    if t.type_id == IntType::id() {
        IntType.instantiate_from_literal(&at, l)
    } else if t.type_id == BoolType::id() {
        BoolType.instantiate_from_literal(&at, l)
    } else {
        let lt = match l.literal {
            LiteralTokens::Int(_) => IntType::id().immediate_single(),
            LiteralTokens::Bool(_) => BoolType::id().immediate_single(),
        };
        Err(
            WErr::n(
                ErrorKind::Eval(
                    EvalErrs::ExpectedDifferentType(
                        global_table.get_type_name(&t),
                        global_table.get_type_name(&lt),
                    ),
                ),
                l.location,
            ),
        )
    }
}

/// `ref_outcome` written out, for callers outside this module.
pub proof fn ref_outcome_unfolds(
    table: GlobalTable,
    scopes: Seq<Map<Seq<char>, AddressedTypeRef>>,
    size: nat,
    et: EvaluableToken,
)
    ensures
        ref_outcome(table, scopes, size, et) == ({
        match et.token {
            EvaluableTokens::Name(n) => match lookup(scopes, n@) {
                Some(v) => Outcome { code: Seq::empty(), value: Some(v), size, error: None },
                None => failed(size, et.location, unresolved_name(table, n@)),
            },
            _ => new_outcome(table, scopes, size, et),
        }
        }),
{
}

/// `new_outcome` written out, for callers outside this module.
pub proof fn new_outcome_unfolds(
    table: GlobalTable,
    scopes: Seq<Map<Seq<char>, AddressedTypeRef>>,
    size: nat,
    et: EvaluableToken,
)
    ensures
        new_outcome(table, scopes, size, et) == ({
        match et.token {
            EvaluableTokens::Name(n) => match lookup(scopes, n@) {
                Some(v) => {
                    let s = slot(table, size, v.type_ref);
                    Outcome {
                        code: copy_text(CopyMode::Direct, v.address, s.address, table.size_of(v.type_ref)),
                        value: Some(s),
                        size: size + table.size_of(v.type_ref),
                        error: None,
                    }
                },
                None => failed(size, et.location, unresolved_name(table, n@)),
            },
            EvaluableTokens::Literal(l) => {
                let t = literal_type(l.literal);
                let s = slot(table, size, t);
                let new_size = size + table.size_of(t);
                match literal_text(table, t, s.address, l) {
                    Ok(c) => Outcome { code: c, value: Some(s), size: new_size, error: None },
                    Err(x) => failed(new_size, x.0, x.1),
                }
            },
            EvaluableTokens::Reference(e) => new_reference_outcome(table, scopes, size, *e, et.location),
            EvaluableTokens::Dereference(e) => new_dereference_outcome(table, scopes, size, *e, et.location),
            EvaluableTokens::Assign(l, r) => {
                let into = new_outcome(table, scopes, size, *l);
                if into.error is Some {
                    failed(into.size, into.error.unwrap().0, into.error.unwrap().1)
                } else if into.value is None {
                    failed(into.size, l.location, EvalError::ExpectedNotNone)
                } else if into.value.unwrap().type_ref.indirection.0 == 0 {
                    failed(
                        into.size,
                        l.location,
                        EvalError::ExpectedReference(table.name_of(into.value.unwrap().type_ref)),
                    )
                } else {
                    let assigned = assign_outcome(table, scopes, into.size, *r, into.value.unwrap());
                    if assigned.error is Some {
                        failed(assigned.size, assigned.error.unwrap().0, assigned.error.unwrap().1)
                    } else {
                        Outcome { code: into.code + assigned.code, value: None, size: assigned.size, error: None }
                    }
                }
            },
        }
        }),
{
}

/// `new_reference_outcome` written out, for callers outside this module.
pub proof fn new_reference_outcome_unfolds(
    table: GlobalTable,
    scopes: Seq<Map<Seq<char>, AddressedTypeRef>>,
    size: nat,
    e: EvaluableToken,
    location: Location,
)
    ensures
        new_reference_outcome(table, scopes, size, e, location) == ({
        let inner = ref_outcome(table, scopes, size, e);
        if inner.error is Some {
            failed(inner.size, inner.error.unwrap().0, inner.error.unwrap().1)
        } else if inner.value is None {
            failed(inner.size, e.location, EvalError::ExpectedNotNone)
        } else {
            let v = inner.value.unwrap();
            let t = v.type_ref.plus_one_indirect_spec();
            let s = slot(table, inner.size, t);
            Outcome {
                code: inner.code + set_reference_text(v.address, s.address),
                value: Some(s),
                size: inner.size + table.size_of(t),
                error: None,
            }
        }
        }),
{
}

/// `new_dereference_outcome` written out, for callers outside this module.
pub proof fn new_dereference_outcome_unfolds(
    table: GlobalTable,
    scopes: Seq<Map<Seq<char>, AddressedTypeRef>>,
    size: nat,
    e: EvaluableToken,
    location: Location,
)
    ensures
        new_dereference_outcome(table, scopes, size, e, location) == ({
        let inner = ref_outcome(table, scopes, size, e);
        if inner.error is Some {
            failed(inner.size, inner.error.unwrap().0, inner.error.unwrap().1)
        } else if inner.value is None {
            failed(inner.size, e.location, EvalError::ExpectedNotNone)
        } else if inner.value.unwrap().type_ref.indirection.0 == 0 {
            failed(
                inner.size,
                e.location,
                EvalError::ExpectedReference(table.name_of(inner.value.unwrap().type_ref)),
            )
        } else {
            let v = inner.value.unwrap();
            let t = deref_type(v.type_ref);
            let s = slot(table, inner.size, t);
            Outcome {
                code: inner.code + copy_text(CopyMode::FromIndirect, v.address, s.address, table.size_of(t)),
                value: Some(s),
                size: inner.size + table.size_of(t),
                error: None,
            }
        }
        }),
{
}

/// `into_outcome` written out, for callers outside this module.
pub proof fn into_outcome_unfolds(
    table: GlobalTable,
    scopes: Seq<Map<Seq<char>, AddressedTypeRef>>,
    size: nat,
    et: EvaluableToken,
    target: AddressedTypeRef,
)
    ensures
        into_outcome(table, scopes, size, et, target) == ({
        match et.token {
            EvaluableTokens::Name(n) => match lookup(scopes, n@) {
                Some(v) => if v.type_ref != target.type_ref {
                    failed(
                        size,
                        et.location,
                        EvalError::ExpectedDifferentType(table.name_of(target.type_ref), table.name_of(v.type_ref)),
                    )
                } else {
                    Outcome {
                        code: copy_text(CopyMode::Direct, v.address, target.address, table.size_of(target.type_ref)),
                        value: Some(target),
                        size,
                        error: None,
                    }
                },
                None => failed(size, et.location, unresolved_name(table, n@)),
            },
            EvaluableTokens::Literal(l) => if target.type_ref.indirection.0 != 0 {
                failed(size, l.location, EvalError::BadIndirection(target.type_ref.indirection.0 as nat, 0))
            } else {
                match literal_text(table, target.type_ref, target.address, l) {
                    Ok(c) => Outcome { code: c, value: Some(target), size, error: None },
                    Err(x) => failed(size, x.0, x.1),
                }
            },
            EvaluableTokens::Reference(e) => into_reference_outcome(table, scopes, size, *e, et.location, target),
            EvaluableTokens::Dereference(e) => into_dereference_outcome(table, scopes, size, *e, et.location, target),
            EvaluableTokens::Assign(_, _) => failed(
                size,
                et.location,
                EvalError::ExpectedType(table.name_of(target.type_ref)),
            ),
        }
        }),
{
}

/// `into_reference_outcome` written out, for callers outside this module.
pub proof fn into_reference_outcome_unfolds(
    table: GlobalTable,
    scopes: Seq<Map<Seq<char>, AddressedTypeRef>>,
    size: nat,
    e: EvaluableToken,
    location: Location,
    target: AddressedTypeRef,
)
    ensures
        into_reference_outcome(table, scopes, size, e, location, target) == ({
        let inner = ref_outcome(table, scopes, size, e);
        if inner.error is Some {
            failed(inner.size, inner.error.unwrap().0, inner.error.unwrap().1)
        } else if inner.value is None {
            failed(inner.size, e.location, EvalError::ExpectedNotNone)
        } else if target.type_ref != inner.value.unwrap().type_ref.plus_one_indirect_spec() {
            failed(
                inner.size,
                location,
                EvalError::OpWrongReturnType(
                    table.name_of(target.type_ref),
                    table.name_of(inner.value.unwrap().type_ref.plus_one_indirect_spec()),
                ),
            )
        } else {
            Outcome {
                code: inner.code + set_reference_text(inner.value.unwrap().address, target.address),
                value: Some(target),
                size: inner.size,
                error: None,
            }
        }
        }),
{
}

/// `into_dereference_outcome` written out, for callers outside this module.
pub proof fn into_dereference_outcome_unfolds(
    table: GlobalTable,
    scopes: Seq<Map<Seq<char>, AddressedTypeRef>>,
    size: nat,
    e: EvaluableToken,
    location: Location,
    target: AddressedTypeRef,
)
    ensures
        into_dereference_outcome(table, scopes, size, e, location, target) == ({
        let inner = ref_outcome(table, scopes, size, e);
        if inner.error is Some {
            failed(inner.size, inner.error.unwrap().0, inner.error.unwrap().1)
        } else if inner.value is None {
            failed(inner.size, e.location, EvalError::ExpectedNotNone)
        } else if inner.value.unwrap().type_ref != target.type_ref.plus_one_indirect_spec() {
            failed(
                inner.size,
                e.location,
                EvalError::ExpectedDifferentType(
                    table.name_of(target.type_ref.plus_one_indirect_spec()),
                    table.name_of(inner.value.unwrap().type_ref),
                ),
            )
        } else {
            Outcome {
                code: inner.code + copy_text(
                    CopyMode::FromIndirect,
                    inner.value.unwrap().address,
                    target.address,
                    table.size_of(target.type_ref),
                ),
                value: Some(target),
                size: inner.size,
                error: None,
            }
        }
        }),
{
}

/// `assign_outcome` written out, for callers outside this module.
pub proof fn assign_outcome_unfolds(
    table: GlobalTable,
    scopes: Seq<Map<Seq<char>, AddressedTypeRef>>,
    size: nat,
    rhs: EvaluableToken,
    p: AddressedTypeRef,
)
    ensures
        assign_outcome(table, scopes, size, rhs, p) == ({
        let t = deref_type(p.type_ref);
        let v = slot(table, size, t);
        let value = into_outcome(table, scopes, size + table.size_of(t), rhs, v);
        if value.error is Some {
            failed(value.size, value.error.unwrap().0, value.error.unwrap().1)
        } else {
            Outcome {
                code: value.code + copy_text(CopyMode::ToIndirect, v.address, p.address, table.size_of(t)),
                value: None,
                size: value.size,
                error: None,
            }
        }
        }),
{
}

/// An expression that compiles without error to a value has, there, exactly the type
/// that finding its type alone gives: compiling into a new slot and finding the type agree.
#[verifier::spinoff_prover]
#[verifier::rlimit(40)]
pub proof fn compiled_value_has_the_expression_type(
    table: GlobalTable,
    scopes: Seq<Map<Seq<char>, AddressedTypeRef>>,
    size: nat,
    et: EvaluableToken,
)
    ensures
        new_outcome(table, scopes, size, et).error is None && new_outcome(table, scopes, size, et).value is Some
            ==> type_of(table, scopes, et) == Ok::<TypeRef, (Location, EvalError)>(
            new_outcome(table, scopes, size, et).value.unwrap().type_ref,
        ),
        ref_outcome(table, scopes, size, et).error is None && ref_outcome(table, scopes, size, et).value is Some
            ==> type_of(table, scopes, et) == Ok::<TypeRef, (Location, EvalError)>(
            ref_outcome(table, scopes, size, et).value.unwrap().type_ref,
        ),
    decreases et,
{
    match et.token {
        EvaluableTokens::Name(n) => {},
        EvaluableTokens::Literal(l) => {},
        EvaluableTokens::Reference(e) => {
            compiled_value_has_the_expression_type(table, scopes, size, *e);
            assert(new_outcome(table, scopes, size, et) == new_reference_outcome(table, scopes, size, *e, et.location));
            assert(ref_outcome(table, scopes, size, et) == new_outcome(table, scopes, size, et));
        },
        EvaluableTokens::Dereference(e) => {
            compiled_value_has_the_expression_type(table, scopes, size, *e);
            assert(new_outcome(table, scopes, size, et) == new_dereference_outcome(table, scopes, size, *e, et.location));
            assert(ref_outcome(table, scopes, size, et) == new_outcome(table, scopes, size, et));
        },
        EvaluableTokens::Assign(l, r) => {
            assert(ref_outcome(table, scopes, size, et) == new_outcome(table, scopes, size, et));
        },
    }
}

/// Compiling never shrinks the stack.
#[verifier::rlimit(100)]
pub proof fn lemma_ref_grows(table: GlobalTable, scopes: Seq<Map<Seq<char>, AddressedTypeRef>>, size: nat, et: EvaluableToken)
    ensures
        ref_outcome(table, scopes, size, et).size >= size,
    decreases et, 2nat,
{
    lemma_new_grows(table, scopes, size, et);
}

#[verifier::rlimit(100)]
proof fn lemma_new_grows(table: GlobalTable, scopes: Seq<Map<Seq<char>, AddressedTypeRef>>, size: nat, et: EvaluableToken)
    ensures
        new_outcome(table, scopes, size, et).size >= size,
    decreases et, 1nat,
{
    match et.token {
        EvaluableTokens::Reference(e) => {
            lemma_ref_grows(table, scopes, size, *e);
            assert(new_outcome(table, scopes, size, et) == new_reference_outcome(table, scopes, size, *e, et.location));
        },
        EvaluableTokens::Dereference(e) => {
            lemma_ref_grows(table, scopes, size, *e);
            assert(new_outcome(table, scopes, size, et) == new_dereference_outcome(table, scopes, size, *e, et.location));
        },
        EvaluableTokens::Assign(l, r) => {
            lemma_new_grows(table, scopes, size, *l);
            let into = new_outcome(table, scopes, size, *l);
            if into.error is None && into.value is Some && into.value.unwrap().type_ref.indirection.0 != 0 {
                lemma_assign_grows(table, scopes, into.size, *r, into.value.unwrap());
            }
        },
        _ => {
        },
    }
}

#[verifier::rlimit(100)]
proof fn lemma_assign_grows(
    table: GlobalTable,
    scopes: Seq<Map<Seq<char>, AddressedTypeRef>>,
    size: nat,
    rhs: EvaluableToken,
    p: AddressedTypeRef,
)
    ensures
        assign_outcome(table, scopes, size, rhs, p).size >= size,
    decreases rhs, 2nat,
{
    let t = deref_type(p.type_ref);
    lemma_into_grows(table, scopes, size + table.size_of(t), rhs, slot(table, size, t));
}

#[verifier::rlimit(100)]
pub proof fn lemma_into_grows(
    table: GlobalTable,
    scopes: Seq<Map<Seq<char>, AddressedTypeRef>>,
    size: nat,
    et: EvaluableToken,
    target: AddressedTypeRef,
)
    ensures
        into_outcome(table, scopes, size, et, target).size >= size,
    decreases et, 1nat,
{
    match et.token {
        EvaluableTokens::Reference(e) => lemma_ref_grows(table, scopes, size, *e),
        EvaluableTokens::Dereference(e) => lemma_ref_grows(table, scopes, size, *e),
        _ => {},
    }
}

/// The local variables after compiling an expression from `before`: the same scopes,
/// the stack grown to the size the outcome reached, and the result the outcome gives.
pub open spec fn evaluated(
    before: LocalVariableTable,
    after: LocalVariableTable,
    out: Outcome,
    r: Result<(String, Option<AddressedTypeRef>), WErr>,
) -> bool {
    &&& after.wf()
    &&& after.scopes() == before.scopes()
    &&& after.sizes() == before.sizes().update(before.sizes().len() - 1, out.size as usize)
    &&& match r {
        Ok(v) => out.error is None && v.0@ == out.code && v.1 == out.value,
        Err(e) => out.error matches Some(x) && error_is(e, x.0, x.1),
    }
}

/// The value's room for references, whatever room the variables had.
pub open spec fn value_room(
    table: GlobalTable,
    scopes: Seq<Map<Seq<char>, AddressedTypeRef>>,
    et: EvaluableToken,
    v: Option<AddressedTypeRef>,
) -> bool {
    forall|d: nat| #[trigger] ready(table, scopes, d) && depth(et) <= d ==> value_ok(table, v, d - depth(et))
}

/// Evaluates `et` as a reference to an existing place where it names a variable, and
/// into a new slot otherwise.
#[verifier::rlimit(100)]
pub fn compile_evaluable_reference(
    et: &EvaluableToken,
    local_variables: &mut LocalVariableTable,
    global_table: &GlobalTable,
) -> (r: Result<(Assembly, Option<AddressedTypeRef>), WErr>)
    requires
        old(local_variables).wf(),
        old(local_variables).sizes().len() > 0,
        ready(*global_table, old(local_variables).scopes(), depth(*et)),
        ref_outcome(*global_table, old(local_variables).scopes(), old(local_variables).current_size() as nat, *et).size <= isize::MAX,
    ensures
        evaluated(*old(local_variables), *final(local_variables), ref_outcome(*global_table, old(local_variables).scopes(), old(local_variables).current_size() as nat, *et), r),
        value_room(*global_table, old(local_variables).scopes(), *et, ref_outcome(*global_table, old(local_variables).scopes(), old(local_variables).current_size() as nat, *et).value),
    decreases *et, 2nat,
{
    match &et.token {
        EvaluableTokens::Name(n) => {
            let found = local_variables.get(n.as_str());
            proof {
                local_variables.lemma_scopes_match_sizes();
                assert(local_variables.sizes().update(local_variables.sizes().len() - 1, local_variables.current_size()) =~= local_variables.sizes());
                if found is Some {
                    assert forall|d: nat| #[trigger] ready(*global_table, local_variables.scopes(), d) && depth(*et) <= d implies value_ok(*global_table, found, d - depth(*et)) by {
                        lemma_found_ok(*global_table, local_variables.scopes(), d, n@);
                    }
                }
            }
            match found {
                Some(v) => Ok((String::new(), Some(v))),
                None => Err(name_error(global_table, n, et.location)),
            }
        },
        _ => compile_evaluable_new(et, local_variables, global_table),
    }
}

/// Evaluates `et` into a new slot on the stack, returning the code and the slot; an
/// assignment has no value and gives no slot.
#[verifier::rlimit(100)]
pub fn compile_evaluable_new(
    et: &EvaluableToken,
    local_variables: &mut LocalVariableTable,
    global_table: &GlobalTable,
) -> (r: Result<(Assembly, Option<AddressedTypeRef>), WErr>)
    requires
        old(local_variables).wf(),
        old(local_variables).sizes().len() > 0,
        ready(*global_table, old(local_variables).scopes(), depth(*et)),
        new_outcome(*global_table, old(local_variables).scopes(), old(local_variables).current_size() as nat, *et).size <= isize::MAX,
    ensures
        evaluated(*old(local_variables), *final(local_variables), new_outcome(*global_table, old(local_variables).scopes(), old(local_variables).current_size() as nat, *et), r),
        value_room(*global_table, old(local_variables).scopes(), *et, new_outcome(*global_table, old(local_variables).scopes(), old(local_variables).current_size() as nat, *et).value),
    decreases *et, 1nat,
{
    let ghost scopes = local_variables.scopes();
    let ghost table = *global_table;
    let ghost size0 = local_variables.current_size() as nat;
    proof {
        local_variables.lemma_scopes_match_sizes();
        assert(local_variables.sizes().update(local_variables.sizes().len() - 1, local_variables.current_size()) =~= local_variables.sizes());
    }
    match &et.token {
        EvaluableTokens::Name(n) => {
            match local_variables.get(n.as_str()) {
                None => Err(name_error(global_table, n, et.location)),
                Some(v) => {
                    proof {
                        lemma_found_ok(table, scopes, 0, n@);
                    }
                    let s = global_table.add_local_variable_unnamed(v.type_ref, local_variables);
                    let code = copy(v.address, s.address, global_table.get_size(&v.type_ref));
                    proof {
                        assert forall|d: nat| #[trigger] ready(table, scopes, d) && depth(*et) <= d implies value_ok(table, Some(s), d - depth(*et)) by {
                            lemma_found_ok(table, scopes, d, n@);
                        }
                    }
                    Ok((code, Some(s)))
                },
            }
        },
        EvaluableTokens::Literal(l) => {
            let t = match l.literal {
                LiteralTokens::Int(_) => IntType::id().immediate_single(),
                LiteralTokens::Bool(_) => BoolType::id().immediate_single(),
            };
            let s = global_table.add_local_variable_unnamed(t, local_variables);
            match literal_into(global_table, t, s.address, l) {
                Ok(c) => Ok((c, Some(s))),
                Err(e) => Err(e),
            }
        },
        EvaluableTokens::Reference(_) => compile_reference_new(et, local_variables, global_table),
        EvaluableTokens::Dereference(_) => compile_dereference_new(et, local_variables, global_table),
        EvaluableTokens::Assign(_, _) => compile_assignment(et, local_variables, global_table),
    }
}

/// `compile_evaluable_new` on an expression of this kind.
#[verifier::rlimit(100)]
fn compile_reference_new(
    et: &EvaluableToken,
    local_variables: &mut LocalVariableTable,
    global_table: &GlobalTable,
) -> (r: Result<(Assembly, Option<AddressedTypeRef>), WErr>)
    requires
        et.token is Reference,
        old(local_variables).wf(),
        old(local_variables).sizes().len() > 0,
        ready(*global_table, old(local_variables).scopes(), depth(*et)),
        new_outcome(*global_table, old(local_variables).scopes(), old(local_variables).current_size() as nat, *et).size <= isize::MAX,
    ensures
        evaluated(*old(local_variables), *final(local_variables), new_outcome(*global_table, old(local_variables).scopes(), old(local_variables).current_size() as nat, *et), r),
        value_room(*global_table, old(local_variables).scopes(), *et, new_outcome(*global_table, old(local_variables).scopes(), old(local_variables).current_size() as nat, *et).value),
    decreases *et, 0nat,
{
    let ghost scopes = local_variables.scopes();
    let ghost table = *global_table;
    let ghost size0 = local_variables.current_size() as nat;
    proof {
        local_variables.lemma_scopes_match_sizes();
        assert(local_variables.sizes().update(local_variables.sizes().len() - 1, local_variables.current_size()) =~= local_variables.sizes());
    }
    match &et.token {
        EvaluableTokens::Reference(e) => {
            let ghost inner = ref_outcome(table, scopes, size0, **e);
            proof {
                assert(new_outcome(table, scopes, size0, *et) == new_reference_outcome(table, scopes, size0, **e, et.location));
            }
            let (c, val) = match compile_evaluable_reference(e, local_variables, global_table) {
                Ok(x) => x,
                Err(err) => return Err(err),
            };
            let v = match val {
                Some(v) => v,
                None => return Err(WErr::n(ErrorKind::Eval(EvalErrs::ExpectedNotNone), e.location)),
            };
            proof {
                assert(ready(table, scopes, depth(*et)));
                assert(local_variables.current_size() == inner.size);
            }
            let t = v.type_ref.plus_one_indirect();
            let s = global_table.add_local_variable_unnamed(t, local_variables);
            proof {
                assert(local_variables.sizes() =~= old(local_variables).sizes().update(
                    old(local_variables).sizes().len() - 1,
                    (inner.size + table.size_of(t)) as usize,
                ));
                assert(s == slot(table, inner.size, t));
            }
            let x = match set_reference(&et.location, v, s, global_table) {
                Ok(x) => x,
                Err(err) => return Err(err),
            };
            let mut code = c;
            code.append(x.as_str());
            proof {
                assert forall|d: nat| #[trigger] ready(table, scopes, d) && depth(*et) <= d implies value_ok(table, Some(s), d - depth(*et)) by {
                    assert(ready(table, scopes, d) && depth(**e) <= d);
                }
            }
            Ok((code, Some(s)))
        },
        _ => {
            proof {
                assert(false);
            }
            Err(WErr::n(ErrorKind::Eval(EvalErrs::ExpectedNotNone), et.location))
        },
    }
}

/// `compile_evaluable_new` on an expression of this kind.
#[verifier::rlimit(100)]
fn compile_dereference_new(
    et: &EvaluableToken,
    local_variables: &mut LocalVariableTable,
    global_table: &GlobalTable,
) -> (r: Result<(Assembly, Option<AddressedTypeRef>), WErr>)
    requires
        et.token is Dereference,
        old(local_variables).wf(),
        old(local_variables).sizes().len() > 0,
        ready(*global_table, old(local_variables).scopes(), depth(*et)),
        new_outcome(*global_table, old(local_variables).scopes(), old(local_variables).current_size() as nat, *et).size <= isize::MAX,
    ensures
        evaluated(*old(local_variables), *final(local_variables), new_outcome(*global_table, old(local_variables).scopes(), old(local_variables).current_size() as nat, *et), r),
        value_room(*global_table, old(local_variables).scopes(), *et, new_outcome(*global_table, old(local_variables).scopes(), old(local_variables).current_size() as nat, *et).value),
    decreases *et, 0nat,
{
    let ghost scopes = local_variables.scopes();
    let ghost table = *global_table;
    let ghost size0 = local_variables.current_size() as nat;
    proof {
        local_variables.lemma_scopes_match_sizes();
        assert(local_variables.sizes().update(local_variables.sizes().len() - 1, local_variables.current_size()) =~= local_variables.sizes());
    }
    match &et.token {
        EvaluableTokens::Dereference(e) => {
            let ghost inner = ref_outcome(table, scopes, size0, **e);
            proof {
                assert(new_outcome(table, scopes, size0, *et) == new_dereference_outcome(table, scopes, size0, **e, et.location));
            }
            let (c, val) = match compile_evaluable_reference(e, local_variables, global_table) {
                Ok(x) => x,
                Err(err) => return Err(err),
            };
            let v = match val {
                Some(v) => v,
                None => return Err(WErr::n(ErrorKind::Eval(EvalErrs::ExpectedNotNone), e.location)),
            };
            proof {
                assert(ready(table, scopes, depth(*et)));
                assert(local_variables.current_size() == inner.size);
            }
            if !v.type_ref.indirection.has_indirection() {
                return Err(WErr::n(ErrorKind::Eval(EvalErrs::ExpectedReference(global_table.get_type_name(&v.type_ref))), e.location));
            }
            let t = v.type_ref.minus_one_indirect();
            let s = global_table.add_local_variable_unnamed(t, local_variables);
            proof {
                assert(t == deref_type(v.type_ref));
                assert(local_variables.sizes() =~= old(local_variables).sizes().update(
                    old(local_variables).sizes().len() - 1,
                    (inner.size + table.size_of(t)) as usize,
                ));
                assert(s == slot(table, inner.size, t));
            }
            let x = match set_deref(&e.location, v, s, global_table) {
                Ok(x) => x,
                Err(err) => return Err(err),
            };
            let mut code = c;
            code.append(x.as_str());
            proof {
                assert forall|d: nat| #[trigger] ready(table, scopes, d) && depth(*et) <= d implies value_ok(table, Some(s), d - depth(*et)) by {
                    assert(ready(table, scopes, d) && depth(**e) <= d);
                }
            }
            Ok((code, Some(s)))
        },
        _ => {
            proof {
                assert(false);
            }
            Err(WErr::n(ErrorKind::Eval(EvalErrs::ExpectedNotNone), et.location))
        },
    }
}

/// The code after the left side of an assignment has given the reference `p`: `rhs`
/// evaluated into a new slot, then copied to where `p` points.
pub closed spec fn assign_outcome(
    table: GlobalTable,
    scopes: Seq<Map<Seq<char>, AddressedTypeRef>>,
    size: nat,
    rhs: EvaluableToken,
    p: AddressedTypeRef,
) -> Outcome
    decreases rhs, 2nat,
{
    let t = deref_type(p.type_ref);
    let v = slot(table, size, t);
    let value = into_outcome(table, scopes, size + table.size_of(t), rhs, v);
    if value.error is Some {
        failed(value.size, value.error.unwrap().0, value.error.unwrap().1)
    } else {
        Outcome {
            code: value.code + copy_text(CopyMode::ToIndirect, v.address, p.address, table.size_of(t)),
            value: None,
            size: value.size,
            error: None,
        }
    }
}

/// Evaluates `rhs` into a new slot and copies it to where the reference `p` points.
#[verifier::rlimit(100)]
fn assign_through(
    rhs: &EvaluableToken,
    p: AddressedTypeRef,
    local_variables: &mut LocalVariableTable,
    global_table: &GlobalTable,
) -> (r: Result<Assembly, WErr>)
    requires
        old(local_variables).wf(),
        old(local_variables).sizes().len() > 0,
        ready(*global_table, old(local_variables).scopes(), depth(*rhs)),
        place_ok(*global_table, p),
        p.type_ref.indirection.0 > 0,
        p.type_ref.indirection.0 < usize::MAX,
        assign_outcome(*global_table, old(local_variables).scopes(), old(local_variables).current_size() as nat, *rhs, p).size <= isize::MAX,
    ensures
        evaluated_into(*old(local_variables), *final(local_variables), assign_outcome(*global_table, old(local_variables).scopes(), old(local_variables).current_size() as nat, *rhs, p), r),
    decreases *rhs, 2nat,
{
    let ghost scopes = local_variables.scopes();
    let ghost table = *global_table;
    let ghost size0 = local_variables.current_size() as nat;
    let t = p.type_ref.minus_one_indirect();
    proof {
        assert(t == deref_type(p.type_ref));
        lemma_into_grows(table, scopes, size0 + table.size_of(t), *rhs, slot(table, size0, t));
    }
    let v = global_table.add_local_variable_unnamed(t, local_variables);
    proof {
        assert(v == slot(table, size0, t));
    }
    let ghost value = into_outcome(table, scopes, size0 + table.size_of(t), *rhs, v);
    let ghost sizes1 = local_variables.sizes();
    let r2 = compile_evaluable_into(rhs, v, local_variables, global_table);
    proof {
        assert(local_variables.sizes() =~= old(local_variables).sizes().update(
            old(local_variables).sizes().len() - 1,
            value.size as usize,
        ));
    }
    let c2 = match r2 {
        Ok(x) => x,
        Err(err) => return Err(err),
    };
    let c3 = copy_to_indirect(v.address, p.address, global_table.get_size(&t));
    let mut code = c2;
    code.append(c3.as_str());
    Ok(code)
}

/// `compile_evaluable_new` on an expression of this kind.
#[verifier::rlimit(100)]
fn compile_assignment(
    et: &EvaluableToken,
    local_variables: &mut LocalVariableTable,
    global_table: &GlobalTable,
) -> (r: Result<(Assembly, Option<AddressedTypeRef>), WErr>)
    requires
        et.token is Assign,
        old(local_variables).wf(),
        old(local_variables).sizes().len() > 0,
        ready(*global_table, old(local_variables).scopes(), depth(*et)),
        new_outcome(*global_table, old(local_variables).scopes(), old(local_variables).current_size() as nat, *et).size <= isize::MAX,
    ensures
        evaluated(*old(local_variables), *final(local_variables), new_outcome(*global_table, old(local_variables).scopes(), old(local_variables).current_size() as nat, *et), r),
        value_room(*global_table, old(local_variables).scopes(), *et, new_outcome(*global_table, old(local_variables).scopes(), old(local_variables).current_size() as nat, *et).value),
    decreases *et, 0nat,
{
    let ghost scopes = local_variables.scopes();
    let ghost table = *global_table;
    let ghost size0 = local_variables.current_size() as nat;
    proof {
        local_variables.lemma_scopes_match_sizes();
        assert(local_variables.sizes().update(local_variables.sizes().len() - 1, local_variables.current_size()) =~= local_variables.sizes());
    }
    match &et.token {
        EvaluableTokens::Assign(l, rhs) => {
            let ghost into_o = new_outcome(table, scopes, size0, **l);
            proof {
                lemma_new_grows(table, scopes, size0, **l);
                if into_o.error is None && into_o.value is Some && into_o.value.unwrap().type_ref.indirection.0 != 0 {
                    lemma_assign_grows(table, scopes, into_o.size, **rhs, into_o.value.unwrap());
                }
            }
            let (c1, into) = match compile_evaluable_new(l, local_variables, global_table) {
                Ok(x) => x,
                Err(err) => return Err(err),
            };
            let p = match into {
                Some(p) => p,
                None => return Err(WErr::n(ErrorKind::Eval(EvalErrs::ExpectedNotNone), l.location)),
            };
            proof {
                assert(ready(table, scopes, depth(*et)));
            }
            if !p.type_ref.indirection.has_indirection() {
                return Err(WErr::n(ErrorKind::Eval(EvalErrs::ExpectedReference(global_table.get_type_name(&p.type_ref))), l.location));
            }
            proof {
                assert(local_variables.current_size() == into_o.size);
            }
            let ghost assigned = assign_outcome(table, scopes, into_o.size, **rhs, p);
            let r2 = assign_through(rhs, p, local_variables, global_table);
            proof {
                assert(local_variables.sizes() =~= old(local_variables).sizes().update(
                    old(local_variables).sizes().len() - 1,
                    assigned.size as usize,
                ));
            }
            let c2 = match r2 {
                Ok(x) => x,
                Err(err) => return Err(err),
            };
            let mut code = c1;
            code.append(c2.as_str());
            Ok((code, None))
        },
        _ => {
            proof {
                assert(false);
            }
            Err(WErr::n(ErrorKind::Eval(EvalErrs::ExpectedNotNone), et.location))
        },
    }
}

/// The local variables and result after compiling an expression into a given place.
pub open spec fn evaluated_into(
    before: LocalVariableTable,
    after: LocalVariableTable,
    out: Outcome,
    r: Result<Assembly, WErr>,
) -> bool {
    &&& after.wf()
    &&& after.scopes() == before.scopes()
    &&& after.sizes() == before.sizes().update(before.sizes().len() - 1, out.size as usize)
    &&& match r {
        Ok(c) => out.error is None && c@ == out.code,
        Err(e) => out.error matches Some(x) && error_is(e, x.0, x.1),
    }
}

/// Evaluates `et` putting the result into `target`.
#[verifier::rlimit(100)]
pub fn compile_evaluable_into(
    et: &EvaluableToken,
    target: AddressedTypeRef,
    local_variables: &mut LocalVariableTable,
    global_table: &GlobalTable,
) -> (r: Result<Assembly, WErr>)
    requires
        old(local_variables).wf(),
        old(local_variables).sizes().len() > 0,
        ready(*global_table, old(local_variables).scopes(), depth(*et)),
        place_ok(*global_table, target),
        target.type_ref.indirection.0 + 1 < usize::MAX,
        into_outcome(*global_table, old(local_variables).scopes(), old(local_variables).current_size() as nat, *et, target).size <= isize::MAX,
    ensures
        evaluated_into(*old(local_variables), *final(local_variables), into_outcome(*global_table, old(local_variables).scopes(), old(local_variables).current_size() as nat, *et, target), r),
    decreases *et, 1nat,
{
    let ghost scopes = local_variables.scopes();
    let ghost table = *global_table;
    proof {
        local_variables.lemma_scopes_match_sizes();
        assert(local_variables.sizes().update(local_variables.sizes().len() - 1, local_variables.current_size()) =~= local_variables.sizes());
    }
    match &et.token {
        EvaluableTokens::Name(n) => {
            match local_variables.get(n.as_str()) {
                None => Err(name_error(global_table, n, et.location)),
                Some(v) => {
                    proof {
                        lemma_found_ok(table, scopes, 0, n@);
                    }
                    if v.type_ref != target.type_ref {
                        return Err(WErr::n(ErrorKind::Eval(EvalErrs::ExpectedDifferentType(
                            global_table.get_type_name(&target.type_ref),
                            global_table.get_type_name(&v.type_ref),
                        )), et.location));
                    }
                    Ok(copy(v.address, target.address, global_table.get_size(&target.type_ref)))
                },
            }
        },
        EvaluableTokens::Literal(l) => {
            if target.type_ref.indirection.has_indirection() {
                return Err(WErr::n(ErrorKind::Eval(EvalErrs::BadIndirection(target.type_ref.indirection.0, 0)), l.location));
            }
            literal_into(global_table, target.type_ref, target.address, l)
        },
        EvaluableTokens::Reference(e) => {
            let (c, val) = match compile_evaluable_reference(e, local_variables, global_table) {
                Ok(x) => x,
                Err(err) => return Err(err),
            };
            let v = match val {
                Some(v) => v,
                None => return Err(WErr::n(ErrorKind::Eval(EvalErrs::ExpectedNotNone), e.location)),
            };
            proof {
                assert(ready(table, scopes, depth(*et)));
            }
            let x = match set_reference(&et.location, v, target, global_table) {
                Ok(x) => x,
                Err(err) => return Err(err),
            };
            let mut code = c;
            code.append(x.as_str());
            Ok(code)
        },
        EvaluableTokens::Dereference(e) => {
            let (c, val) = match compile_evaluable_reference(e, local_variables, global_table) {
                Ok(x) => x,
                Err(err) => return Err(err),
            };
            let v = match val {
                Some(v) => v,
                None => return Err(WErr::n(ErrorKind::Eval(EvalErrs::ExpectedNotNone), e.location)),
            };
            proof {
                assert(ready(table, scopes, depth(*et)));
            }
            let x = match set_deref(&e.location, v, target, global_table) {
                Ok(x) => x,
                Err(err) => return Err(err),
            };
            let mut code = c;
            code.append(x.as_str());
            Ok(code)
        },
        EvaluableTokens::Assign(_, _) => Err(WErr::n(ErrorKind::Eval(EvalErrs::ExpectedType(global_table.get_type_name(&target.type_ref))), et.location)),
    }
}

/// Finds the type `et` evaluates to, without generating any code.
pub fn compile_evaluable_type_only(
    et: &EvaluableToken,
    local_variables: &LocalVariableTable,
    global_table: &GlobalTable,
) -> (r: Result<TypeRef, WErr>)
    requires
        local_variables.wf(),
        ready(*global_table, local_variables.scopes(), depth(*et)),
    ensures
        match type_of(*global_table, local_variables.scopes(), *et) {
            Ok(t) => r == Ok::<TypeRef, WErr>(t),
            Err(x) => r matches Err(e) && error_is(e, x.0, x.1),
        },
        type_of(*global_table, local_variables.scopes(), *et) matches Ok(t) ==> global_table.has_type(t.type_id)
            && forall|d: nat| #[trigger] ready(*global_table, local_variables.scopes(), d) && depth(*et) <= d
                ==> t.indirection.0 + d - depth(*et) < usize::MAX,
    decreases *et,
{
    match &et.token {
        EvaluableTokens::Name(n) => match local_variables.get(n.as_str()) {
            Some(v) => {
                proof {
                    lemma_found_ok(*global_table, local_variables.scopes(), depth(*et), n@);
                    assert forall|d: nat| #[trigger] ready(*global_table, local_variables.scopes(), d) && depth(*et) <= d
                        implies v.type_ref.indirection.0 + d - depth(*et) < usize::MAX by {
                        lemma_found_ok(*global_table, local_variables.scopes(), d, n@);
                    }
                }
                Ok(v.type_ref)
            },
            None => Err(name_error(global_table, n, et.location)),
        },
        EvaluableTokens::Literal(l) => match l.literal {
            LiteralTokens::Int(_) => Ok(IntType::id().immediate_single()),
            LiteralTokens::Bool(_) => Ok(BoolType::id().immediate_single()),
        },
        EvaluableTokens::Reference(e) => {
            let t = compile_evaluable_type_only(e, local_variables, global_table)?;
            proof {
                assert(ready(*global_table, local_variables.scopes(), depth(*et)));
            }
            Ok(t.plus_one_indirect())
        },
        EvaluableTokens::Dereference(e) => {
            let t = compile_evaluable_type_only(e, local_variables, global_table)?;
            if !t.indirection.has_indirection() {
                return Err(WErr::n(ErrorKind::Eval(EvalErrs::ExpectedReference(global_table.get_type_name(&t))), e.location));
            }
            Ok(t.minus_one_indirect())
        },
        EvaluableTokens::Assign(_, _) => Err(WErr::n(ErrorKind::Eval(EvalErrs::ExpectedNotNone), et.location)),
    }
}

} // verus!
