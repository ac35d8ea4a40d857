//! Builtin types and functions implemented as inline assembly.

pub mod basic_int;
pub mod language;
pub mod functions;
pub mod types;

use vstd::prelude::*;
use vstd::string::StringExecFns;
use crate::assembler::Assembly;
use crate::common::{ByteSize, FunctionID, LocalAddress, TypeID, TypeRef};
use crate::compiler::global_table::GlobalTable;
use crate::compiler::global_tracker::GlobalTracker;
use functions::register_functions;
use types::boolean::register_bool;
use types::integer::register_int;
use crate::errors::{LiteralToken, WErr};

verus! {

/// How a method receives `self`.
#[derive(Clone, Copy, Debug, PartialEq, Eq, Structural)]
pub enum SelfType {
    /// Not a method.
    NoSelf,
    /// `self` is passed by value.
    CopySelf,
    /// `self` is passed as a reference.
    RefSelf,
}

/// The signature of a function: how it takes `self`, its named parameters and its return type.
pub struct FunctionSignature {
    pub self_type: SelfType,
    pub args: Vec<(String, TypeRef)>,
    pub return_type: Option<TypeRef>,
}

/// Parameter names and types of a signature.
pub open spec fn signature_params(args: Seq<(String, TypeRef)>) -> Seq<(Seq<char>, TypeRef)> {
    args.map_values(|p: (String, TypeRef)| (p.0@, p.1))
}

/// Parameter names and types given as string slices.
pub open spec fn slice_params(args: Seq<(&str, TypeRef)>) -> Seq<(Seq<char>, TypeRef)> {
    args.map_values(|p: (&str, TypeRef)| (p.0@, p.1))
}

impl FunctionSignature {
    /// A signature with the given parameters.
    pub fn new(
        self_type: SelfType,
        args: Vec<(String, TypeRef)>,
        return_type: Option<TypeRef>,
    ) -> (s: FunctionSignature)
        ensures
            s.self_type == self_type,
            s.args@ == args@,
            s.return_type == return_type,
    {
        FunctionSignature { self_type, args, return_type }
    }

    /// A signature for a builtin function, with parameter names given as string slices.
    pub fn new_inline_builtin(
        self_type: SelfType,
        args: &[(&str, TypeRef)],
        return_type: Option<TypeRef>,
    ) -> (s: FunctionSignature)
        ensures
            s.self_type == self_type,
            signature_params(s.args@) == slice_params(args@),
            s.return_type == return_type,
    {
        let mut v: Vec<(String, TypeRef)> = Vec::new();
        let mut i: usize = 0;
        while i < args.len()
            invariant
                i <= args@.len(),
                v@.len() == i,
                signature_params(v@) == slice_params(args@.take(i as int)),
            decreases args@.len() - i,
        {
            let (name, t) = args[i];
            let ghost old_v = v@;
            let owned = String::from_str(name);
            v.push((owned, t));
            proof {
                let lhs = signature_params(v@);
                let rhs = slice_params(args@.take(i + 1));
                assert(args@.take(i + 1).len() == i + 1);
                assert(lhs.len() == rhs.len());
                assert forall|k: int| 0 <= k < lhs.len() implies lhs[k] == rhs[k] by {
                    if k < i {
                        assert(lhs[k] == signature_params(old_v)[k]);
                        assert(rhs[k] == slice_params(args@.take(i as int))[k]);
                    } else {
                        assert(v@[k] == (owned, t));
                        assert(args@.take(i + 1)[k] == args@[i as int]);
                    }
                }
                assert(lhs =~= rhs);
            }
            i = i + 1;
        }
        proof {
            assert(args@.take(args@.len() as int) =~= args@);
        }
        FunctionSignature { self_type, args: v, return_type }
    }

    pub fn self_type(&self) -> (r: SelfType)
        ensures
            r == self.self_type,
    {
        self.self_type
    }

    pub fn args(&self) -> (r: &Vec<(String, TypeRef)>)
        ensures
            r@ == self.args@,
    {
        &self.args
    }

    pub fn return_type(&self) -> (r: Option<TypeRef>)
        ensures
            r == self.return_type,
    {
        self.return_type
    }
}

/// The entries `register_builtin` adds to the function table, in order.
pub open spec fn builtin_function_defs() -> Seq<(FunctionID, Seq<char>, Option<TypeID>)> {
    functions::free_function_defs() + types::integer::int_function_defs()
        + types::boolean::bool_function_defs()
}

/// The signatures `register_builtin` registers, in the order of `builtin_function_defs`.
pub open spec fn builtin_function_signatures() -> Seq<(SelfType, Seq<(Seq<char>, TypeRef)>, Option<TypeRef>)> {
    functions::free_function_signatures() + types::integer::int_function_signatures()
        + types::boolean::bool_function_signatures()
}

/// Registers all the builtin types and their relevant functions.
pub fn register_builtin(global_table: &mut GlobalTable)
    ensures
        final(global_table).type_defs() == old(global_table).type_defs() + seq![
            (types::integer::int_type_id(), "int"@, 8usize),
            (types::boolean::bool_type_id(), "bool"@, 1usize),
        ],
        final(global_table).function_defs() == old(global_table).function_defs()
            + builtin_function_defs(),
        final(global_table).function_signatures() == old(global_table).function_signatures()
            + builtin_function_signatures(),
{
    register_functions(global_table);
    register_int(global_table);
    register_bool(global_table);
    proof {
        assert(global_table.type_defs() =~= old(global_table).type_defs() + seq![
            (types::integer::int_type_id(), "int"@, 8usize),
            (types::boolean::bool_type_id(), "bool"@, 1usize),
        ]);
        assert(global_table.function_defs() =~= old(global_table).function_defs()
            + builtin_function_defs());
        assert(global_table.function_signatures() =~= old(global_table).function_signatures()
            + builtin_function_signatures());
    }
}

/// Whether `s` takes `self` as `self_type`, has the parameters `params` and returns `ret`.
pub open spec fn has_signature(
    s: FunctionSignature,
    self_type: SelfType,
    params: Seq<(Seq<char>, TypeRef)>,
    ret: Option<TypeRef>,
) -> bool {
    &&& s.self_type == self_type
    &&& signature_params(s.args@) == params
    &&& s.return_type == ret
}

/// The function id of the builtin with unique id `id`: `-id - 1`.
pub open spec fn builtin_function_id(id: u16) -> FunctionID {
    FunctionID((-(id as int) - 1) as isize)
}

/// The type id of the builtin type with unique id `id`: `-id - 1`.
pub open spec fn builtin_type_id(id: u16) -> TypeID {
    TypeID((-(id as int) - 1) as isize)
}

/// Converts a u16 unique ID to a non-zero, negative `FunctionID`.
pub fn f_id(id: u16) -> (f: FunctionID)
    ensures
        f == builtin_function_id(id),
        f.0 < 0,
{
    FunctionID(-(id as isize) - 1)
}

/// Converts a u16 unique ID to a non-zero, negative `TypeID`.
pub fn t_id(id: u16) -> (t: TypeID)
    ensures
        t == builtin_type_id(id),
        t.0 < 0,
{
    TypeID(-(id as isize) - 1)
}

/// Builtin ids made from different unique ids differ, and all are negative, so they
/// never collide with the ids of user functions and types.
pub proof fn builtin_ids_distinct(a: u16, b: u16)
    ensures
        builtin_function_id(a).0 < 0,
        builtin_type_id(a).0 < 0,
        a != b ==> builtin_function_id(a) != builtin_function_id(b),
        a != b ==> builtin_type_id(a) != builtin_type_id(b),
{
}

/// Whether `id` is the id of none of `defs`.
pub open spec fn id_absent(id: FunctionID, defs: Seq<(FunctionID, Seq<char>, Option<TypeID>)>) -> bool
    decreases defs.len(),
{
    if defs.len() == 0 {
        true
    } else {
        defs.last().0 != id && id_absent(id, defs.drop_last())
    }
}

/// Whether no two of `defs` share an id.
pub open spec fn ids_distinct(defs: Seq<(FunctionID, Seq<char>, Option<TypeID>)>) -> bool
    decreases defs.len(),
{
    if defs.len() == 0 {
        true
    } else {
        id_absent(defs.last().0, defs.drop_last()) && ids_distinct(defs.drop_last())
    }
}

proof fn lemma_id_absent(id: FunctionID, defs: Seq<(FunctionID, Seq<char>, Option<TypeID>)>, i: int)
    requires
        id_absent(id, defs),
        0 <= i < defs.len(),
    ensures
        defs[i].0 != id,
    decreases defs.len(),
{
    if i < defs.len() - 1 {
        lemma_id_absent(id, defs.drop_last(), i);
    }
}

proof fn lemma_ids_distinct(defs: Seq<(FunctionID, Seq<char>, Option<TypeID>)>, i: int, j: int)
    requires
        ids_distinct(defs),
        0 <= i < j < defs.len(),
    ensures
        defs[i].0 != defs[j].0,
    decreases defs.len(),
{
    if j == defs.len() - 1 {
        lemma_id_absent(defs.last().0, defs.drop_last(), i);
    } else {
        lemma_ids_distinct(defs.drop_last(), i, j);
    }
}

/// No two builtin functions are registered under the same id.
pub proof fn builtin_function_ids_unique()
    ensures
        forall|i: int, j: int|
            0 <= i < j < builtin_function_defs().len() ==> builtin_function_defs()[i].0
                != builtin_function_defs()[j].0,
{
    assert(ids_distinct(builtin_function_defs())) by {
        reveal_with_fuel(ids_distinct, 22);
        reveal_with_fuel(id_absent, 22);
    }
    assert forall|i: int, j: int|
        0 <= i < j < builtin_function_defs().len() implies builtin_function_defs()[i].0
            != builtin_function_defs()[j].0 by {
        lemma_ids_distinct(builtin_function_defs(), i, j);
    }
}

/// A 'function' implemented as inline assembly.
pub trait BuiltinInlineFunction {
    /// The id `id` returns.
    spec fn function_id(&self) -> FunctionID;

    /// The name `name` returns.
    spec fn function_name(&self) -> Seq<char>;

    /// The parent type `parent_type` returns.
    spec fn owner_type(&self) -> Option<TypeID>;

    /// Number of argument addresses the generator reads.
    spec fn arity(&self) -> nat;

    /// Whether the generator writes a return value.
    spec fn writes_return(&self) -> bool;

    /// Number of unique tags the generator takes from the tracker.
    spec fn tags_used(&self) -> nat;

    /// Unique function ID.
    fn id(&self) -> (r: FunctionID)
        ensures
            r == self.function_id(),
    ;

    /// In-code name of the function.
    fn name(&self) -> (r: &'static str)
        ensures
            r@ == self.function_name(),
    ;

    /// How the function takes `self`, its parameters and its return type.
    spec fn signature_spec(&self) -> (SelfType, Seq<(Seq<char>, TypeRef)>, Option<TypeRef>);

    /// Function signature.
    fn signature(&self) -> (s: FunctionSignature)
        ensures
            has_signature(s, self.signature_spec().0, self.signature_spec().1, self.signature_spec().2),
    ;

    /// The inline assembly for a call with arguments at `args`, the result going to
    /// `return_into`, with `sz` bytes of stack in use and the tag counter at `counter`.
    spec fn inline_text(&self, args: Seq<LocalAddress>, return_into: Option<LocalAddress>, sz: ByteSize, counter: nat) -> Seq<char>;

    /// Generates the inline assembly for a call with arguments at `args`, the result
    /// going to `return_into`, with `sz` bytes of stack in use.
    fn inline(
        &self,
        args: &[LocalAddress],
        return_into: Option<LocalAddress>,
        gt: &mut GlobalTracker,
        sz: ByteSize,
    ) -> (a: Assembly)
        requires
            args@.len() >= self.arity(),
            self.writes_return() ==> return_into is Some,
            old(gt).wf(),
            old(gt).tag_counter() + self.tags_used() <= usize::MAX,
        ensures
            a@ == self.inline_text(args@, return_into, sz, old(gt).tag_counter() as nat),
            final(gt).wf(),
            final(gt).tag_counter() == old(gt).tag_counter() + self.tags_used(),
            final(gt).calls() == old(gt).calls(),
            final(gt).infos() == old(gt).infos(),
            final(gt).warnings() == old(gt).warnings(),
    ;

    /// Parent type.
    fn parent_type(&self) -> (r: Option<TypeID>)
        ensures
            r == self.owner_type(),
    ;
}

/// A type known to the compiler.
pub trait Type {
    /// The id `id` returns.
    spec fn type_id(&self) -> TypeID;

    /// The size `size` returns.
    spec fn type_size(&self) -> usize;

    /// The name `name` returns.
    spec fn display_name(&self) -> Seq<char>;

    /// Unique type ID.
    fn id(&self) -> (r: TypeID)
        ensures
            r == self.type_id(),
    ;

    /// Size of a value of the type.
    fn size(&self) -> (r: ByteSize)
        ensures
            r.0 == self.type_size(),
    ;

    /// In-code name of the type.
    fn name(&self) -> (r: &'static str)
        ensures
            r@ == self.display_name(),
    ;

    /// Generates the assembly that stores `literal` at `location`.
    fn instantiate_from_literal(&self, location: &LocalAddress, literal: &LiteralToken) -> Result<
        Assembly,
        WErr,
    >;
}

} // verus!
