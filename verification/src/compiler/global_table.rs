//! The table of types and functions known to the compiler.

use vstd::prelude::*;
use vstd::string::StringExecFns;
use crate::builtin::{signature_params, BuiltinInlineFunction, FunctionSignature, SelfType, Type};
use crate::common::{AddressedTypeRef, ByteSize, FunctionID, TypeID, TypeRef, POINTER_SIZE};
use crate::compiler::local_variable_table::LocalVariableTable;
use crate::text::str_equal;

verus! {

/// A function registered in the table.
pub struct RegisteredFunction {
    pub id: FunctionID,
    pub name: String,
    pub parent_type: Option<TypeID>,
    pub signature: FunctionSignature,
}

/// A type registered in the table.
pub struct RegisteredType {
    pub id: TypeID,
    pub name: String,
    pub size: ByteSize,
}

/// Types and functions known to the compiler. A later registration under an id
/// replaces an earlier one.
pub struct GlobalTable {
    types: Vec<RegisteredType>,
    functions: Vec<RegisteredFunction>,
}

/// Name and size of the type `id` among `defs`, the latest registration first.
pub open spec fn find_type(defs: Seq<(TypeID, Seq<char>, usize)>, id: TypeID) -> Option<
    (Seq<char>, usize),
>
    decreases defs.len(),
{
    if defs.len() == 0 {
        None
    } else if defs.last().0 == id {
        Some((defs.last().1, defs.last().2))
    } else {
        find_type(defs.drop_last(), id)
    }
}

/// Name and parent type of the function `id` among `defs`, the latest registration first.
pub open spec fn find_function(defs: Seq<(FunctionID, Seq<char>, Option<TypeID>)>, id: FunctionID) -> Option<
    (Seq<char>, Option<TypeID>),
>
    decreases defs.len(),
{
    if defs.len() == 0 {
        None
    } else if defs.last().0 == id {
        Some((defs.last().1, defs.last().2))
    } else {
        find_function(defs.drop_last(), id)
    }
}

/// The function, not belonging to any type, registered under the name `name` among
/// `defs`, the latest registration first.
pub open spec fn find_function_named(defs: Seq<(FunctionID, Seq<char>, Option<TypeID>)>, name: Seq<char>) -> Option<FunctionID>
    decreases defs.len(),
{
    if defs.len() == 0 {
        None
    } else if defs.last().1 == name && defs.last().2 is None {
        Some(defs.last().0)
    } else {
        find_function_named(defs.drop_last(), name)
    }
}

/// The type registered under the name `name` among `defs`, the latest registration first.
pub open spec fn find_type_named(defs: Seq<(TypeID, Seq<char>, usize)>, name: Seq<char>) -> Option<TypeID>
    decreases defs.len(),
{
    if defs.len() == 0 {
        None
    } else if defs.last().1 == name {
        Some(defs.last().0)
    } else {
        find_type_named(defs.drop_last(), name)
    }
}

/// `n` ampersands.
pub open spec fn ampersands(n: nat) -> Seq<char>
    decreases n,
{
    if n == 0 {
        Seq::empty()
    } else {
        ampersands((n - 1) as nat) + "&"@
    }
}

impl GlobalTable {
    /// The registered types in order of registration.
    pub closed spec fn type_defs(&self) -> Seq<(TypeID, Seq<char>, usize)> {
        self.types@.map_values(|t: RegisteredType| (t.id, t.name@, t.size.0))
    }

    /// The registered functions in order of registration.
    pub closed spec fn function_defs(&self) -> Seq<(FunctionID, Seq<char>, Option<TypeID>)> {
        self.functions@.map_values(|f: RegisteredFunction| (f.id, f.name@, f.parent_type))
    }

    /// The signatures of the registered functions, in order of registration: how each
    /// takes `self`, its parameter names and types, and its return type.
    pub closed spec fn function_signatures(&self) -> Seq<(SelfType, Seq<(Seq<char>, TypeRef)>, Option<TypeRef>)> {
        self.functions@.map_values(
            |f: RegisteredFunction|
                (f.signature.self_type, signature_params(f.signature.args@), f.signature.return_type),
        )
    }

    /// Whether the type `id` is registered.
    pub open spec fn has_type(&self, id: TypeID) -> bool {
        find_type(self.type_defs(), id) is Some
    }

    /// Size in bytes of a value of type `t`: a pointer if `t` is reached through one.
    pub open spec fn size_of(&self, t: TypeRef) -> nat {
        if t.indirection.0 > 0 {
            POINTER_SIZE as nat
        } else {
            find_type(self.type_defs(), t.type_id).unwrap().1 as nat
        }
    }

    /// The displayed name of `t`: one `&` per level of indirection, then the type's name.
    pub open spec fn name_of(&self, t: TypeRef) -> Seq<char> {
        ampersands(t.indirection.0 as nat) + find_type(self.type_defs(), t.type_id).unwrap().0
    }

    /// An empty table.
    pub fn new() -> (g: GlobalTable)
        ensures
            g.type_defs() == Seq::<(TypeID, Seq<char>, usize)>::empty(),
            g.function_defs() == Seq::<(FunctionID, Seq<char>, Option<TypeID>)>::empty(),
            g.function_signatures() == Seq::<(SelfType, Seq<(Seq<char>, TypeRef)>, Option<TypeRef>)>::empty(),
    {
        let g = GlobalTable { types: Vec::new(), functions: Vec::new() };
        proof {
            assert(g.type_defs() =~= Seq::<(TypeID, Seq<char>, usize)>::empty());
            assert(g.function_defs() =~= Seq::<(FunctionID, Seq<char>, Option<TypeID>)>::empty());
            assert(g.function_signatures() =~= Seq::<(SelfType, Seq<(Seq<char>, TypeRef)>, Option<TypeRef>)>::empty());
        }
        g
    }

    /// Registers a builtin type.
    pub fn register_builtin_type<T: Type>(&mut self, t: &T)
        ensures
            final(self).type_defs() == old(self).type_defs().push(
                (t.type_id(), t.display_name(), t.type_size()),
            ),
            final(self).function_defs() == old(self).function_defs(),
            final(self).function_signatures() == old(self).function_signatures(),
    {
        let name = String::from_str(t.name());
        self.types.push(RegisteredType { id: t.id(), name, size: t.size() });
        proof {
            assert(self.type_defs() =~= old(self).type_defs().push(
                (t.type_id(), t.display_name(), t.type_size()),
            ));
            assert(self.function_defs() =~= old(self).function_defs());
            assert(self.function_signatures() =~= old(self).function_signatures());
        }
    }

    /// Registers a builtin function implemented as inline assembly.
    pub fn register_inline_function<F: BuiltinInlineFunction>(&mut self, f: &F)
        ensures
            final(self).function_defs() == old(self).function_defs().push(
                (f.function_id(), f.function_name(), f.owner_type()),
            ),
            final(self).function_signatures() == old(self).function_signatures().push(
                f.signature_spec(),
            ),
            final(self).type_defs() == old(self).type_defs(),
    {
        let name = String::from_str(f.name());
        self.functions.push(
            RegisteredFunction {
                id: f.id(),
                name,
                parent_type: f.parent_type(),
                signature: f.signature(),
            },
        );
        proof {
            assert(self.function_defs() =~= old(self).function_defs().push(
                (f.function_id(), f.function_name(), f.owner_type()),
            ));
            assert(self.type_defs() =~= old(self).type_defs());
            assert(self.function_signatures() =~= old(self).function_signatures().push(
                f.signature_spec(),
            ));
        }
    }

    /// Index of the latest registration of type `id`.
    fn type_index(&self, id: TypeID) -> (r: Option<usize>)
        ensures
            match r {
                Some(i) => i < self.types@.len() && find_type(self.type_defs(), id) == Some(
                    (self.types@[i as int].name@, self.types@[i as int].size.0),
                ),
                None => find_type(self.type_defs(), id) is None,
            },
    {
        let mut i = self.types.len();
        proof {
            assert(self.type_defs().take(i as int) =~= self.type_defs());
        }
        while i > 0
            invariant
                i <= self.types@.len(),
                find_type(self.type_defs(), id) == find_type(self.type_defs().take(i as int), id),
            decreases i,
        {
            let ghost prefix = self.type_defs().take(i as int);
            assert(prefix.drop_last() =~= self.type_defs().take(i - 1));
            if self.types[i - 1].id == id {
                return Some(i - 1);
            }
            i = i - 1;
        }
        None
    }

    /// The function, not belonging to any type, that the name `name` refers to.
    pub fn resolve_function_name(&self, name: &str) -> (r: Option<FunctionID>)
        ensures
            r == find_function_named(self.function_defs(), name@),
    {
        let mut i = self.functions.len();
        proof {
            assert(self.function_defs().take(i as int) =~= self.function_defs());
        }
        while i > 0
            invariant
                i <= self.functions@.len(),
                find_function_named(self.function_defs(), name@) == find_function_named(
                    self.function_defs().take(i as int),
                    name@,
                ),
            decreases i,
        {
            let ghost prefix = self.function_defs().take(i as int);
            assert(prefix.drop_last() =~= self.function_defs().take(i - 1));
            let f = &self.functions[i - 1];
            if str_equal(f.name.as_str(), name) && f.parent_type.is_none() {
                return Some(f.id);
            }
            i = i - 1;
        }
        None
    }

    /// The type that the name `name` refers to.
    pub fn resolve_type_name(&self, name: &str) -> (r: Option<TypeID>)
        ensures
            r == find_type_named(self.type_defs(), name@),
    {
        let mut i = self.types.len();
        proof {
            assert(self.type_defs().take(i as int) =~= self.type_defs());
        }
        while i > 0
            invariant
                i <= self.types@.len(),
                find_type_named(self.type_defs(), name@) == find_type_named(self.type_defs().take(i as int), name@),
            decreases i,
        {
            let ghost prefix = self.type_defs().take(i as int);
            assert(prefix.drop_last() =~= self.type_defs().take(i - 1));
            let t = &self.types[i - 1];
            if str_equal(t.name.as_str(), name) {
                return Some(t.id);
            }
            i = i - 1;
        }
        None
    }

    /// Size of a value of type `t`.
    pub fn get_size(&self, t: &TypeRef) -> (s: ByteSize)
        requires
            t.indirection.0 == 0 ==> self.has_type(t.type_id),
        ensures
            s.0 == self.size_of(*t),
    {
        if t.indirection.has_indirection() {
            ByteSize(POINTER_SIZE)
        } else {
            let i = self.type_index(t.type_id).unwrap();
            self.types[i].size
        }
    }

    /// The displayed name of `t`, e.g. `&&int`.
    pub fn get_type_name(&self, t: &TypeRef) -> (s: String)
        requires
            self.has_type(t.type_id),
        ensures
            s@ == self.name_of(*t),
    {
        let mut s = String::new();
        let mut k: usize = 0;
        while k < t.indirection.0
            invariant
                k <= t.indirection.0,
                s@ == ampersands(k as nat),
            decreases t.indirection.0 - k,
        {
            s.append("&");
            k = k + 1;
        }
        let i = self.type_index(t.type_id).unwrap();
        s.append(self.types[i].name.as_str());
        s
    }

    /// Reserves an unnamed stack slot for a value of type `t`.
    pub fn add_local_variable_unnamed(
        &self,
        t: TypeRef,
        local_variables: &mut LocalVariableTable,
    ) -> (r: AddressedTypeRef)
        requires
            t.indirection.0 == 0 ==> self.has_type(t.type_id),
            old(local_variables).wf(),
            old(local_variables).sizes().len() > 0,
            old(local_variables).current_size() + self.size_of(t) <= isize::MAX,
        ensures
            final(local_variables).wf(),
            final(local_variables).scopes() == old(local_variables).scopes(),
            final(local_variables).sizes() == old(local_variables).sizes().update(
                old(local_variables).sizes().len() - 1,
                (old(local_variables).current_size() + self.size_of(t)) as usize,
            ),
            r.type_ref == t,
            r.address.0 == -(old(local_variables).current_size() + self.size_of(t)),
    {
        let size = self.get_size(&t);
        let address = local_variables.add_new_unnamed(size);
        AddressedTypeRef::new(address, t)
    }
}

} // verus!
