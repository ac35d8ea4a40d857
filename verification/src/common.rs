//! Identifiers, sizes, stack addresses and type references shared by the compiler.

use vstd::prelude::*;
use vstd::string::StringExecFns;
use crate::text::{append_int, append_nat, int_text, lemma_nat_text_injective, lemma_nat_text_shape, nat_text};

verus! {

/// A size in bytes.
#[derive(Clone, Copy, Debug, PartialEq, Eq, Structural)]
pub struct ByteSize(pub usize);

/// An address relative to the base pointer (`rbp`) of the current stack frame.
#[derive(Clone, Copy, Debug, PartialEq, Eq, Structural)]
pub struct LocalAddress(pub isize);

/// Number of pointer dereferences between a value and its type.
#[derive(Clone, Copy, Debug, PartialEq, Eq, Structural)]
pub struct Indirection(pub usize);

/// Identifier of a type. Builtin types have negative ids.
#[derive(Clone, Copy, Debug, PartialEq, Eq, Structural)]
pub struct TypeID(pub isize);

/// Identifier of a function. `0` is `main`; builtin functions have negative ids.
#[derive(Clone, Copy, Debug, PartialEq, Eq, Structural)]
pub struct FunctionID(pub isize);

/// Size in bytes of a pointer on the target (x86-64).
pub const POINTER_SIZE: usize = 8;

/// A type together with an element count and a level of indirection.
#[derive(Clone, Copy, Debug, PartialEq, Eq, Structural)]
pub struct TypeRef {
    pub type_id: TypeID,
    pub element_count: usize,
    pub indirection: Indirection,
}

/// A typed value at a stack address.
#[derive(Clone, Copy, Debug, PartialEq, Eq, Structural)]
pub struct AddressedTypeRef {
    pub address: LocalAddress,
    pub type_ref: TypeRef,
}

/// A single value of type `t`, held directly.
pub open spec fn value_ref(t: TypeID) -> TypeRef {
    TypeRef { type_id: t, element_count: 1, indirection: Indirection(0) }
}

/// A single value of type `t` behind one pointer.
pub open spec fn pointer_ref(t: TypeID) -> TypeRef {
    TypeRef { type_id: t, element_count: 1, indirection: Indirection(1) }
}

/// The memory operand text of a stack address: `[rbp+8]`, `[rbp-16]`.
pub open spec fn address_text(a: LocalAddress) -> Seq<char> {
    if a.0 >= 0 {
        "[rbp+"@ + nat_text(a.0 as nat) + "]"@
    } else {
        "[rbp"@ + int_text(a.0 as int) + "]"@
    }
}

/// The decimal text of a byte size.
pub open spec fn size_text(s: ByteSize) -> Seq<char> {
    nat_text(s.0 as nat)
}

/// The assembly label of a function: `main` for the main function,
/// `_<id>` for user functions and `__<-id>` for builtin functions.
pub open spec fn function_label(f: FunctionID) -> Seq<char> {
    if f.0 == 0 {
        "main"@
    } else if f.0 > 0 {
        "_"@ + nat_text(f.0 as nat)
    } else {
        "__"@ + nat_text((-f.0) as nat)
    }
}

/// Different functions have different assembly labels.
pub proof fn function_labels_differ(f: FunctionID, g: FunctionID)
    requires
        f != g,
    ensures
        function_label(f) != function_label(g),
{
    lemma_nat_text_shape(f.0 as nat);
    lemma_nat_text_shape(g.0 as nat);
    lemma_nat_text_shape((-f.0) as nat);
    lemma_nat_text_shape((-g.0) as nat);
    reveal_strlit("main");
    reveal_strlit("_");
    reveal_strlit("__");
    let lf = function_label(f);
    let lg = function_label(g);
    if lf == lg {
        if f.0 == 0 || g.0 == 0 {
            assert(lf[0] != lg[0]);
        } else if f.0 > 0 && g.0 > 0 {
            assert(nat_text(f.0 as nat) =~= lf.subrange(1, lf.len() as int));
            assert(nat_text(g.0 as nat) =~= lg.subrange(1, lg.len() as int));
            lemma_nat_text_injective(f.0 as nat, g.0 as nat);
        } else if f.0 < 0 && g.0 < 0 {
            assert(nat_text((-f.0) as nat) =~= lf.subrange(2, lf.len() as int));
            assert(nat_text((-g.0) as nat) =~= lg.subrange(2, lg.len() as int));
            lemma_nat_text_injective((-f.0) as nat, (-g.0) as nat);
        } else if f.0 > 0 {
            assert(lf[1] == nat_text(f.0 as nat)[0]);
            assert(lg[1] == '_');
        } else {
            assert(lg[1] == nat_text(g.0 as nat)[0]);
            assert(lf[1] == '_');
        }
    }
}

impl ByteSize {
    /// Appends the decimal text of the size.
    pub fn append_text(&self, out: &mut String)
        ensures
            final(out)@ == old(out)@ + size_text(*self),
    {
        append_nat(out, self.0 as u128);
    }
}

impl LocalAddress {
    /// Appends the memory operand text of the address, e.g. `[rbp-8]`.
    pub fn append_text(&self, out: &mut String)
        ensures
            final(out)@ == old(out)@ + address_text(*self),
    {
        if self.0 >= 0 {
            out.append("[rbp+");
            append_nat(out, self.0 as u128);
            out.append("]");
            proof {
                assert(old(out)@ + "[rbp+"@ + nat_text(self.0 as nat) + "]"@
                    =~= old(out)@ + address_text(*self));
            }
        } else {
            out.append("[rbp");
            append_int(out, self.0 as i128);
            out.append("]");
            proof {
                assert(old(out)@ + "[rbp"@ + int_text(self.0 as int) + "]"@
                    =~= old(out)@ + address_text(*self));
            }
        }
    }

    /// The memory operand text of the address.
    pub fn text(&self) -> (s: String)
        ensures
            s@ == address_text(*self),
    {
        let mut s = String::new();
        self.append_text(&mut s);
        proof {
            assert(Seq::<char>::empty() + address_text(*self) =~= address_text(*self));
        }
        s
    }
}

impl Indirection {
    /// Whether the value is reached through at least one pointer.
    pub fn has_indirection(&self) -> (r: bool)
        ensures
            r == (self.0 != 0),
    {
        self.0 != 0
    }
}

impl TypeID {
    /// A single value of this type, held directly.
    pub fn immediate_single(self) -> (t: TypeRef)
        ensures
            t == (TypeRef { type_id: self, element_count: 1, indirection: Indirection(0) }),
    {
        TypeRef { type_id: self, element_count: 1, indirection: Indirection(0) }
    }

    /// A single value of this type behind `indirection` pointers.
    pub fn with_indirection_single(self, indirection: usize) -> (t: TypeRef)
        ensures
            t == (TypeRef { type_id: self, element_count: 1, indirection: Indirection(indirection) }),
    {
        TypeRef { type_id: self, element_count: 1, indirection: Indirection(indirection) }
    }
}

impl TypeRef {
    pub fn new(type_id: TypeID, element_count: usize, indirection: Indirection) -> (t: TypeRef)
        ensures
            t == (TypeRef { type_id, element_count, indirection }),
    {
        TypeRef { type_id, element_count, indirection }
    }

    pub fn type_id(&self) -> (r: &TypeID)
        ensures
            *r == self.type_id,
    {
        &self.type_id
    }

    pub fn indirection(&self) -> (r: &Indirection)
        ensures
            *r == self.indirection,
    {
        &self.indirection
    }

    pub fn element_count(&self) -> (r: usize)
        ensures
            r == self.element_count,
    {
        self.element_count
    }

    /// The same type behind one more pointer.
    pub open spec fn plus_one_indirect_spec(&self) -> TypeRef {
        TypeRef { indirection: Indirection((self.indirection.0 + 1) as usize), ..*self }
    }

    /// The same type behind one more pointer.
    pub fn plus_one_indirect(&self) -> (t: TypeRef)
        requires
            self.indirection.0 < usize::MAX,
        ensures
            t == self.plus_one_indirect_spec(),
    {
        TypeRef {
            type_id: self.type_id,
            element_count: self.element_count,
            indirection: Indirection(self.indirection.0 + 1),
        }
    }

    /// The same type behind one pointer fewer.
    pub fn minus_one_indirect(&self) -> (t: TypeRef)
        requires
            self.indirection.0 > 0,
        ensures
            t == (TypeRef { indirection: Indirection((self.indirection.0 - 1) as usize), ..*self }),
    {
        TypeRef {
            type_id: self.type_id,
            element_count: self.element_count,
            indirection: Indirection(self.indirection.0 - 1),
        }
    }
}

impl AddressedTypeRef {
    pub fn new(address: LocalAddress, type_ref: TypeRef) -> (r: AddressedTypeRef)
        ensures
            r == (AddressedTypeRef { address, type_ref }),
    {
        AddressedTypeRef { address, type_ref }
    }

    pub fn local_address(&self) -> (r: &LocalAddress)
        ensures
            *r == self.address,
    {
        &self.address
    }

    pub fn type_ref(&self) -> (r: &TypeRef)
        ensures
            *r == self.type_ref,
    {
        &self.type_ref
    }
}

impl FunctionID {
    /// The id of the program entry point.
    pub fn main_function() -> (f: FunctionID)
        ensures
            f == FunctionID(0),
    {
        FunctionID(0)
    }

    pub fn is_main(&self) -> (r: bool)
        ensures
            r == (self.0 == 0),
    {
        self.0 == 0
    }

    /// Appends the assembly label of the function.
    pub fn append_string_id(&self, out: &mut String)
        ensures
            final(out)@ == old(out)@ + function_label(*self),
    {
        if self.0 == 0 {
            out.append("main");
        } else if self.0 > 0 {
            out.append("_");
            append_nat(out, self.0 as u128);
            proof {
                assert(old(out)@ + "_"@ + nat_text(self.0 as nat) =~= old(out)@ + function_label(*self));
            }
        } else {
            out.append("__");
            let magnitude: i128 = -(self.0 as i128);
            append_nat(out, magnitude as u128);
            proof {
                assert(old(out)@ + "__"@ + nat_text((-self.0) as nat) =~= old(out)@ + function_label(*self));
            }
        }
    }

    /// The assembly label of the function.
    pub fn string_id(&self) -> (s: String)
        ensures
            s@ == function_label(*self),
    {
        let mut s = String::new();
        self.append_string_id(&mut s);
        proof {
            assert(Seq::<char>::empty() + function_label(*self) =~= function_label(*self));
        }
        s
    }
}

} // verus!
