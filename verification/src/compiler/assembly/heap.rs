//! Heap allocation and deallocation.

use vstd::prelude::*;
use vstd::string::StringExecFns;
use crate::assembler::Assembly;
use crate::builtin::{has_signature, signature_params, BuiltinInlineFunction, FunctionSignature, SelfType};
use crate::common::{
    address_text, pointer_ref, size_text, AddressedTypeRef, ByteSize, FunctionID, LocalAddress,
    TypeID, TypeRef,
};
use crate::compiler::global_table::GlobalTable;
use crate::compiler::global_tracker::GlobalTracker;
use crate::compiler::local_variable_table::LocalVariableTable;

verus! {

/// The text `heap_alloc` generates: calls `malloc` for `size` bytes with `stack` bytes of
/// stack in use, then stores the returned pointer in `output`.
pub open spec fn heap_alloc_text(size: ByteSize, stack: ByteSize, output: LocalAddress) -> Seq<char> {
    "    mov rdi, "@ + size_text(size) + "\n    sub rsp, "@ + size_text(stack)
        + "\n    extern malloc\n    call malloc\n    add rsp, "@ + size_text(stack)
        + "\n    mov qword "@ + address_text(output) + ", rax\n"@
}

/// Allocates space for a type on the heap and returns the assembly and the stack slot
/// holding the address.
pub fn heap_alloc(
    t: TypeRef,
    global_table: &GlobalTable,
    local_variable_table: &mut LocalVariableTable,
) -> (r: (Assembly, AddressedTypeRef))
    requires
        t.indirection.0 < usize::MAX,
        t.indirection.0 == 0 ==> global_table.has_type(t.type_id),
        old(local_variable_table).wf(),
        old(local_variable_table).sizes().len() > 0,
        old(local_variable_table).current_size() + 8 <= isize::MAX,
    ensures
        final(local_variable_table).wf(),
        final(local_variable_table).scopes() == old(local_variable_table).scopes(),
        final(local_variable_table).sizes() == old(local_variable_table).sizes().update(
            old(local_variable_table).sizes().len() - 1,
            (old(local_variable_table).current_size() + 8) as usize,
        ),
        r.1.type_ref == t.plus_one_indirect_spec(),
        r.1.address.0 == -(old(local_variable_table).current_size() + 8),
        r.0@ == heap_alloc_text(
            ByteSize(global_table.size_of(t) as usize),
            ByteSize(old(local_variable_table).current_size()),
            r.1.address,
        ),
{
    let size = global_table.get_size(&t);
    let sz = local_variable_table.stack_size();
    let output = global_table.add_local_variable_unnamed(t.plus_one_indirect(), local_variable_table);
    let mut s = String::new();
    s.append("    mov rdi, ");
    size.append_text(&mut s);
    s.append("\n    sub rsp, ");
    sz.append_text(&mut s);
    s.append("\n    extern malloc\n    call malloc\n    add rsp, ");
    sz.append_text(&mut s);
    s.append("\n    mov qword ");
    output.local_address().append_text(&mut s);
    s.append(", rax\n");
    proof {
        assert(s@ =~= heap_alloc_text(size, sz, output.address));
    }
    (s, output)
}

/// Creates a `FreeFunction` for a given type and function id.
pub fn free_function(t: TypeID, f: FunctionID) -> (r: FreeFunction)
    ensures
        r.function_id() == f,
        r.owner_type() == Some(t),
{
    FreeFunction { id: f, parent_type: t }
}

/// `free` function for deallocating heap memory
pub struct FreeFunction {
    pub id: FunctionID,
    pub parent_type: TypeID,
}

/// The text `free` generates for a pointer at `lhs`.
pub open spec fn free_text(lhs: LocalAddress, sz: ByteSize) -> Seq<char> {
    "    mov rdi, qword "@ + address_text(lhs) + "\n    sub rsp, "@ + size_text(sz)
        + "\n    extern free\n    call free\n    add rsp, "@ + size_text(sz) + "\n"@
}

impl BuiltinInlineFunction for FreeFunction {
    open spec fn function_id(&self) -> FunctionID {
        self.id
    }

    open spec fn function_name(&self) -> Seq<char> {
        "free"@
    }

    open spec fn owner_type(&self) -> Option<TypeID> {
        Some(self.parent_type)
    }

    open spec fn arity(&self) -> nat {
        1
    }

    open spec fn writes_return(&self) -> bool {
        false
    }

    open spec fn tags_used(&self) -> nat {
        0
    }

    fn id(&self) -> (r: FunctionID) {
        self.id
    }

    fn name(&self) -> (r: &'static str) {
        "free"
    }

    open spec fn signature_spec(&self) -> (SelfType, Seq<(Seq<char>, TypeRef)>, Option<TypeRef>) {
        (SelfType::NoSelf, seq![("heap_pointer"@, pointer_ref(self.parent_type))], None)
    }

    fn signature(&self) -> (s: FunctionSignature)
        ensures
            has_signature(s, SelfType::NoSelf, seq![("heap_pointer"@, pointer_ref(self.parent_type))], None),
    {
        let args: Vec<(String, TypeRef)> = vec![(String::from_str("heap_pointer"), self.parent_type.with_indirection_single(1))];
        let ghost a = args@;
        let s = FunctionSignature::new(SelfType::NoSelf, args, None);
        proof {
            assert(signature_params(a) =~= seq![("heap_pointer"@, pointer_ref(self.parent_type))]);
        }
        s
    }

    open spec fn inline_text(&self, args: Seq<LocalAddress>, return_into: Option<LocalAddress>, sz: ByteSize, counter: nat) -> Seq<char> {
        free_text(args[0], sz)
    }

    fn inline(
        &self,
        args: &[LocalAddress],
        return_into: Option<LocalAddress>,
        gt: &mut GlobalTracker,
        sz: ByteSize,
    ) -> (a: Assembly)
        ensures
            a@ == free_text(args@[0], sz),
            final(gt).readonly_names() == old(gt).readonly_names(),
            final(gt).readonly_section() == old(gt).readonly_section(),
    {
        let lhs = args[0];
        let mut s = String::new();
        s.append("    mov rdi, qword ");
        lhs.append_text(&mut s);
        s.append("\n    sub rsp, ");
        sz.append_text(&mut s);
        s.append("\n    extern free\n    call free\n    add rsp, ");
        sz.append_text(&mut s);
        s.append("\n");
        proof {
            assert(s@ =~= free_text(lhs, sz));
        }
        s
    }

    fn parent_type(&self) -> (r: Option<TypeID>) {
        Some(self.parent_type)
    }
}

/// Freeing hands `free` the heap pointer held in the argument slot, not the slot's own
/// address: the code starts by loading the eight bytes stored at the slot into `rdi`, the
/// register of the first argument, and `call free` follows the stack adjustment, which is
/// undone by the same amount afterwards.
#[verifier::spinoff_prover]
pub proof fn free_is_given_the_stored_pointer(
    f: FreeFunction,
    args: Seq<LocalAddress>,
    return_into: Option<LocalAddress>,
    sz: ByteSize,
    counter: nat,
)
    requires
        args.len() >= 1,
    ensures
        f.inline_text(args, return_into, sz, counter) == "    mov rdi, qword "@ + address_text(args[0]) + "\n"@
            + "    sub rsp, "@ + size_text(sz) + "\n"@ + "    extern free\n"@ + "    call free\n"@
            + "    add rsp, "@ + size_text(sz) + "\n"@,
{
    let after = "    add rsp, "@ + size_text(sz) + "\n"@;
    reveal_strlit("    mov rdi, qword ");
    reveal_strlit("\n");
    reveal_strlit("    sub rsp, ");
    reveal_strlit("\n    sub rsp, ");
    reveal_strlit("\n    extern free\n    call free\n    add rsp, ");
    reveal_strlit("    extern free\n");
    reveal_strlit("    call free\n");
    reveal_strlit("    add rsp, ");
    assert(f.inline_text(args, return_into, sz, counter) =~= "    mov rdi, qword "@ + address_text(args[0]) + "\n"@
        + "    sub rsp, "@ + size_text(sz) + "\n"@ + "    extern free\n"@ + "    call free\n"@ + after);
}

} // verus!
