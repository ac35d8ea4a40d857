//! Printing integers (single-file form).

use vstd::prelude::*;
use vstd::string::StringExecFns;
use crate::assembler::Assembly;
use crate::builtin::{builtin_function_id, f_id, has_signature, slice_params, BuiltinInlineFunction, FunctionSignature, SelfType};
use crate::builtin::types::integer::{int_type_id, IntType};
use crate::common::{address_text, function_label, size_text, value_ref, ByteSize, FunctionID, LocalAddress, TypeID, TypeRef};
use crate::compiler::global_tracker::{section_after, GlobalTracker};

verus! {

/// Unique id of `PrintI`.
pub const PRINT_I_UID: u16 = 29;

/// `printi` function that prints an integer (single-file form)
pub struct PrintI;

impl PrintI {
    pub fn id() -> (f: FunctionID)
        ensures
            f == builtin_function_id(PRINT_I_UID),
    {
        f_id(PRINT_I_UID)
    }
}

/// Name of the read-only string `printi` uses (print i format).
pub open spec fn print_i_format_name() -> Seq<char> {
    function_label(builtin_function_id(PRINT_I_UID)) + "_fstr"@
}

/// Definition of the read-only string `printi` uses (print i format).
pub open spec fn print_i_format_data() -> Seq<char> {
    print_i_format_name() + " db `Integer: %ld\\n`,0"@
}

/// The text `printi` generates (string: the format).
pub open spec fn print_i_text(lhs: LocalAddress, s0: Seq<char>, sz: ByteSize) -> Seq<char> {
    "    mov rdi, "@ + s0 + "\n    mov rsi, "@ + address_text(lhs)
        + "\n    mov al, 0\n    sub rsp, "@ + size_text(sz)
        + "\n    extern printf\n    call printf\n    add rsp, "@ + size_text(sz) + "\n"@
}

impl BuiltinInlineFunction for PrintI {
    open spec fn function_id(&self) -> FunctionID {
        builtin_function_id(PRINT_I_UID)
    }

    open spec fn function_name(&self) -> Seq<char> {
        "printi"@
    }

    open spec fn owner_type(&self) -> Option<TypeID> {
        None
    }

    open spec fn arity(&self) -> nat {
        1
    }

    open spec fn writes_return(&self) -> bool {
        false
    }

    open spec fn tags_used(&self) -> nat {
        0
    }

    fn id(&self) -> (r: FunctionID) {
        Self::id()
    }

    fn name(&self) -> (r: &'static str) {
        "printi"
    }

    open spec fn signature_spec(&self) -> (SelfType, Seq<(Seq<char>, TypeRef)>, Option<TypeRef>) {
        (SelfType::NoSelf, seq![("lhs"@, value_ref(int_type_id()))], None)
    }

    fn signature(&self) -> (s: FunctionSignature)
        ensures
            has_signature(s, SelfType::NoSelf, seq![("lhs"@, value_ref(int_type_id()))], None),
    {
        let args: [(&str, TypeRef); 1] = [("lhs", IntType::id().immediate_single())];
        let s = FunctionSignature::new_inline_builtin(SelfType::NoSelf, &args, None);
        proof {
            assert(slice_params(args@) =~= seq![("lhs"@, value_ref(int_type_id()))]);
        }
        s
    }

    open spec fn inline_text(&self, args: Seq<LocalAddress>, return_into: Option<LocalAddress>, sz: ByteSize, counter: nat) -> Seq<char> {
        print_i_text(args[0], print_i_format_name(), sz)
    }

    fn inline(
        &self,
        args: &[LocalAddress],
        return_into: Option<LocalAddress>,
        gt: &mut GlobalTracker,
        sz: ByteSize,
    ) -> (a: Assembly)
        ensures
            a@ == print_i_text(args@[0], print_i_format_name(), sz),
            final(gt).readonly_names() == old(gt).readonly_names().insert(print_i_format_name()),
            final(gt).readonly_section() == section_after(
                old(gt).readonly_names(),
                old(gt).readonly_section(),
                print_i_format_name(),
                print_i_format_data(),
            ),
    {
        let lhs = args[0];
        let mut s0 = PrintI::id().string_id();
        s0.append("_fstr");
        let mut data0 = s0.clone();
        data0.append(" db `Integer: %ld\\n`,0");
        gt.add_readonly_data(s0.as_str(), data0.as_str());
        let mut s = String::new();
        s.append("    mov rdi, ");
        s.append(s0.as_str());
        s.append("\n    mov rsi, ");
        lhs.append_text(&mut s);
        s.append("\n    mov al, 0\n    sub rsp, ");
        sz.append_text(&mut s);
        s.append("\n    extern printf\n    call printf\n    add rsp, ");
        sz.append_text(&mut s);
        s.append("\n");
        proof {
            assert(s@ =~= print_i_text(lhs, s0@, sz));
        }
        s
    }

    fn parent_type(&self) -> (r: Option<TypeID>) {
        None
    }
}

} // verus!
