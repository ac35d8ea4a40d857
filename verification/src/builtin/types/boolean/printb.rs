//! Printing booleans.

use vstd::prelude::*;
use vstd::string::StringExecFns;
use crate::assembler::Assembly;
use crate::builtin::{builtin_function_id, f_id, has_signature, slice_params, BuiltinInlineFunction, FunctionSignature, SelfType};
use crate::builtin::types::boolean::{bool_type_id, BoolType};
use crate::common::{address_text, function_label, size_text, value_ref, ByteSize, FunctionID, LocalAddress, TypeID, TypeRef};
use crate::compiler::global_tracker::{section_after, unique_tag, GlobalTracker};

verus! {

/// Unique id of `PrintB`.
pub const PRINT_B_UID: u16 = 4;

/// `printb` function that prints a boolean to the terminal
pub struct PrintB;

impl PrintB {
    pub fn id() -> (f: FunctionID)
        ensures
            f == builtin_function_id(PRINT_B_UID),
    {
        f_id(PRINT_B_UID)
    }
}

/// Name of the read-only string `printb` uses (print bool false).
pub open spec fn print_bool_false_name() -> Seq<char> {
    function_label(builtin_function_id(PRINT_B_UID)) + "_f_fstr"@
}

/// Definition of the read-only string `printb` uses (print bool false).
pub open spec fn print_bool_false_data() -> Seq<char> {
    print_bool_false_name() + " db `Boolean: False\\n`,0"@
}

/// Name of the read-only string `printb` uses (print bool true).
pub open spec fn print_bool_true_name() -> Seq<char> {
    function_label(builtin_function_id(PRINT_B_UID)) + "_t_fstr"@
}

/// Definition of the read-only string `printb` uses (print bool true).
pub open spec fn print_bool_true_data() -> Seq<char> {
    print_bool_true_name() + " db `Boolean: True\\n`,0"@
}

/// The text `printb` generates (tags: false, end; strings: false text, true text).
pub open spec fn print_bool_text(
    lhs: LocalAddress,
    t0: Seq<char>,
    t1: Seq<char>,
    s0: Seq<char>,
    s1: Seq<char>,
    sz: ByteSize,
) -> Seq<char> {
    "    mov al, byte "@ + address_text(lhs) + "\n    cmp al, 0\n    jz "@ + t0
        + "\n    mov rdi, "@ + s1 + "\n    jmp "@ + t1 + "\n    "@ + t0 + ":\n    mov rdi, "@
        + s0 + "\n    "@ + t1 + ":\n    mov rsi, 0\n    mov al, 0\n    sub rsp, "@
        + size_text(sz) + "\n    extern printf\n    call printf\n    add rsp, "@ + size_text(sz)
        + "\n"@
}

impl BuiltinInlineFunction for PrintB {
    open spec fn function_id(&self) -> FunctionID {
        builtin_function_id(PRINT_B_UID)
    }

    open spec fn function_name(&self) -> Seq<char> {
        "printb"@
    }

    open spec fn owner_type(&self) -> Option<TypeID> {
        None
    }

    open spec fn arity(&self) -> nat {
        1
    }

    open spec fn writes_return(&self) -> bool {
        false
    }

    open spec fn tags_used(&self) -> nat {
        2
    }

    fn id(&self) -> (r: FunctionID) {
        Self::id()
    }

    fn name(&self) -> (r: &'static str) {
        "printb"
    }

    open spec fn signature_spec(&self) -> (SelfType, Seq<(Seq<char>, TypeRef)>, Option<TypeRef>) {
        (SelfType::NoSelf, seq![("lhs"@, value_ref(bool_type_id()))], None)
    }

    fn signature(&self) -> (s: FunctionSignature)
        ensures
            has_signature(s, SelfType::NoSelf, seq![("lhs"@, value_ref(bool_type_id()))], None),
    {
        let args: [(&str, TypeRef); 1] = [("lhs", BoolType::id().immediate_single())];
        let s = FunctionSignature::new_inline_builtin(SelfType::NoSelf, &args, None);
        proof {
            assert(slice_params(args@) =~= seq![("lhs"@, value_ref(bool_type_id()))]);
        }
        s
    }

    open spec fn inline_text(&self, args: Seq<LocalAddress>, return_into: Option<LocalAddress>, sz: ByteSize, counter: nat) -> Seq<char> {
        print_bool_text(
            args[0],
            unique_tag(builtin_function_id(PRINT_B_UID), counter),
            unique_tag(builtin_function_id(PRINT_B_UID), counter + 1),
            print_bool_false_name(),
            print_bool_true_name(),
            sz,
            )
    }

    fn inline(
        &self,
        args: &[LocalAddress],
        return_into: Option<LocalAddress>,
        gt: &mut GlobalTracker,
        sz: ByteSize,
    ) -> (a: Assembly)
        ensures
            a@ == print_bool_text(
                args@[0],
                unique_tag(builtin_function_id(PRINT_B_UID), old(gt).tag_counter()),
                unique_tag(builtin_function_id(PRINT_B_UID), old(gt).tag_counter() + 1),
                print_bool_false_name(),
                print_bool_true_name(),
                sz,
            ),
            final(gt).readonly_names() == old(gt).readonly_names().insert(print_bool_false_name()).insert(print_bool_true_name()),
            final(gt).readonly_section() == section_after(
                old(gt).readonly_names().insert(print_bool_false_name()),
                section_after(
                    old(gt).readonly_names(),
                    old(gt).readonly_section(),
                    print_bool_false_name(),
                    print_bool_false_data(),
                ),
                print_bool_true_name(),
                print_bool_true_data(),
            ),
    {
        let lhs = args[0];
        let mut s0 = PrintB::id().string_id();
        s0.append("_f_fstr");
        let mut data0 = s0.clone();
        data0.append(" db `Boolean: False\\n`,0");
        gt.add_readonly_data(s0.as_str(), data0.as_str());
        let mut s1 = PrintB::id().string_id();
        s1.append("_t_fstr");
        let mut data1 = s1.clone();
        data1.append(" db `Boolean: True\\n`,0");
        gt.add_readonly_data(s1.as_str(), data1.as_str());
        let t0 = gt.get_unique_tag(PrintB::id());
        let t1 = gt.get_unique_tag(PrintB::id());
        let mut s = String::new();
        s.append("    mov al, byte ");
        lhs.append_text(&mut s);
        s.append("\n    cmp al, 0\n    jz ");
        s.append(t0.as_str());
        s.append("\n    mov rdi, ");
        s.append(s1.as_str());
        s.append("\n    jmp ");
        s.append(t1.as_str());
        s.append("\n    ");
        s.append(t0.as_str());
        s.append(":\n    mov rdi, ");
        s.append(s0.as_str());
        s.append("\n    ");
        s.append(t1.as_str());
        s.append(":\n    mov rsi, 0\n    mov al, 0\n    sub rsp, ");
        sz.append_text(&mut s);
        s.append("\n    extern printf\n    call printf\n    add rsp, ");
        sz.append_text(&mut s);
        s.append("\n");
        proof {
            assert(s@ =~= print_bool_text(lhs, t0@, t1@, s0@, s1@, sz));
        }
        s
    }

    fn parent_type(&self) -> (r: Option<TypeID>) {
        None
    }
}

/// `printb` prints the True text exactly when the bool is not zero: it loads the bool into
/// `al` and compares it with zero; the jump taken when it is zero goes to a tag where the
/// False format is loaded into `rdi`, while the path that falls through loads the True
/// format and then jumps over the False one to a second, different tag, after which
/// `printf` is called with the stack lowered and restored by the same amount.
#[verifier::spinoff_prover]
#[verifier::rlimit(50)]
pub proof fn printb_chooses_by_the_bool(
    args: Seq<LocalAddress>,
    return_into: Option<LocalAddress>,
    sz: ByteSize,
    counter: nat,
)
    requires
        args.len() >= 1,
    ensures
        exists|zero: Seq<char>, end: Seq<char>, after: Seq<char>|
            zero != end && PrintB.inline_text(args, return_into, sz, counter)
                == "    mov al, byte "@ + address_text(args[0]) + "\n"@ + "    cmp al, 0\n"@
                    + "    jz "@ + zero + "\n"@
                    + "    mov rdi, "@ + print_bool_true_name() + "\n"@ + "    jmp "@ + end + "\n"@
                    + "    "@ + zero + ":\n"@ + "    mov rdi, "@ + print_bool_false_name() + "\n"@
                    + "    "@ + end + ":\n"@ + after
                && after == "    mov rsi, 0\n    mov al, 0\n"@ + "    sub rsp, "@ + size_text(sz) + "\n"@
                    + "    extern printf\n    call printf\n"@ + "    add rsp, "@ + size_text(sz) + "\n"@,
{
    let zero = unique_tag(builtin_function_id(PRINT_B_UID), counter);
    let end = unique_tag(builtin_function_id(PRINT_B_UID), counter + 1);
    crate::compiler::global_tracker::unique_tags_differ(builtin_function_id(PRINT_B_UID), counter, builtin_function_id(PRINT_B_UID), counter + 1);
    let after = "    mov rsi, 0\n    mov al, 0\n    sub rsp, "@ + size_text(sz) + "\n    extern printf\n    call printf\n    add rsp, "@ + size_text(sz) + "\n"@;
    reveal_strlit("    mov al, byte ");
    reveal_strlit("\n    cmp al, 0\n    jz ");
    reveal_strlit("\n    mov rdi, ");
    reveal_strlit("\n    jmp ");
    reveal_strlit("\n    ");
    reveal_strlit(":\n    mov rdi, ");
    reveal_strlit(":\n    mov rsi, 0\n    mov al, 0\n    sub rsp, ");
    reveal_strlit("    mov rsi, 0\n    mov al, 0\n    sub rsp, ");
    reveal_strlit("\n");
    reveal_strlit("    cmp al, 0\n");
    reveal_strlit("    jz ");
    reveal_strlit("    mov rdi, ");
    reveal_strlit("    jmp ");
    reveal_strlit("    ");
    reveal_strlit(":\n");
    assert(PrintB.inline_text(args, return_into, sz, counter)
        =~= "    mov al, byte "@ + address_text(args[0]) + "\n"@ + "    cmp al, 0\n"@
            + "    jz "@ + zero + "\n"@
            + "    mov rdi, "@ + print_bool_true_name() + "\n"@ + "    jmp "@ + end + "\n"@
            + "    "@ + zero + ":\n"@ + "    mov rdi, "@ + print_bool_false_name() + "\n"@
            + "    "@ + end + ":\n"@ + after);
    reveal_strlit("    mov rsi, 0\n    mov al, 0\n");
    reveal_strlit("    sub rsp, ");
    reveal_strlit("    add rsp, ");
    reveal_strlit("    extern printf\n    call printf\n");
    reveal_strlit("\n    extern printf\n    call printf\n    add rsp, ");
    assert(after =~= "    mov rsi, 0\n    mov al, 0\n"@ + "    sub rsp, "@ + size_text(sz) + "\n"@
        + "    extern printf\n    call printf\n"@ + "    add rsp, "@ + size_text(sz) + "\n"@);
}

} // verus!
