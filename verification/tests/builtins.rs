use whython::builtin::functions::exit::ExitFunction;
use whython::builtin::functions::printnl::PrintNL;
use whython::builtin::language::referencing::{set_deref, set_reference};
use whython::builtin::register_builtin;
use whython::builtin::types::boolean::and::BoolAnd;
use whython::builtin::types::boolean::not::BoolNot;
use whython::builtin::types::boolean::printb::PrintB;
use whython::builtin::types::boolean::BoolType;
use whython::builtin::types::integer::modulo::IntModulo;
use whython::builtin::types::integer::print_int::PrintInt;
use whython::builtin::types::integer::IntType;
use whython::builtin::{BuiltinInlineFunction, SelfType, Type};
use whython::common::{AddressedTypeRef, ByteSize, FunctionID, Indirection, LocalAddress, TypeID, TypeRef};
use whython::compiler::assembly::heap::{free_function, heap_alloc};
use whython::compiler::assembly::null::{is_null_function, null_function};
use whython::compiler::evaluation::coerce_self::coerce_self;
use whython::compiler::evaluation::expect_addr;
use whython::compiler::global_table::GlobalTable;
use whython::compiler::global_tracker::GlobalTracker;
use whython::compiler::local_variable_table::LocalVariableTable;
use whython::errors::{CompErrs, ErrorKind, EvalErrs, LiteralToken, LiteralTokens, Location};

fn int_ref(indirection: usize) -> TypeRef {
    TypeRef::new(IntType::id(), 1, Indirection(indirection))
}

fn builtin_table() -> GlobalTable {
    let mut t = GlobalTable::new();
    register_builtin(&mut t);
    t
}

#[test]
fn int_literal_is_stored_through_rax() {
    let literal = LiteralToken::new(Location::builtin(), LiteralTokens::Int(5));
    assert_eq!(
        IntType.instantiate_from_literal(&LocalAddress(-8), &literal).ok().unwrap(),
        "    mov rax, 5\n    mov qword [rbp-8], rax\n"
    );
    let min = LiteralToken::new(Location::builtin(), LiteralTokens::Int(i64::MIN as i128));
    assert_eq!(
        IntType.instantiate_from_literal(&LocalAddress(-16), &min).ok().unwrap(),
        "    mov rax, -9223372036854775808\n    mov qword [rbp-16], rax\n"
    );
}

#[test]
fn int_literal_above_max_is_refused() {
    let at = Location { file_id: Some(0), line: 3, offset: 7 };
    let literal = LiteralToken::new(at, LiteralTokens::Int(i64::MAX as i128 + 1));
    let e = IntType.instantiate_from_literal(&LocalAddress(-8), &literal).err().unwrap();
    assert_eq!(e.location, at);
    match e.error {
        ErrorKind::Comp(c) => {
            assert!(matches!(c, CompErrs::IntLiteralExceedsMax(9223372036854775808, 9223372036854775807)));
            assert_eq!(
                c.message(),
                "Int literal (9223372036854775808) exceeds maximum value (9223372036854775807) for type"
            );
        }
        _ => panic!("wrong error"),
    }
}

#[test]
fn int_literal_below_min_is_refused() {
    let literal = LiteralToken::new(Location::builtin(), LiteralTokens::Int(i64::MIN as i128 - 1));
    let e = IntType.instantiate_from_literal(&LocalAddress(-8), &literal).err().unwrap();
    match e.error {
        ErrorKind::Comp(c) => {
            assert!(matches!(c, CompErrs::IntLiteralBelowMin(-9223372036854775809, -9223372036854775808)));
            assert_eq!(
                c.message(),
                "Int literal (-9223372036854775809) below minimum value (-9223372036854775808) for type"
            );
        }
        _ => panic!("wrong error"),
    }
}

#[test]
fn bool_literal_in_an_int() {
    let t = LiteralToken::new(Location::builtin(), LiteralTokens::Bool(true));
    let f = LiteralToken::new(Location::builtin(), LiteralTokens::Bool(false));
    assert_eq!(IntType.instantiate_from_literal(&LocalAddress(-8), &t).ok().unwrap(), "    mov qword [rbp-8], 0\n");
    assert_eq!(IntType.instantiate_from_literal(&LocalAddress(-8), &f).ok().unwrap(), "    mov qword [rbp-8], 1\n");
}

#[test]
fn error_messages() {
    assert_eq!(CompErrs::ExpectedReturn(String::from("int")).message(), "Expected return (int)");
    assert_eq!(
        CompErrs::ExpectedReturnType(String::from("int"), String::from("bool")).message(),
        "Expected return type (int) but found (bool)"
    );
    assert_eq!(CompErrs::ExpectedSomeReturn(String::from("int")).message(), "Expected return type (int), not none");
    assert_eq!(CompErrs::ExpectedNoReturn.message(), "Expected return with no value");
    assert_eq!(CompErrs::CannotBreak.message(), "Cannot break - not in a loop");
}

#[test]
fn type_descriptions() {
    assert_eq!(IntType.name(), "int");
    assert_eq!(IntType.size(), ByteSize(8));
    assert_eq!(BoolType.name(), "bool");
    assert_eq!(BoolType.size(), ByteSize(1));
    assert_eq!(IntType::id(), TypeID(-1));
    assert_eq!(BoolType::id(), TypeID(-2));
}

#[test]
fn bool_and_branches_on_the_left_operand() {
    let mut gt = GlobalTracker::new();
    let a = BoolAnd.inline(&[LocalAddress(-1), LocalAddress(-2)], Some(LocalAddress(-3)), &mut gt, ByteSize(16));
    assert_eq!(
        a,
        "    mov al, byte [rbp-1]\n    cmp al, 0\n    jz __5_0\n    mov al, byte [rbp-2]\n\
         \x20   mov byte [rbp-3], al\n    jmp __5_1\n    __5_0:\n    mov byte [rbp-3], 0\n    __5_1:\n"
    );
    assert_eq!(gt.unique_tag_counter(), 2);
    assert_eq!(BoolAnd.name(), "and");
    assert_eq!(BoolAnd.parent_type(), Some(BoolType::id()));
    let s = BoolAnd.signature();
    assert!(matches!(s.self_type(), SelfType::CopySelf));
    assert_eq!(s.args().len(), 2);
    assert_eq!(s.args()[1].0, "rhs");
    assert_eq!(s.return_type(), Some(TypeRef::new(BoolType::id(), 1, Indirection(0))));
}

#[test]
fn bool_not_takes_fresh_tags() {
    let mut gt = GlobalTracker::new();
    gt.get_unique_tag(FunctionID(1));
    let a = BoolNot.inline(&[LocalAddress(-1)], Some(LocalAddress(-2)), &mut gt, ByteSize(0));
    assert_eq!(
        a,
        "    mov al, byte [rbp-1]\n    cmp al, 0\n    jz __5_1\n    mov byte [rbp-2], 0\n\
         \x20   jmp __5_2\n    __5_1:\n    mov byte [rbp-2], 1\n    __5_2:\n"
    );
}

#[test]
fn int_modulo_text() {
    let mut gt = GlobalTracker::new();
    let a = IntModulo.inline(&[LocalAddress(-8), LocalAddress(-16)], Some(LocalAddress(-24)), &mut gt, ByteSize(24));
    assert_eq!(
        a,
        "    mov rax, qword [rbp-8]\n    mov rdx, 0\n    mov rbx, qword [rbp-16]\n    idiv rbx\n\
         \x20   mov qword [rbp-24], rdx\n"
    );
    assert_eq!(gt.unique_tag_counter(), 0);
}

#[test]
fn print_int_adds_its_format_once() {
    let mut gt = GlobalTracker::new();
    let a = PrintInt.inline(&[LocalAddress(-8)], None, &mut gt, ByteSize(16));
    assert_eq!(
        a,
        "    mov rdi, __23_fstr\n    mov rsi, [rbp-8]\n    mov al, 0\n    sub rsp, 16\n\
         \x20   extern printf\n    call printf\n    add rsp, 16\n"
    );
    PrintInt.inline(&[LocalAddress(-16)], None, &mut gt, ByteSize(32));
    assert_eq!(gt.readonly_data_section(), "\n    __23_fstr db `Integer: %ld\\n`,0");
}

#[test]
fn print_bool_adds_both_formats() {
    let mut gt = GlobalTracker::new();
    PrintB.inline(&[LocalAddress(-1)], None, &mut gt, ByteSize(8));
    assert_eq!(
        gt.readonly_data_section(),
        "\n    __5_f_fstr db `Boolean: False\\n`,0\n    __5_t_fstr db `Boolean: True\\n`,0"
    );
    assert_eq!(gt.unique_tag_counter(), 2);
}

#[test]
fn print_newline_and_exit() {
    let mut gt = GlobalTracker::new();
    assert_eq!(
        PrintNL.inline(&[], None, &mut gt, ByteSize(0)),
        "    mov rdi, __4_fstr\n    mov al, 0\n    sub rsp, 0\n    extern printf\n    call printf\n    add rsp, 0\n"
    );
    assert_eq!(gt.readonly_data_section(), "\n    __4_fstr db `\\n`,0");
    assert_eq!(
        ExitFunction.inline(&[LocalAddress(-8)], None, &mut gt, ByteSize(8)),
        "    mov rax, 60\n    mov rdi, [rbp-8]\n    syscall\n"
    );
    assert_eq!(ExitFunction.id(), FunctionID(-3));
}

#[test]
fn heap_allocation_of_an_int() {
    let table = builtin_table();
    let mut locals = LocalVariableTable::new();
    locals.add_new_unnamed(ByteSize(16));
    let (code, slot) = heap_alloc(int_ref(0), &table, &mut locals);
    assert_eq!(
        code,
        "    mov rdi, 8\n    sub rsp, 16\n    extern malloc\n    call malloc\n    add rsp, 16\n\
         \x20   mov qword [rbp-24], rax\n"
    );
    assert_eq!(slot, AddressedTypeRef::new(LocalAddress(-24), int_ref(1)));
    let free = free_function(IntType::id(), FunctionID(-40));
    assert_eq!(free.id(), FunctionID(-40));
    assert_eq!(free.parent_type(), Some(IntType::id()));
}

#[test]
fn null_pointers() {
    let mut gt = GlobalTracker::new();
    let null = null_function(IntType::id(), FunctionID(-50));
    assert_eq!(null.inline(&[], Some(LocalAddress(-8)), &mut gt, ByteSize(8)), "    mov qword [rbp-8], 0\n");
    let is_null = is_null_function(IntType::id(), FunctionID(-51));
    let a = is_null.inline(&[LocalAddress(-8)], Some(LocalAddress(-9)), &mut gt, ByteSize(9));
    assert!(a.starts_with("    mov rax, qword [rbp-8]\n    cmp rax, 0\n    jz "));
    assert!(a.contains("    mov byte [rbp-9], 1\n"));
    assert_eq!(gt.unique_tag_counter(), 2);
    assert_eq!(is_null.parent_type(), Some(IntType::id()));
}

#[test]
fn reference_to_a_local() {
    let table = builtin_table();
    let target = AddressedTypeRef::new(LocalAddress(-8), int_ref(0));
    let into = AddressedTypeRef::new(LocalAddress(-16), int_ref(1));
    assert_eq!(
        set_reference(&Location::builtin(), target, into, &table).ok().unwrap(),
        "    mov rax, rbp\n    add rax, 0xfffffffffffffff8\n    mov qword [rbp-16], rax\n"
    );
}

#[test]
fn reference_of_wrong_type_is_refused() {
    let table = builtin_table();
    let target = AddressedTypeRef::new(LocalAddress(-8), int_ref(0));
    let into = AddressedTypeRef::new(LocalAddress(-16), int_ref(0));
    let e = set_reference(&Location::builtin(), target, into, &table).err().unwrap();
    match e.error {
        ErrorKind::Eval(EvalErrs::OpWrongReturnType(expected, found)) => {
            assert_eq!(expected, "int");
            assert_eq!(found, "&int");
        }
        _ => panic!("wrong error"),
    }
}

#[test]
fn dereference_copies_through_the_pointer() {
    let table = builtin_table();
    let pointer = AddressedTypeRef::new(LocalAddress(-16), int_ref(1));
    let into = AddressedTypeRef::new(LocalAddress(-24), int_ref(0));
    assert_eq!(
        set_deref(&Location::builtin(), pointer, into, &table).ok().unwrap(),
        "    mov rdx, qword [rbp-16]\n    mov rax, qword [rdx+0]\n    mov qword [rbp-24], rax\n"
    );
    let wrong = AddressedTypeRef::new(LocalAddress(-16), int_ref(2));
    let e = set_deref(&Location::builtin(), wrong, into, &table).err().unwrap();
    match e.error {
        ErrorKind::Eval(EvalErrs::ExpectedDifferentType(expected, found)) => {
            assert_eq!(expected, "&int");
            assert_eq!(found, "&&int");
        }
        _ => panic!("wrong error"),
    }
}

#[test]
fn receiver_copied_out_of_a_reference() {
    let table = builtin_table();
    let mut locals = LocalVariableTable::new();
    locals.add_new_unnamed(ByteSize(8));
    let current = AddressedTypeRef::new(LocalAddress(-8), int_ref(1));
    let (code, receiver) = coerce_self(current, SelfType::CopySelf, &table, &mut locals).ok().unwrap();
    assert_eq!(receiver, AddressedTypeRef::new(LocalAddress(-16), int_ref(0)));
    assert_eq!(
        code,
        "    mov rdx, qword [rbp-8]\n    mov rax, qword [rdx+0]\n    mov qword [rbp-16], rax\n"
    );
}

#[test]
fn receiver_referenced() {
    let table = builtin_table();
    let mut locals = LocalVariableTable::new();
    locals.add_new_unnamed(ByteSize(8));
    let current = AddressedTypeRef::new(LocalAddress(-8), int_ref(0));
    let (code, receiver) = coerce_self(current, SelfType::RefSelf, &table, &mut locals).ok().unwrap();
    assert_eq!(receiver, AddressedTypeRef::new(LocalAddress(-16), int_ref(1)));
    assert_eq!(code, "    mov rax, rbp\n    add rax, 0xfffffffffffffff8\n    mov qword [rbp-16], rax\n");
}

#[test]
fn receiver_left_alone() {
    let table = builtin_table();
    let mut locals = LocalVariableTable::new();
    let by_ref = AddressedTypeRef::new(LocalAddress(-8), int_ref(1));
    let (code, receiver) = coerce_self(by_ref, SelfType::RefSelf, &table, &mut locals).ok().unwrap();
    assert_eq!(code, "");
    assert_eq!(receiver, by_ref);
    let (code, receiver) = coerce_self(by_ref, SelfType::NoSelf, &table, &mut locals).ok().unwrap();
    assert_eq!(code, "");
    assert_eq!(receiver, by_ref);
    assert_eq!(locals.stack_size(), ByteSize(0));
}

#[test]
fn receiver_reference_through_two_pointers() {
    let table = builtin_table();
    let mut locals = LocalVariableTable::new();
    locals.add_new_unnamed(ByteSize(8));
    let current = AddressedTypeRef::new(LocalAddress(-8), int_ref(2));
    let (code, receiver) = coerce_self(current, SelfType::RefSelf, &table, &mut locals).ok().unwrap();
    assert_eq!(receiver, AddressedTypeRef::new(LocalAddress(-16), int_ref(1)));
    assert_eq!(
        code,
        "    mov rdx, qword [rbp-8]\n    mov rax, qword [rdx+0]\n    mov qword [rbp-16], rax\n"
    );
}

#[test]
fn expect_addr_unwraps() {
    let a = AddressedTypeRef::new(LocalAddress(-8), int_ref(0));
    let (code, addr) = expect_addr((String::from("x"), Some(a))).ok().unwrap();
    assert_eq!(code, "x");
    assert_eq!(addr, a);
}
