use whython::ast::evaluable::{EvaluableToken, EvaluableTokens, FunctionToken, LineTokens};
use whython::builtin::functions::exit::ExitFunction;
use whython::compiler::compile::compile;
use whython::compiler::evaluation::function_only::compile_evaluable_function_only;
use whython::builtin::register_builtin;
use whython::builtin::types::boolean::BoolType;
use whython::builtin::types::integer::IntType;
use whython::common::{AddressedTypeRef, ByteSize, FunctionID, Indirection, LocalAddress, TypeRef};
use whython::compiler::compile_function::compile_function;
use whython::builtin::types::integer::modulo::IntModulo;
use whython::compiler::compile_function_call::{call_function, call_inline_function};
use whython::compiler::compile_lines::recursively_compile_lines;
use whython::compiler::evaluation::evaluate::{
    compile_evaluable_into, compile_evaluable_new, compile_evaluable_reference, compile_evaluable_type_only,
};
use whython::compiler::evaluation::expect_addr;
use whython::compiler::global_table::GlobalTable;
use whython::compiler::global_tracker::GlobalTracker;
use whython::compiler::local_variable_table::LocalVariableTable;
use whython::errors::{CompErrs, ErrorKind, EvalErrs, LiteralToken, LiteralTokens, Location};

fn at(line: usize) -> Location {
    Location { file_id: Some(0), line, offset: 0 }
}

fn tok(line: usize, token: EvaluableTokens) -> EvaluableToken {
    EvaluableToken { location: at(line), token }
}

fn int_lit(v: i128) -> EvaluableToken {
    tok(1, EvaluableTokens::Literal(LiteralToken::new(at(1), LiteralTokens::Int(v))))
}

fn bool_lit(v: bool) -> EvaluableToken {
    tok(1, EvaluableTokens::Literal(LiteralToken::new(at(1), LiteralTokens::Bool(v))))
}

fn name(n: &str) -> EvaluableToken {
    tok(2, EvaluableTokens::Name(String::from(n)))
}

fn if_only(condition: EvaluableToken, body: Vec<LineTokens>) -> LineTokens {
    LineTokens::If { condition, body, elifs: vec![], else_body: None }
}

fn ret_none(line: usize) -> LineTokens {
    LineTokens::Return { location: at(line), value: None }
}

fn int_ref(ind: usize) -> TypeRef {
    TypeRef::new(IntType::id(), 1, Indirection(ind))
}

fn table() -> GlobalTable {
    let mut t = GlobalTable::new();
    register_builtin(&mut t);
    t
}

/// A table with the `int` variable `x` at `[rbp-8]`.
fn with_x() -> LocalVariableTable {
    let mut lv = LocalVariableTable::new();
    let a = lv.add_new_unnamed(ByteSize(8));
    lv.add_existing(String::from("x"), AddressedTypeRef::new(a, int_ref(0)));
    lv
}

#[test]
fn literal_into_place() {
    let t = table();
    let mut lv = with_x();
    let target = AddressedTypeRef::new(LocalAddress(-16), int_ref(0));
    assert_eq!(
        compile_evaluable_into(&int_lit(5), target, &mut lv, &t).ok().unwrap(),
        "    mov rax, 5\n    mov qword [rbp-16], rax\n"
    );
    assert_eq!(lv.stack_size(), ByteSize(8));
}

#[test]
fn variable_into_new_slot() {
    let t = table();
    let mut lv = with_x();
    let (code, slot) = compile_evaluable_new(&name("x"), &mut lv, &t).ok().unwrap();
    assert_eq!(code, "    mov rax, qword [rbp-8]\n    mov qword [rbp-16], rax\n");
    assert_eq!(slot, Some(AddressedTypeRef::new(LocalAddress(-16), int_ref(0))));
    assert_eq!(lv.stack_size(), ByteSize(16));
}

#[test]
fn variable_by_reference_needs_no_code() {
    let t = table();
    let mut lv = with_x();
    let (code, place) = compile_evaluable_reference(&name("x"), &mut lv, &t).ok().unwrap();
    assert_eq!(code, "");
    assert_eq!(place, Some(AddressedTypeRef::new(LocalAddress(-8), int_ref(0))));
    assert_eq!(lv.stack_size(), ByteSize(8));
}

#[test]
fn reference_into_place() {
    let t = table();
    let mut lv = with_x();
    let target = AddressedTypeRef::new(LocalAddress(-16), int_ref(1));
    let e = tok(3, EvaluableTokens::Reference(Box::new(name("x"))));
    assert_eq!(
        compile_evaluable_into(&e, target, &mut lv, &t).ok().unwrap(),
        "    mov rax, rbp\n    add rax, 0xfffffffffffffff8\n    mov qword [rbp-16], rax\n"
    );
}

#[test]
fn wrong_type_is_refused() {
    let t = table();
    let mut lv = with_x();
    let target = AddressedTypeRef::new(LocalAddress(-9), TypeRef::new(BoolType::id(), 1, Indirection(0)));
    let e = compile_evaluable_into(&name("x"), target, &mut lv, &t).err().unwrap();
    assert_eq!(e.location, at(2));
    assert!(matches!(e.error, ErrorKind::Eval(EvalErrs::ExpectedDifferentType(ref a, ref b)) if a == "bool" && b == "int"));
}

#[test]
fn unknown_name_is_refused() {
    let t = table();
    let mut lv = with_x();
    let e = compile_evaluable_new(&name("y"), &mut lv, &t).err().unwrap();
    assert!(matches!(e.error, ErrorKind::Eval(EvalErrs::NameNotFound(ref n)) if n == "y"));
}

#[test]
fn dereferencing_a_value_is_refused() {
    let t = table();
    let mut lv = with_x();
    let e = tok(3, EvaluableTokens::Dereference(Box::new(name("x"))));
    let err = compile_evaluable_new(&e, &mut lv, &t).err().unwrap();
    assert_eq!(err.location, at(2));
    assert!(matches!(err.error, ErrorKind::Eval(EvalErrs::ExpectedReference(ref n)) if n == "int"));
    let err = compile_evaluable_type_only(&e, &lv, &t).err().unwrap();
    assert!(matches!(err.error, ErrorKind::Eval(EvalErrs::ExpectedReference(ref n)) if n == "int"));
}

#[test]
fn literal_with_indirection_is_refused() {
    let t = table();
    let mut lv = with_x();
    let target = AddressedTypeRef::new(LocalAddress(-16), int_ref(1));
    let err = compile_evaluable_into(&int_lit(1), target, &mut lv, &t).err().unwrap();
    assert!(matches!(err.error, ErrorKind::Eval(EvalErrs::BadIndirection(1, 0))));
}

#[test]
fn assignment_through_a_reference() {
    let t = table();
    let mut lv = with_x();
    let lhs = tok(3, EvaluableTokens::Reference(Box::new(name("x"))));
    let e = tok(3, EvaluableTokens::Assign(Box::new(lhs), Box::new(int_lit(7))));
    let (code, value) = compile_evaluable_new(&e, &mut lv, &t).ok().unwrap();
    assert_eq!(value, None);
    assert_eq!(
        code,
        "    mov rax, rbp\n    add rax, 0xfffffffffffffff8\n    mov qword [rbp-16], rax\n\
         \x20   mov rax, 7\n    mov qword [rbp-24], rax\n\
         \x20   mov rdx, qword [rbp-16]\n    mov rax, qword [rbp-24]\n    mov qword [rdx+0], rax\n"
    );
    assert_eq!(lv.stack_size(), ByteSize(24));
}

#[test]
fn assignment_to_a_value_is_refused() {
    let t = table();
    let mut lv = with_x();
    let e = tok(3, EvaluableTokens::Assign(Box::new(name("x")), Box::new(int_lit(7))));
    let err = compile_evaluable_new(&e, &mut lv, &t).err().unwrap();
    assert!(matches!(err.error, ErrorKind::Eval(EvalErrs::ExpectedReference(ref n)) if n == "int"));
}

#[test]
fn types_of_expressions() {
    let t = table();
    let lv = with_x();
    let r = tok(3, EvaluableTokens::Reference(Box::new(name("x"))));
    assert_eq!(compile_evaluable_type_only(&r, &lv, &t).ok().unwrap(), int_ref(1));
    let d = tok(4, EvaluableTokens::Dereference(Box::new(r)));
    assert_eq!(compile_evaluable_type_only(&d, &lv, &t).ok().unwrap(), int_ref(0));
    assert_eq!(
        compile_evaluable_type_only(&bool_lit(true), &lv, &t).ok().unwrap(),
        TypeRef::new(BoolType::id(), 1, Indirection(0))
    );
}

#[test]
fn empty_address_is_an_error() {
    let e = expect_addr((String::from("x"), None)).err().unwrap();
    assert!(matches!(e.error, ErrorKind::Eval(EvalErrs::ExpectedNotNone)));
}

#[test]
fn main_declares_and_returns() {
    let t = table();
    let mut lv = LocalVariableTable::new();
    let mut tr = GlobalTracker::new();
    let lines = vec![
        LineTokens::Initialisation { name: String::from("y"), type_ref: int_ref(0), value: int_lit(3) },
        LineTokens::Return { location: at(5), value: Some(name("y")) },
    ];
    let (code, returns) = recursively_compile_lines(FunctionID(0), &lines, &None, &None, &mut lv, &t, &mut tr).ok().unwrap();
    assert!(returns);
    assert_eq!(
        code,
        "    mov rax, 3\n    mov qword [rbp-8], rax\n\
         \x20   mov rax, qword [rbp-8]\n    mov qword [rbp-16], rax\n\
         \x20   mov rax, qword [rbp-16]\n    leave\n    ret\n"
    );
    assert_eq!(lv.stack_size(), ByteSize(0));
    assert_eq!(lv.get("y"), None);
}

#[test]
fn loop_with_break() {
    let t = table();
    let mut lv = LocalVariableTable::new();
    let mut tr = GlobalTracker::new();
    let lines = vec![LineTokens::While { condition: bool_lit(true), body: vec![LineTokens::Break { location: at(3) }] }];
    let (code, returns) = recursively_compile_lines(FunctionID(1), &lines, &None, &None, &mut lv, &t, &mut tr).ok().unwrap();
    assert!(!returns);
    assert_eq!(
        code,
        "    _1_0:\n    mov byte [rbp-1], 1\n    cmp byte [rbp-1], 0\n    jz _1_1\n    jmp _1_1\n    jmp _1_0\n    _1_1:\n"
    );
    assert_eq!(tr.unique_tag_counter(), 2);
}

#[test]
fn conditional_return() {
    let t = table();
    let mut lv = LocalVariableTable::new();
    let mut tr = GlobalTracker::new();
    let lines = vec![if_only(bool_lit(false), vec![LineTokens::Return { location: at(3), value: None }])];
    let (code, returns) = recursively_compile_lines(FunctionID(2), &lines, &None, &None, &mut lv, &t, &mut tr).ok().unwrap();
    assert!(!returns);
    assert_eq!(
        code,
        "    mov byte [rbp-1], 0\n    cmp byte [rbp-1], 0\n    jz _2_0\n    leave\n    ret\n    _2_1:\n    _2_0:\n"
    );
}

#[test]
fn statement_errors() {
    let t = table();
    let mut lv = LocalVariableTable::new();
    let mut tr = GlobalTracker::new();
    let stray = vec![LineTokens::Break { location: at(7) }];
    let e = recursively_compile_lines(FunctionID(1), &stray, &None, &None, &mut lv, &t, &mut tr).err().unwrap();
    assert_eq!(e.location, at(7));
    assert!(matches!(e.error, ErrorKind::Comp(CompErrs::CannotBreak)));
    let bare = vec![LineTokens::Return { location: at(8), value: None }];
    let e = recursively_compile_lines(FunctionID(0), &bare, &None, &None, &mut lv, &t, &mut tr).err().unwrap();
    assert!(matches!(e.error, ErrorKind::Comp(CompErrs::ExpectedSomeReturn(ref n)) if n == "int"));
    let valued = vec![LineTokens::Return { location: at(9), value: Some(int_lit(1)) }];
    let e = recursively_compile_lines(FunctionID(3), &valued, &None, &None, &mut lv, &t, &mut tr).err().unwrap();
    assert!(matches!(e.error, ErrorKind::Comp(CompErrs::ExpectedNoReturn)));
    assert_eq!(lv.stack_size(), ByteSize(0));
}

#[test]
fn function_returning_into_its_variable() {
    let t = table();
    let mut lv = LocalVariableTable::new();
    let mut tr = GlobalTracker::new();
    let ret = Some(AddressedTypeRef::new(LocalAddress(16), int_ref(0)));
    let lines = vec![LineTokens::Return { location: at(3), value: Some(int_lit(4)) }];
    let (code, returns) = recursively_compile_lines(FunctionID(5), &lines, &ret, &None, &mut lv, &t, &mut tr).ok().unwrap();
    assert!(returns);
    assert_eq!(code, "    mov rax, 4\n    mov qword [rbp+16], rax\n    leave\n    ret\n");
}

#[test]
fn whole_function() {
    let t = table();
    let mut tr = GlobalTracker::new();
    let params = vec![(String::from("a"), int_ref(0))];
    let lines = vec![LineTokens::Return { location: at(3), value: Some(name("a")) }];
    let text = compile_function(FunctionID(4), &params, Some(int_ref(0)), &lines, at(4), &t, &mut tr).ok().unwrap();
    assert_eq!(
        text,
        "_4:\n    push rbp\n    mov rbp, rsp\n    mov rax, qword [rbp+16]\n    mov qword [rbp+24], rax\n    leave\n    ret\n"
    );
    let missing = vec![LineTokens::NoOp(name("a"))];
    let e = compile_function(FunctionID(4), &params, Some(int_ref(0)), &missing, at(4), &t, &mut tr).err().unwrap();
    assert_eq!(e.location, at(4));
    assert!(matches!(e.error, ErrorKind::Comp(CompErrs::ExpectedReturn(ref n)) if n == "int"));
    let main = vec![
        LineTokens::Initialisation { name: String::from("r"), type_ref: int_ref(0), value: int_lit(0) },
        LineTokens::Return { location: at(6), value: Some(name("r")) },
    ];
    let text = compile_function(FunctionID(0), &[], Some(int_ref(0)), &main, at(7), &t, &mut tr).ok().unwrap();
    assert!(text.starts_with("main:\n    push rbp\n    mov rbp, rsp\n    mov rax, 0\n"));
    assert!(text.ends_with("    mov rax, qword [rbp-16]\n    leave\n    ret\n"));
}

#[test]
fn calling_a_function() {
    let t = table();
    let mut lv = with_x();
    let mut tr = GlobalTracker::new();
    let x = AddressedTypeRef::new(LocalAddress(-8), int_ref(0));
    let (code, ret) = call_function(FunctionID(3), &[x], Some(int_ref(0)), None, &t, &mut lv, &mut tr);
    assert_eq!(
        code,
        "    mov rax, qword [rbp-8]\n    mov qword [rbp-32], rax\n    sub rsp, 32\n    call _3\n    add rsp, 32\n"
    );
    assert_eq!(ret, Some(AddressedTypeRef::new(LocalAddress(-24), int_ref(0))));
    assert_eq!(lv.stack_size(), ByteSize(24));
    assert_eq!(tr.function_calls(), &vec![FunctionID(3)]);
}

#[test]
fn calling_a_function_without_a_value() {
    let t = table();
    let mut lv = LocalVariableTable::new();
    let mut tr = GlobalTracker::new();
    let (code, ret) = call_function(FunctionID(2), &[], None, None, &t, &mut lv, &mut tr);
    assert_eq!(code, "    sub rsp, 8\n    call _2\n    add rsp, 8\n");
    assert_eq!(ret, None);
    assert_eq!(lv.stack_size(), ByteSize(8));
}

#[test]
fn calling_into_a_given_place() {
    let t = table();
    let mut lv = with_x();
    let mut tr = GlobalTracker::new();
    let target = AddressedTypeRef::new(LocalAddress(-8), int_ref(0));
    let (code, ret) = call_function(FunctionID(1), &[], Some(int_ref(0)), Some(target), &t, &mut lv, &mut tr);
    assert_eq!(
        code,
        "    sub rsp, 24\n    call _1\n    add rsp, 24\n    mov rax, qword [rbp-24]\n    mov qword [rbp-8], rax\n"
    );
    assert_eq!(ret, Some(target));
}

#[test]
fn function_names_resolve() {
    let t = table();
    let (slot, id, n) = compile_evaluable_function_only(&name("exit"), &LocalVariableTable::new(), &t).ok().unwrap();
    assert_eq!(slot, None);
    assert_eq!(id, ExitFunction::id());
    assert_eq!(n, "exit");
    let e = compile_evaluable_function_only(&name("x"), &with_x(), &t).err().unwrap();
    assert_eq!(e.location, at(2));
    assert!(matches!(e.error, ErrorKind::Eval(EvalErrs::ExpectedFunctionName)));
    let e = compile_evaluable_function_only(&name("nope"), &with_x(), &t).err().unwrap();
    assert!(matches!(e.error, ErrorKind::Eval(EvalErrs::NameNotFound(ref n)) if n == "nope"));
    let e = compile_evaluable_function_only(&int_lit(1), &with_x(), &t).err().unwrap();
    assert_eq!(e.location, at(1));
    assert!(matches!(e.error, ErrorKind::Eval(EvalErrs::ExpectedFunctionName)));
}

#[test]
fn whole_program() {
    let t = table();
    let mut tr = GlobalTracker::new();
    assert_eq!(compile(&[], &t, &mut tr).ok().unwrap(), "    global main\n\nsection .text\n\n");
    let main = FunctionToken {
        id: FunctionID(0),
        parameters: vec![],
        return_type: Some(int_ref(0)),
        lines: vec![LineTokens::Return { location: at(2), value: Some(int_lit(7)) }],
        end_location: at(3),
    };
    let text = compile(&[main], &t, &mut tr).ok().unwrap();
    assert!(text.starts_with("    global main\n\nsection .text\n\nmain:\n    push rbp\n    mov rbp, rsp\n    mov rax, 7\n"));
    assert!(text.ends_with("    leave\n    ret\n\n\n"));
    let silent = FunctionToken {
        id: FunctionID(0),
        parameters: vec![],
        return_type: Some(int_ref(0)),
        lines: vec![LineTokens::NoOp(int_lit(1))],
        end_location: at(9),
    };
    let e = compile(&[silent], &t, &mut tr).err().unwrap();
    assert_eq!(e.location, at(9));
    assert!(matches!(e.error, ErrorKind::Comp(CompErrs::ExpectedReturn(ref n)) if n == "int"));
}

#[test]
fn new_slot_has_the_expression_type() {
    let t = table();
    let x = tok(3, EvaluableTokens::Reference(Box::new(name("x"))));
    let deref = tok(4, EvaluableTokens::Dereference(Box::new(tok(3, EvaluableTokens::Reference(Box::new(name("x")))))));
    for et in [int_lit(2), bool_lit(true), name("x"), x, deref] {
        let mut lv = with_x();
        let found = compile_evaluable_type_only(&et, &lv, &t).ok().unwrap();
        let (_, slot) = compile_evaluable_new(&et, &mut lv, &t).ok().unwrap();
        assert_eq!(slot.unwrap().type_ref(), &found);
    }
}

#[test]
fn calling_builtins_inline() {
    let t = table();
    let mut lv = with_x();
    let mut tr = GlobalTracker::new();
    let x = AddressedTypeRef::new(LocalAddress(-8), int_ref(0));
    let (code, ret) = call_inline_function(&ExitFunction, &[x], None, &t, &mut lv, &mut tr);
    assert_eq!(code, "    mov rax, 60\n    mov rdi, [rbp-8]\n    syscall\n");
    assert_eq!(ret, None);
    assert_eq!(lv.stack_size(), ByteSize(8));
    assert!(tr.function_calls().contains(&ExitFunction::id()));
    let (code, ret) = call_inline_function(&IntModulo, &[x, x], None, &t, &mut lv, &mut tr);
    assert_eq!(
        code,
        "    mov rax, qword [rbp-8]\n    mov rdx, 0\n    mov rbx, qword [rbp-8]\n    idiv rbx\n    mov qword [rbp-16], rdx\n"
    );
    assert_eq!(ret, Some(AddressedTypeRef::new(LocalAddress(-16), int_ref(0))));
    assert_eq!(lv.stack_size(), ByteSize(16));
    let into = AddressedTypeRef::new(LocalAddress(-8), int_ref(0));
    let (code, ret) = call_inline_function(&IntModulo, &[x, x], Some(into), &t, &mut lv, &mut tr);
    assert!(code.ends_with("    mov qword [rbp-8], rdx\n"));
    assert_eq!(ret, Some(into));
    assert_eq!(lv.stack_size(), ByteSize(16));
}

#[test]
fn if_elif_else_chain() {
    let t = table();
    let mut lv = LocalVariableTable::new();
    let mut tr = GlobalTracker::new();
    let lines = vec![LineTokens::If {
        condition: bool_lit(true),
        body: vec![ret_none(2)],
        elifs: vec![(bool_lit(false), vec![ret_none(3)])],
        else_body: Some(vec![ret_none(4)]),
    }];
    let (code, returns) = recursively_compile_lines(FunctionID(2), &lines, &None, &None, &mut lv, &t, &mut tr).ok().unwrap();
    assert!(returns);
    assert_eq!(
        code,
        "    mov byte [rbp-1], 1\n    cmp byte [rbp-1], 0\n    jz _2_1\n    leave\n    ret\n\
         \x20   jmp _2_0\n    _2_1:\n    mov byte [rbp-2], 0\n    cmp byte [rbp-2], 0\n    jz _2_2\n    leave\n    ret\n\
         \x20   jmp _2_0\n    _2_2:\n    leave\n    ret\n    _2_3:\n    _2_0:\n"
    );
    assert_eq!(tr.unique_tag_counter(), 4);
    assert_eq!(lv.stack_size(), ByteSize(0));
}

#[test]
fn elif_without_else_does_not_return() {
    let t = table();
    let mut lv = LocalVariableTable::new();
    let mut tr = GlobalTracker::new();
    let lines = vec![LineTokens::If {
        condition: bool_lit(true),
        body: vec![ret_none(2)],
        elifs: vec![(bool_lit(false), vec![ret_none(3)])],
        else_body: None,
    }];
    let (code, returns) = recursively_compile_lines(FunctionID(2), &lines, &None, &None, &mut lv, &t, &mut tr).ok().unwrap();
    assert!(!returns);
    assert!(code.ends_with("    jz _2_2\n    leave\n    ret\n    _2_2:\n    _2_0:\n"));
}

#[test]
fn returning_branch_or_loop_still_needs_a_return() {
    let t = table();
    let mut tr = GlobalTracker::new();
    let params = vec![(String::from("a"), int_ref(0))];
    let lines = vec![if_only(bool_lit(true), vec![LineTokens::Return { location: at(3), value: Some(name("a")) }])];
    let e = compile_function(FunctionID(4), &params, Some(int_ref(0)), &lines, at(9), &t, &mut tr).err().unwrap();
    assert_eq!(e.location, at(9));
    assert!(matches!(e.error, ErrorKind::Comp(CompErrs::ExpectedReturn(ref n)) if n == "int"));
    let looped = vec![LineTokens::While { condition: bool_lit(true), body: vec![LineTokens::Return { location: at(3), value: Some(name("a")) }] }];
    let e = compile_function(FunctionID(4), &params, Some(int_ref(0)), &looped, at(10), &t, &mut tr).err().unwrap();
    assert_eq!(e.location, at(10));
    let plain = vec![if_only(bool_lit(true), vec![ret_none(3)])];
    let mut fresh = GlobalTracker::new();
    let text = compile_function(FunctionID(5), &[], None, &plain, at(11), &t, &mut fresh).ok().unwrap();
    assert!(text.ends_with("    _5_1:\n    _5_0:\n\nleave\nret"));
}

#[test]
fn statements_after_a_return_are_still_compiled() {
    let t = table();
    let mut lv = LocalVariableTable::new();
    let mut tr = GlobalTracker::new();
    let lines = vec![ret_none(2), LineTokens::NoOp(name("zz"))];
    let e = recursively_compile_lines(FunctionID(3), &lines, &None, &None, &mut lv, &t, &mut tr).err().unwrap();
    assert!(matches!(e.error, ErrorKind::Eval(EvalErrs::NameNotFound(ref n)) if n == "zz"));
}

#[test]
fn names_of_functions_and_types_are_no_values() {
    let t = table();
    let lv = with_x();
    let e = compile_evaluable_type_only(&name("exit"), &lv, &t).err().unwrap();
    assert!(matches!(e.error, ErrorKind::Eval(EvalErrs::FunctionMustBeCalled(ref n)) if n == "exit"));
    let e = compile_evaluable_type_only(&name("int"), &lv, &t).err().unwrap();
    assert!(matches!(e.error, ErrorKind::Eval(EvalErrs::CannotEvalStandaloneType(ref n)) if n == "int"));
    let mut lv2 = with_x();
    let e = compile_evaluable_new(&name("bool"), &mut lv2, &t).err().unwrap();
    assert_eq!(e.location, at(2));
    assert!(matches!(e.error, ErrorKind::Eval(EvalErrs::CannotEvalStandaloneType(ref n)) if n == "bool"));
    let e = compile_evaluable_function_only(&name("int"), &lv, &t).err().unwrap();
    assert!(matches!(e.error, ErrorKind::Eval(EvalErrs::ExpectedFunctionName)));
}

#[test]
fn marker_is_left_as_a_comment() {
    let t = table();
    let mut lv = LocalVariableTable::new();
    let mut tr = GlobalTracker::new();
    let lines = vec![LineTokens::Marker(String::from("here"))];
    let (code, returns) = recursively_compile_lines(FunctionID(1), &lines, &None, &None, &mut lv, &t, &mut tr).ok().unwrap();
    assert_eq!(code, "    ;here\n");
    assert!(!returns);
}

#[test]
fn type_query_reports_the_type() {
    let t = table();
    let mut lv = with_x();
    let mut tr = GlobalTracker::new();
    let x_ref = tok(4, EvaluableTokens::Reference(Box::new(name("x"))));
    let lines = vec![
        LineTokens::Typequery { location: at(5), querying: x_ref },
        LineTokens::Typequery { location: at(6), querying: bool_lit(true) },
    ];
    let (code, returns) = recursively_compile_lines(FunctionID(1), &lines, &None, &None, &mut lv, &t, &mut tr).ok().unwrap();
    assert_eq!(code, "");
    assert!(!returns);
    let infos = tr.info_messages();
    assert_eq!(infos.len(), 2);
    assert_eq!(infos[0].0, "Type: &int");
    assert_eq!(infos[0].1, at(5));
    assert_eq!(infos[1].0, "Type: bool");
    let bad = vec![LineTokens::Typequery { location: at(7), querying: name("nope") }];
    let e = recursively_compile_lines(FunctionID(1), &bad, &None, &None, &mut lv, &t, &mut tr).err().unwrap();
    assert!(matches!(e.error, ErrorKind::Eval(EvalErrs::NameNotFound(ref n)) if n == "nope"));
}
