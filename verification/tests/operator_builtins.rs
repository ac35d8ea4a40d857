use whython::builtin::basic_int::sub::IntSub;
use whython::builtin::basic_int::IntType as BasicIntType;
use whython::builtin::types::boolean::and::BoolAssignAnd;
use whython::builtin::types::boolean::comparators::{BoolEqual, BoolNotEqual};
use whython::builtin::types::boolean::or::{BoolAssignOr, BoolOr};
use whython::builtin::types::boolean::BoolType;
use whython::builtin::types::integer::comparators::{
    IntEqual, IntGreaterThan, IntGreaterThanEqual, IntLessThan, IntLessThanEqual, IntNotEqual,
};
use whython::builtin::types::integer::div::{IntAsDiv, IntDiv};
use whython::builtin::types::integer::eq::IntEq;
use whython::builtin::types::integer::modulo::IntAssignModulo;
use whython::builtin::types::integer::p_add::IntPAdd;
use whython::builtin::types::integer::p_sub::IntPSub;
use whython::builtin::types::integer::prefix_addition::IntPrefixAddition;
use whython::builtin::types::integer::prefix_subtract::IntPrefixSubtract;
use whython::builtin::types::integer::printi::PrintI;
use whython::builtin::types::integer::IntType;
use whython::builtin::{BuiltinInlineFunction, Type};
use whython::common::{ByteSize, LocalAddress, TypeID};
use whython::compiler::global_tracker::GlobalTracker;
use whython::errors::{LiteralToken, LiteralTokens, Location};

const L: LocalAddress = LocalAddress(-8);
const R: LocalAddress = LocalAddress(-16);
const OUT: LocalAddress = LocalAddress(-17);

fn binary<F: BuiltinInlineFunction>(f: &F, gt: &mut GlobalTracker) -> String {
    f.inline(&[L, R], Some(OUT), gt, ByteSize(24))
}

fn comparison(first: &str, second: &str, jump: &str, tag: &str) -> String {
    format!(
        "    mov rax, qword {first}\n    cmp rax, qword {second}\n    {jump} {tag}_0\n    mov byte [rbp-17], 0\n\
         \x20   jmp {tag}_1\n    {tag}_0:\n    mov byte [rbp-17], 1\n    {tag}_1:\n"
    )
}

#[test]
fn int_comparisons() {
    let mut gt = GlobalTracker::new();
    assert_eq!(binary(&IntEqual, &mut gt), comparison("[rbp-8]", "[rbp-16]", "jz", "__17"));
    let mut gt = GlobalTracker::new();
    assert_eq!(binary(&IntNotEqual, &mut gt), comparison("[rbp-8]", "[rbp-16]", "jnz", "__18"));
    let mut gt = GlobalTracker::new();
    assert_eq!(binary(&IntGreaterThan, &mut gt), comparison("[rbp-8]", "[rbp-16]", "jg", "__19"));
    let mut gt = GlobalTracker::new();
    assert_eq!(binary(&IntLessThan, &mut gt), comparison("[rbp-16]", "[rbp-8]", "jg", "__20"));
    let mut gt = GlobalTracker::new();
    assert_eq!(binary(&IntGreaterThanEqual, &mut gt), comparison("[rbp-8]", "[rbp-16]", "jge", "__21"));
    let mut gt = GlobalTracker::new();
    assert_eq!(binary(&IntLessThanEqual, &mut gt), comparison("[rbp-16]", "[rbp-8]", "jge", "__22"));
    let mut gt = GlobalTracker::new();
    assert_eq!(binary(&IntEq, &mut gt), comparison("[rbp-8]", "[rbp-16]", "jz", "__27"));
    assert_eq!(gt.unique_tag_counter(), 2);
}

#[test]
fn comparison_names() {
    assert_eq!(IntEqual.name(), "eq");
    assert_eq!(IntNotEqual.name(), "ne");
    assert_eq!(IntGreaterThan.name(), "gt");
    assert_eq!(IntLessThan.name(), "lt");
    assert_eq!(IntGreaterThanEqual.name(), "ge");
    assert_eq!(IntLessThanEqual.name(), "le");
    assert_eq!(IntLessThan.parent_type(), Some(IntType::id()));
    assert_eq!(IntLessThan.signature().return_type().unwrap().type_id, BoolType::id());
}

#[test]
fn int_division() {
    let mut gt = GlobalTracker::new();
    assert_eq!(
        binary(&IntDiv, &mut gt),
        "    mov rax, qword [rbp-8]\n    mov rdx, 0\n    mov rbx, qword [rbp-16]\n    idiv rbx\n    mov qword [rbp-17], rax\n"
    );
    assert_eq!(
        IntAsDiv.inline(&[L, R], None, &mut gt, ByteSize(24)),
        "    mov rcx, qword [rbp-8]\n    mov rax, qword [rcx]\n    mov rdx, 0\n    mov rbx, qword [rbp-16]\n\
         \x20   idiv rbx\n    mov qword [rcx], rax\n"
    );
    assert_eq!(
        IntAssignModulo.inline(&[L, R], None, &mut gt, ByteSize(24)),
        "    mov rcx, qword [rbp-8]\n    mov rax, qword [rcx]\n    mov rdx, 0\n    mov rbx, qword [rbp-16]\n\
         \x20   idiv rbx\n    mov qword [rcx], rdx\n"
    );
    assert_eq!(IntDiv.name(), "div");
    assert_eq!(IntAsDiv.name(), "as_div");
}

#[test]
fn int_prefix_operators() {
    let mut gt = GlobalTracker::new();
    assert_eq!(IntPrefixAddition.inline(&[L], Some(OUT), &mut gt, ByteSize(0)), "");
    assert_eq!(IntPAdd.inline(&[L], Some(OUT), &mut gt, ByteSize(0)), "");
    assert_eq!(
        IntPrefixSubtract.inline(&[L], Some(R), &mut gt, ByteSize(0)),
        "    mov rax, qword [rbp-8]\n    neg rax\n    mov qword [rbp-16], rax\n"
    );
    assert_eq!(
        IntPSub.inline(&[L], Some(R), &mut gt, ByteSize(0)),
        "    mov rax, qword [rbp-8]\n    neg rax\n    mov qword [rbp-16], rax"
    );
    assert_eq!(IntPrefixSubtract.name(), "p_sub");
    assert_eq!(IntPrefixAddition.name(), "p_add");
}

#[test]
fn print_i_uses_its_own_format() {
    let mut gt = GlobalTracker::new();
    assert_eq!(
        PrintI.inline(&[L], None, &mut gt, ByteSize(8)),
        "    mov rdi, __30_fstr\n    mov rsi, [rbp-8]\n    mov al, 0\n    sub rsp, 8\n\
         \x20   extern printf\n    call printf\n    add rsp, 8\n"
    );
    assert_eq!(gt.readonly_data_section(), "\n    __30_fstr db `Integer: %ld\\n`,0");
}

#[test]
fn bool_or() {
    let mut gt = GlobalTracker::new();
    assert_eq!(
        binary(&BoolOr, &mut gt),
        "    mov al, byte [rbp-8]\n    or al, byte [rbp-16]\n    mov byte [rbp-17], al\n"
    );
    assert_eq!(
        BoolAssignOr.inline(&[L, R], None, &mut gt, ByteSize(0)),
        "    mov rdx, qword [rbp-8]\n    mov al, byte [rdx]\n    or al, byte [rbp-16]\n    mov byte [rdx], al\n"
    );
    assert_eq!(BoolAssignOr.name(), "as_or");
}

#[test]
fn bool_assign_and() {
    let mut gt = GlobalTracker::new();
    assert_eq!(
        BoolAssignAnd.inline(&[L, R], None, &mut gt, ByteSize(0)),
        "    mov al, byte [rbp-16]\n    cmp al, 0\n    jnz __5_0\n    mov rax, qword [rbp-8]\n\
         \x20   mov byte [rax], 0\n    __5_0:\n"
    );
    assert_eq!(gt.unique_tag_counter(), 1);
}

#[test]
fn bool_equality() {
    let mut gt = GlobalTracker::new();
    assert_eq!(
        binary(&BoolEqual, &mut gt),
        "    cmp byte [rbp-8], 0\n    jz __6_0\n    mov al, byte [rbp-16]\n    mov byte [rbp-17], al\n\
         \x20   jmp __6_2\n    __6_0:\n    cmp byte [rbp-16], 0\n    jnz __6_1\n    mov byte [rbp-17], 1\n\
         \x20   jmp __6_2\n    __6_1:\n    mov byte [rbp-17], 0\n    __6_2:\n"
    );
    let mut gt = GlobalTracker::new();
    assert_eq!(
        binary(&BoolNotEqual, &mut gt),
        "    cmp byte [rbp-8], 0\n    jnz __7_1\n    mov al, byte [rbp-16]\n    mov byte [rbp-17], al\n\
         \x20   jmp __7_2\n    __7_1:\n    cmp byte [rbp-16], 0\n    jnz __7_0\n    mov byte [rbp-17], 1\n\
         \x20   jmp __7_2\n    __7_0:\n    mov byte [rbp-17], 0\n    __7_2:\n"
    );
    assert_eq!(gt.unique_tag_counter(), 3);
}

#[test]
fn bool_literals() {
    let at = &LocalAddress(-1);
    let lit = |l: LiteralTokens| LiteralToken::new(Location::builtin(), l);
    assert_eq!(BoolType.instantiate_from_literal(at, &lit(LiteralTokens::Bool(true))).ok().unwrap(), "    mov byte [rbp-1], 1\n");
    assert_eq!(BoolType.instantiate_from_literal(at, &lit(LiteralTokens::Bool(false))).ok().unwrap(), "    mov byte [rbp-1], 0\n");
    assert_eq!(BoolType.instantiate_from_literal(at, &lit(LiteralTokens::Int(0))).ok().unwrap(), "    mov byte [rbp-1], 0\n");
    assert_eq!(BoolType.instantiate_from_literal(at, &lit(LiteralTokens::Int(-3))).ok().unwrap(), "    mov byte [rbp-1], 1\n");
}

#[test]
fn basic_int_type() {
    let lit = |l: LiteralTokens| LiteralToken::new(Location::builtin(), l);
    assert_eq!(BasicIntType::id(), TypeID(-31));
    assert_eq!(BasicIntType.size(), ByteSize(8));
    assert_eq!(
        BasicIntType.instantiate_from_literal(&L, &lit(LiteralTokens::Int(-12))).ok().unwrap(),
        "    mov qword [rbp-8], -12"
    );
    assert_eq!(
        BasicIntType.instantiate_from_literal(&L, &lit(LiteralTokens::Bool(true))).ok().unwrap(),
        "    mov qword [rbp-8], 0"
    );
    let mut gt = GlobalTracker::new();
    assert_eq!(
        binary(&IntSub, &mut gt),
        "    mov rax, qword [rbp-8]\n    sub rax, qword [rbp-16]\n    mov qword [rbp-17], rax"
    );
    assert_eq!(IntSub.parent_type(), Some(TypeID(-31)));
}
