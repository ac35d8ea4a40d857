use whython::builtin::register_builtin;
use whython::builtin::types::boolean::BoolType;
use whython::builtin::types::integer::IntType;
use whython::common::{AddressedTypeRef, FunctionID, Indirection, LocalAddress, TypeRef};
use whython::compiler::compile::CompileQueue;
use whython::compiler::compile_function::{finish_function, place_parameters, return_type_of};
use whython::compiler::global_table::GlobalTable;
use whython::compiler::local_variable_table::LocalVariableTable;
use whython::errors::{CompErrs, ErrorKind, Location};

fn calls_of(f: FunctionID) -> Vec<FunctionID> {
    match f.0 {
        0 => vec![FunctionID(1), FunctionID(2), FunctionID(-5)],
        1 => vec![FunctionID(2), FunctionID(1), FunctionID(0)],
        2 => vec![FunctionID(3)],
        _ => vec![],
    }
}

#[test]
fn every_called_function_is_compiled_once() {
    let mut q = CompileQueue::new();
    let mut handed: Vec<FunctionID> = Vec::new();
    while let Some(f) = q.next_function() {
        handed.push(f);
        if f.0 < 0 {
            continue;
        }
        q.function_compiled(f, format!("{}:", f.string_id()), &calls_of(f));
    }
    let (done, total) = q.progress();
    assert_eq!(done, handed.len());
    assert_eq!(total, handed.len());
    let mut compiled: Vec<isize> = handed.iter().filter(|f| f.0 >= 0).map(|f| f.0).collect();
    compiled.sort();
    assert_eq!(compiled, vec![0, 1, 2, 3]);
    assert!(handed.contains(&FunctionID(-5)));
    let text = q.program_assembly("");
    assert!(text.starts_with("    global main\n\nsection .text\n\nmain:\n\n"));
    for label in ["main:\n\n", "_1:\n\n", "_2:\n\n", "_3:\n\n"] {
        assert_eq!(text.matches(label).count(), 1);
    }
    assert!(!text.contains("section .data_readonly"));
}

#[test]
fn program_with_data() {
    let mut q = CompileQueue::new();
    let f = q.next_function().unwrap();
    assert_eq!(f, FunctionID(0));
    q.function_compiled(f, String::from("main:\n    ret"), &[]);
    assert_eq!(q.next_function(), None);
    assert_eq!(
        q.program_assembly("\n    a db 1"),
        "    global main\n\nsection .text\n\nmain:\n    ret\n\nsection .data_readonly\n    a db 1"
    );
}

#[test]
fn progress_counts_waiting_functions() {
    let mut q = CompileQueue::new();
    assert_eq!(q.progress(), (0, 1));
    let f = q.next_function().unwrap();
    q.function_compiled(f, String::new(), &[FunctionID(4), FunctionID(5), FunctionID(4)]);
    assert_eq!(q.progress(), (1, 3));
}

fn table() -> GlobalTable {
    let mut t = GlobalTable::new();
    register_builtin(&mut t);
    t
}

#[test]
fn parameters_lie_above_the_frame() {
    let t = table();
    let mut locals = LocalVariableTable::new();
    let int = TypeRef::new(IntType::id(), 1, Indirection(0));
    let boolean = TypeRef::new(BoolType::id(), 1, Indirection(0));
    let params = vec![(String::from("a"), int), (String::from("b"), boolean), (String::from("c"), int)];
    let ret = place_parameters(&params, Some(boolean), &t, &mut locals);
    assert_eq!(locals.get("a"), Some(AddressedTypeRef::new(LocalAddress(16), int)));
    assert_eq!(locals.get("b"), Some(AddressedTypeRef::new(LocalAddress(24), boolean)));
    assert_eq!(locals.get("c"), Some(AddressedTypeRef::new(LocalAddress(25), int)));
    assert_eq!(ret, Some(AddressedTypeRef::new(LocalAddress(33), boolean)));
    assert_eq!(place_parameters(&[], None, &t, &mut locals), None);
}

#[test]
fn main_returns_nothing_to_its_caller() {
    let int = TypeRef::new(IntType::id(), 1, Indirection(0));
    assert_eq!(return_type_of(FunctionID(0), Some(int)), None);
    assert_eq!(return_type_of(FunctionID(2), Some(int)), Some(int));
}

#[test]
fn function_frame() {
    let t = table();
    assert_eq!(
        finish_function(FunctionID(3), None, "    mov rax, 1", false, Location::builtin(), &t).ok().unwrap(),
        "_3:\n    push rbp\n    mov rbp, rsp\n    mov rax, 1\nleave\nret"
    );
    let ret = AddressedTypeRef::new(LocalAddress(16), TypeRef::new(IntType::id(), 1, Indirection(0)));
    assert_eq!(
        finish_function(FunctionID(0), Some(ret), "    leave\n    ret", true, Location::builtin(), &t).ok().unwrap(),
        "main:\n    push rbp\n    mov rbp, rsp\n    leave\n    ret"
    );
}

#[test]
fn missing_return_is_refused() {
    let t = table();
    let end = Location { file_id: Some(2), line: 9, offset: 0 };
    let e = finish_function(FunctionID(0), None, "", false, end, &t).err().unwrap();
    assert_eq!(e.location, end);
    assert!(matches!(e.error, ErrorKind::Comp(CompErrs::ExpectedReturn(ref n)) if n == "int"));
    let ret = AddressedTypeRef::new(LocalAddress(16), TypeRef::new(BoolType::id(), 1, Indirection(1)));
    let e = finish_function(FunctionID(7), Some(ret), "", false, end, &t).err().unwrap();
    assert!(matches!(e.error, ErrorKind::Comp(CompErrs::ExpectedReturn(ref n)) if n == "&bool"));
}
