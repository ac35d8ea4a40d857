use whython::builtin::register_builtin;
use whython::builtin::types::boolean::BoolType;
use whython::builtin::types::integer::IntType;
use whython::common::{AddressedTypeRef, ByteSize, FunctionID, Indirection, LocalAddress, TypeRef};
use whython::compiler::global_table::GlobalTable;
use whython::compiler::global_tracker::GlobalTracker;
use whython::compiler::local_variable::{LocalVariable, TypeInfo};
use whython::compiler::local_variable_table::LocalVariableTable;
use whython::errors::Location;

fn int_at(address: isize) -> AddressedTypeRef {
    AddressedTypeRef::new(LocalAddress(address), TypeRef::new(IntType::id(), 1, Indirection(0)))
}

#[test]
fn unnamed_slots_grow_the_stack_downwards() {
    let mut t = LocalVariableTable::new();
    assert_eq!(t.stack_size(), ByteSize(0));
    assert_eq!(t.add_new_unnamed(ByteSize(8)), LocalAddress(-8));
    assert_eq!(t.add_new_unnamed(ByteSize(16)), LocalAddress(-24));
    assert_eq!(t.stack_size(), ByteSize(24));
}

#[test]
fn get_finds_added_variable() {
    let mut t = LocalVariableTable::default();
    t.add_existing(String::from("x"), int_at(-8));
    assert_eq!(t.get("x"), Some(int_at(-8)));
    assert_eq!(t.get("y"), None);
    t.add_existing(String::from("x"), int_at(-16));
    assert_eq!(t.get("x"), Some(int_at(-16)));
}

#[test]
fn scopes_shadow_and_restore() {
    let mut t = LocalVariableTable::new();
    t.add_new_unnamed(ByteSize(8));
    t.add_existing(String::from("x"), int_at(-8));
    t.enter_scope();
    assert_eq!(t.stack_size(), ByteSize(8));
    assert_eq!(t.get("x"), Some(int_at(-8)));
    assert_eq!(t.add_new_unnamed(ByteSize(8)), LocalAddress(-16));
    t.add_existing(String::from("x"), int_at(-16));
    t.add_existing(String::from("z"), int_at(-16));
    assert_eq!(t.get("x"), Some(int_at(-16)));
    t.leave_scope();
    assert_eq!(t.stack_size(), ByteSize(8));
    assert_eq!(t.get("x"), Some(int_at(-8)));
    assert_eq!(t.get("z"), None);
}

#[test]
fn unique_tags_are_never_repeated() {
    let mut g = GlobalTracker::new();
    assert_eq!(g.get_unique_tag(FunctionID(3)), "_3_0");
    assert_eq!(g.get_unique_tag(FunctionID(-5)), "__5_1");
    assert_eq!(g.get_unique_tag(FunctionID(0)), "main_2");
    assert_eq!(g.unique_tag_counter(), 3);
    let mut seen: Vec<String> = Vec::new();
    for _ in 0..50 {
        let t = g.get_unique_tag(FunctionID(1));
        assert!(!seen.contains(&t));
        seen.push(t);
    }
}

#[test]
fn readonly_data_is_stored_once() {
    let mut g = GlobalTracker::new();
    g.add_readonly_data("a", "a db 1");
    g.add_readonly_data("b", "b db 2");
    g.add_readonly_data("a", "a db 3");
    assert_eq!(g.readonly_data_section(), "\n    a db 1\n    b db 2");
}

#[test]
fn function_calls_are_a_set() {
    let mut g = GlobalTracker::new();
    g.store_function_call(FunctionID(2));
    g.store_function_call(FunctionID(-4));
    g.store_function_call(FunctionID(2));
    assert_eq!(g.function_calls(), &vec![FunctionID(2), FunctionID(-4)]);
    g.reset_functions();
    assert!(g.function_calls().is_empty());
}

#[test]
fn messages_are_kept_in_order() {
    let mut g = GlobalTracker::new();
    let here = Location { file_id: Some(1), line: 4, offset: 2 };
    g.push_info_message(String::from("first"), here);
    g.push_warn_message(String::from("careful"), Location::builtin());
    g.push_info_message(String::from("second"), here);
    assert_eq!(g.info_messages().len(), 2);
    assert_eq!(g.info_messages()[1].0, "second");
    assert_eq!(g.warn_messages()[0].0, "careful");
    assert_eq!(g.warn_messages()[0].1, Location::builtin());
}

#[test]
fn builtin_types_have_sizes_and_names() {
    let mut table = GlobalTable::new();
    register_builtin(&mut table);
    let int = TypeRef::new(IntType::id(), 1, Indirection(0));
    let boolean = TypeRef::new(BoolType::id(), 1, Indirection(0));
    assert_eq!(table.get_size(&int), ByteSize(8));
    assert_eq!(table.get_size(&boolean), ByteSize(1));
    assert_eq!(table.get_size(&TypeRef::new(BoolType::id(), 1, Indirection(2))), ByteSize(8));
    assert_eq!(table.get_type_name(&int), "int");
    assert_eq!(table.get_type_name(&TypeRef::new(BoolType::id(), 1, Indirection(2))), "&&bool");
}

#[test]
fn unnamed_local_of_a_type() {
    let mut table = GlobalTable::new();
    register_builtin(&mut table);
    let mut locals = LocalVariableTable::new();
    let boolean = TypeRef::new(BoolType::id(), 1, Indirection(0));
    let r = table.add_local_variable_unnamed(boolean, &mut locals);
    assert_eq!(r, AddressedTypeRef::new(LocalAddress(-1), boolean));
    let p = table.add_local_variable_unnamed(boolean.plus_one_indirect(), &mut locals);
    assert_eq!(*p.local_address(), LocalAddress(-9));
    assert_eq!(locals.stack_size(), ByteSize(9));
}

#[test]
fn local_variable_records() {
    let info = TypeInfo::new(-1, 2);
    let v = LocalVariable::from_type_info(-8, info);
    assert_eq!(v, LocalVariable::new(-8, -1, 2));
}
