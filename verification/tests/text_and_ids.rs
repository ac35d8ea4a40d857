use whython::builtin::{f_id, t_id};
use whython::common::{ByteSize, FunctionID, Indirection, LocalAddress, TypeID, TypeRef};
use whython::text::{append_hex, int_string, nat_string, str_equal};

#[test]
fn decimal_text_of_naturals() {
    assert_eq!(nat_string(0), "0");
    assert_eq!(nat_string(7), "7");
    assert_eq!(nat_string(1234567), "1234567");
    assert_eq!(nat_string(u128::MAX), "340282366920938463463374607431768211455");
}

#[test]
fn decimal_text_of_integers() {
    assert_eq!(int_string(-42), "-42");
    assert_eq!(int_string(0), "0");
    assert_eq!(int_string(9223372036854775807), "9223372036854775807");
    assert_eq!(int_string(i128::MIN), "-170141183460469231731687303715884105728");
}

#[test]
fn hexadecimal_text_is_zero_padded() {
    let mut s = String::from("0x");
    append_hex(&mut s, 255, 4);
    assert_eq!(s, "0x00ff");
    let mut t = String::new();
    append_hex(&mut t, 0xFFFF_FFFF_FFFF_FFF8, 16);
    assert_eq!(t, "fffffffffffffff8");
    let mut u = String::new();
    append_hex(&mut u, 0xabc, 0);
    assert_eq!(u, "");
}

#[test]
fn string_equality() {
    assert!(str_equal("rax", "rax"));
    assert!(!str_equal("rax", "rbx"));
    assert!(!str_equal("rax", "ra"));
    assert!(str_equal("", ""));
}

#[test]
fn stack_address_operands() {
    assert_eq!(LocalAddress(-16).text(), "[rbp-16]");
    assert_eq!(LocalAddress(8).text(), "[rbp+8]");
    assert_eq!(LocalAddress(0).text(), "[rbp+0]");
    let mut s = String::from("size ");
    ByteSize(24).append_text(&mut s);
    assert_eq!(s, "size 24");
}

#[test]
fn function_labels() {
    assert_eq!(FunctionID::main_function().string_id(), "main");
    assert!(FunctionID(0).is_main());
    assert!(!FunctionID(3).is_main());
    assert_eq!(FunctionID(5).string_id(), "_5");
    assert_eq!(FunctionID(-3).string_id(), "__3");
    assert_ne!(FunctionID(1).string_id(), FunctionID(-1).string_id());
}

#[test]
fn builtin_ids_are_negative_and_distinct() {
    assert_eq!(f_id(0), FunctionID(-1));
    assert_eq!(f_id(4), FunctionID(-5));
    assert_eq!(t_id(0), TypeID(-1));
    assert_eq!(t_id(u16::MAX), TypeID(-65536));
    assert_ne!(f_id(7), f_id(8));
    assert!(f_id(0).0 < 0);
}

#[test]
fn type_ref_indirection() {
    let t = TypeRef::new(TypeID(-1), 1, Indirection(0));
    assert!(!t.indirection().has_indirection());
    let p = t.plus_one_indirect();
    assert_eq!(p.indirection().0, 1);
    assert_eq!(*p.type_id(), TypeID(-1));
    assert_eq!(p.minus_one_indirect(), t);
    assert_eq!(TypeID(-2).immediate_single(), TypeRef::new(TypeID(-2), 1, Indirection(0)));
    assert_eq!(TypeID(-2).with_indirection_single(3).indirection().0, 3);
    assert_eq!(t.element_count(), 1);
}
