use whython::assembler::AssemblyBuilder;
use whython::common::{ByteSize, LocalAddress};
use whython::compiler::assembly::utils::{
    align_16_bytes, align_16_bytes_plus_8, copy, copy_from_indirect, copy_from_indirect_levels,
    copy_to_indirect, write_64bit_int,
};

#[test]
fn builder_lines() {
    let mut b = AssemblyBuilder::new();
    b.line("mov rax, 1");
    b.toplevel("main:");
    b.other("    ret\n");
    assert_eq!(b.finish(), "    mov rax, 1\nmain:\n    ret\n");
    assert_eq!(AssemblyBuilder::default().finish(), "");
}

#[test]
fn align_to_16() {
    assert_eq!(align_16_bytes(ByteSize(0)), ByteSize(0));
    assert_eq!(align_16_bytes(ByteSize(1)), ByteSize(16));
    assert_eq!(align_16_bytes(ByteSize(16)), ByteSize(16));
    assert_eq!(align_16_bytes(ByteSize(17)), ByteSize(32));
    let once = align_16_bytes(ByteSize(45));
    assert_eq!(align_16_bytes(once), once);
}

#[test]
fn align_to_16_plus_8() {
    assert_eq!(align_16_bytes_plus_8(ByteSize(0)), ByteSize(8));
    assert_eq!(align_16_bytes_plus_8(ByteSize(8)), ByteSize(8));
    assert_eq!(align_16_bytes_plus_8(ByteSize(9)), ByteSize(24));
    assert_eq!(align_16_bytes_plus_8(ByteSize(16)), ByteSize(24));
    assert_eq!(align_16_bytes_plus_8(ByteSize(25)), ByteSize(40));
    let once = align_16_bytes_plus_8(ByteSize(33));
    assert_eq!(align_16_bytes_plus_8(once), once);
}

#[test]
fn write_int_goes_through_rax() {
    assert_eq!(
        write_64bit_int(-5, &LocalAddress(-8)),
        "    mov rax, -5\n    mov qword [rbp-8], rax\n"
    );
    assert_eq!(
        write_64bit_int(i64::MAX, &LocalAddress(16)),
        "    mov rax, 9223372036854775807\n    mov qword [rbp+16], rax\n"
    );
}

#[test]
fn copy_uses_largest_chunks_first() {
    assert_eq!(
        copy(LocalAddress(-16), LocalAddress(-32), ByteSize(15)),
        "    mov rax, qword [rbp-16]\n    mov qword [rbp-32], rax\n\
         \x20   mov eax, dword [rbp-8]\n    mov dword [rbp-24], eax\n\
         \x20   mov ax, word [rbp-4]\n    mov word [rbp-20], ax\n\
         \x20   mov al, byte [rbp-2]\n    mov byte [rbp-18], al\n"
    );
}

#[test]
fn copy_of_nothing_is_empty() {
    assert_eq!(copy(LocalAddress(-16), LocalAddress(-32), ByteSize(0)), "");
    assert_eq!(copy_from_indirect(LocalAddress(-16), LocalAddress(-32), ByteSize(0)), "");
    assert_eq!(copy_to_indirect(LocalAddress(-16), LocalAddress(-32), ByteSize(0)), "");
}

#[test]
fn copy_from_pointer() {
    assert_eq!(
        copy_from_indirect(LocalAddress(-8), LocalAddress(-24), ByteSize(8)),
        "    mov rdx, qword [rbp-8]\n    mov rax, qword [rdx+0]\n    mov qword [rbp-24], rax\n"
    );
    assert_eq!(
        copy_from_indirect(LocalAddress(-8), LocalAddress(-24), ByteSize(10)),
        "    mov rdx, qword [rbp-8]\n    mov rax, qword [rdx+0]\n    mov qword [rbp-24], rax\n\
         \x20   mov ax, word [rdx+8]\n    mov word [rbp-16], ax\n"
    );
}

#[test]
fn copy_to_pointer() {
    assert_eq!(
        copy_to_indirect(LocalAddress(-24), LocalAddress(-8), ByteSize(1)),
        "    mov rdx, qword [rbp-8]\n    mov al, byte [rbp-24]\n    mov byte [rdx+0], al\n"
    );
}

#[test]
fn copy_through_several_pointers() {
    assert_eq!(
        copy_from_indirect_levels(LocalAddress(-8), LocalAddress(-24), ByteSize(8), 3),
        "    mov rdx, qword [rbp-8]\n    mov rdx, qword [rdx]\n    mov rdx, qword [rdx]\n\
         \x20   mov rax, qword [rdx+0]\n    mov qword [rbp-24], rax\n"
    );
    assert_eq!(
        copy_from_indirect_levels(LocalAddress(-8), LocalAddress(-24), ByteSize(4), 1),
        copy_from_indirect(LocalAddress(-8), LocalAddress(-24), ByteSize(4))
    );
}
