//! Stack alignment and memory copies.

use vstd::prelude::*;
use vstd::string::StringExecFns;
use crate::assembler::{indented_line, Assembly, AssemblyBuilder};
use crate::common::{address_text, ByteSize, LocalAddress};
use crate::text::{append_int, append_nat, int_text, nat_text};

verus! {

/// The least multiple of 16 not below `b`.
pub open spec fn aligned_16(b: nat) -> nat {
    if b % 16 == 0 {
        b
    } else {
        (b + (16 - b % 16)) as nat
    }
}

/// The least number not below `b` that is 8 more than a multiple of 16.
pub open spec fn aligned_16_plus_8(b: nat) -> nat {
    if b % 16 <= 8 {
        (b + (8 - b % 16)) as nat
    } else {
        (b + (24 - b % 16)) as nat
    }
}

/// Align a number of bytes to the next multiple of 16.
pub fn align_16_bytes(bytes: ByteSize) -> (r: ByteSize)
    requires
        bytes.0 + 15 <= usize::MAX,
    ensures
        r.0 == aligned_16(bytes.0 as nat),
        r.0 % 16 == 0,
        bytes.0 <= r.0 < bytes.0 + 16,
{
    let bytes = bytes.0;
    if bytes % 16 == 0 {
        ByteSize(bytes)
    } else {
        ByteSize(bytes + (16 - (bytes % 16)))
    }
}

/// Align a number of bytes to the next multiple of 16 plus 8.
pub fn align_16_bytes_plus_8(bytes: ByteSize) -> (r: ByteSize)
    requires
        bytes.0 + 15 <= usize::MAX,
    ensures
        r.0 == aligned_16_plus_8(bytes.0 as nat),
        r.0 % 16 == 8,
        bytes.0 <= r.0 < bytes.0 + 16,
{
    let bytes = bytes.0;
    let rem = bytes % 16;
    if rem == 8 {
        ByteSize(bytes)
    } else if rem < 8 {
        ByteSize(bytes + (8 - rem))
    } else {
        ByteSize(bytes + (24 - rem))
    }
}

/// Aligning to 16 bytes gives the least multiple of 16 not below the size, and an
/// aligned size stays as it is.
pub proof fn aligned_16_is_least(b: nat, m: nat)
    ensures
        aligned_16(b) % 16 == 0,
        b <= aligned_16(b),
        m % 16 == 0 && b <= m ==> aligned_16(b) <= m,
        aligned_16(aligned_16(b)) == aligned_16(b),
{
}

/// Aligning to 16 bytes plus 8 gives the least size not below the given one that is
/// 8 more than a multiple of 16, and such a size stays as it is.
pub proof fn aligned_16_plus_8_is_least(b: nat, m: nat)
    ensures
        aligned_16_plus_8(b) % 16 == 8,
        b <= aligned_16_plus_8(b),
        m % 16 == 8 && b <= m ==> aligned_16_plus_8(b) <= m,
        aligned_16_plus_8(aligned_16_plus_8(b)) == aligned_16_plus_8(b),
{
}

/// Number of bytes the moves of `copy_moves(.., written, amount)` transfer.
pub open spec fn copied_bytes(written: nat, amount: nat) -> nat
    decreases amount - written,
{
    if written >= amount {
        0
    } else {
        let width = chunk_width((amount - written) as nat);
        width + copied_bytes(written + width, amount)
    }
}

/// A copy transfers exactly the bytes asked for: each move is no wider than what is left,
/// so the moves of a copy of `amount` bytes add up to `amount`.
pub proof fn copy_moves_transfer_amount(written: nat, amount: nat)
    requires
        written <= amount,
    ensures
        copied_bytes(written, amount) == amount - written,
    decreases amount - written,
{
    if written < amount {
        let width = chunk_width((amount - written) as nat);
        assert(1 <= width <= amount - written);
        copy_moves_transfer_amount(written + width, amount);
    }
}

/// The text storing the 64-bit integer `value` at `location`.
pub open spec fn write_int_text(value: int, location: LocalAddress) -> Seq<char> {
    "    mov rax, "@ + int_text(value) + "\n    mov qword "@ + address_text(location) + ", rax\n"@
}

/// Stores a 64-bit integer at `location`, going through `rax` so that any value fits.
pub fn write_64bit_int(value: i64, location: &LocalAddress) -> (a: Assembly)
    ensures
        a@ == write_int_text(value as int, *location),
{
    let mut s = String::new();
    s.append("    mov rax, ");
    append_int(&mut s, value as i128);
    s.append("\n    mov qword ");
    location.append_text(&mut s);
    s.append(", rax\n");
    proof {
        assert(s@ =~= write_int_text(value as int, *location));
    }
    s
}

/// Width in bytes of the next move when `remaining` bytes are left to copy.
pub open spec fn chunk_width(remaining: nat) -> nat {
    if remaining >= 8 {
        8
    } else if remaining >= 4 {
        4
    } else if remaining >= 2 {
        2
    } else {
        1
    }
}

/// The register used for a move of `width` bytes.
pub open spec fn chunk_register(width: nat) -> Seq<char> {
    if width == 8 {
        "rax"@
    } else if width == 4 {
        "eax"@
    } else if width == 2 {
        "ax"@
    } else {
        "al"@
    }
}

/// The operand size keyword for a move of `width` bytes.
pub open spec fn chunk_word(width: nat) -> Seq<char> {
    if width == 8 {
        "qword"@
    } else if width == 4 {
        "dword"@
    } else if width == 2 {
        "word"@
    } else {
        "byte"@
    }
}

/// The two lines moving `width` bytes from `src` through the register into `dst`.
pub open spec fn move_lines(src: Seq<char>, dst: Seq<char>, width: nat) -> Seq<char> {
    indented_line("mov "@ + chunk_register(width) + ", "@ + chunk_word(width) + " "@ + src)
        + indented_line("mov "@ + chunk_word(width) + " "@ + dst + ", "@ + chunk_register(width))
}

/// Memory operand at offset `written` from the pointer held in `rdx`.
pub open spec fn rdx_operand(written: nat) -> Seq<char> {
    "[rdx+"@ + nat_text(written) + "]"@
}

/// Memory operand of the stack slot at `base + offset`.
pub open spec fn stack_operand(base: LocalAddress, offset: nat) -> Seq<char> {
    address_text(LocalAddress((base.0 + offset) as isize))
}

/// Which side of a copy goes through a pointer held in `rdx`.
pub enum CopyMode {
    /// Both sides are stack slots.
    Direct,
    /// The source is reached through a pointer stored at `from`.
    FromIndirect,
    /// The target is reached through a pointer stored at `to`.
    ToIndirect,
}

/// Where the bytes at offset `written` are read from.
pub open spec fn copy_source(mode: CopyMode, from: LocalAddress, written: nat) -> Seq<char> {
    match mode {
        CopyMode::FromIndirect => rdx_operand(written),
        _ => stack_operand(from, written),
    }
}

/// Where the bytes at offset `written` are written to.
pub open spec fn copy_target(mode: CopyMode, to: LocalAddress, written: nat) -> Seq<char> {
    match mode {
        CopyMode::ToIndirect => rdx_operand(written),
        _ => stack_operand(to, written),
    }
}

/// The moves that copy bytes `written..amount`, largest chunk first.
pub open spec fn copy_moves(
    mode: CopyMode,
    from: LocalAddress,
    to: LocalAddress,
    written: nat,
    amount: nat,
) -> Seq<char>
    decreases amount - written,
{
    if written >= amount {
        Seq::empty()
    } else {
        let width = chunk_width((amount - written) as nat);
        move_lines(copy_source(mode, from, written), copy_target(mode, to, written), width)
            + copy_moves(mode, from, to, written + width, amount)
    }
}

/// The whole text of a copy of `amount` bytes.
pub open spec fn copy_text(mode: CopyMode, from: LocalAddress, to: LocalAddress, amount: nat) -> Seq<
    char,
> {
    if amount == 0 {
        Seq::empty()
    } else {
        match mode {
            CopyMode::Direct => copy_moves(mode, from, to, 0, amount),
            CopyMode::FromIndirect => indented_line("mov rdx, qword "@ + address_text(from))
                + copy_moves(mode, from, to, 0, amount),
            CopyMode::ToIndirect => indented_line("mov rdx, qword "@ + address_text(to))
                + copy_moves(mode, from, to, 0, amount),
        }
    }
}

/// Every stack slot `base + i` for `i < amount` is a valid address.
pub open spec fn copy_in_range(base: LocalAddress, amount: ByteSize) -> bool {
    amount.0 == 0 || (amount.0 - 1 <= isize::MAX && base.0 + amount.0 - 1 <= isize::MAX)
}

/// Width, register and operand keyword of the next move.
fn next_chunk(remaining: usize) -> (r: (usize, &'static str, &'static str))
    requires
        remaining > 0,
    ensures
        r.0 == chunk_width(remaining as nat),
        r.1@ == chunk_register(r.0 as nat),
        r.2@ == chunk_word(r.0 as nat),
{
    if remaining >= 8 {
        (8, "rax", "qword")
    } else if remaining >= 4 {
        (4, "eax", "dword")
    } else if remaining >= 2 {
        (2, "ax", "word")
    } else {
        (1, "al", "byte")
    }
}

/// Appends the operand `[rdx+written]`.
fn append_rdx_operand(out: &mut String, written: usize)
    ensures
        final(out)@ == old(out)@ + rdx_operand(written as nat),
{
    out.append("[rdx+");
    append_nat(out, written as u128);
    out.append("]");
    proof {
        assert(old(out)@ + "[rdx+"@ + nat_text(written as nat) + "]"@ =~= old(out)@ + rdx_operand(
            written as nat,
        ));
    }
}

/// Appends the operand of the stack slot `base + offset`.
fn append_stack_operand(out: &mut String, base: LocalAddress, offset: usize)
    requires
        offset <= isize::MAX,
        base.0 + offset <= isize::MAX,
    ensures
        final(out)@ == old(out)@ + stack_operand(base, offset as nat),
{
    let a = LocalAddress(base.0 + offset as isize);
    a.append_text(out);
}

/// Appends the two lines that move one chunk at offset `written`.
fn append_move(
    output: &mut AssemblyBuilder,
    mode: &CopyMode,
    from: LocalAddress,
    to: LocalAddress,
    written: usize,
    reg: &str,
    word: &str,
)
    requires
        !(*mode is FromIndirect) ==> written <= isize::MAX && from.0 + written <= isize::MAX,
        !(*mode is ToIndirect) ==> written <= isize::MAX && to.0 + written <= isize::MAX,
    ensures
        final(output)@ == old(output)@ + indented_line(
            "mov "@ + reg@ + ", "@ + word@ + " "@ + copy_source(*mode, from, written as nat),
        ) + indented_line(
            "mov "@ + word@ + " "@ + copy_target(*mode, to, written as nat) + ", "@ + reg@,
        ),
{
    let mut l1 = String::new();
    l1.append("mov ");
    l1.append(reg);
    l1.append(", ");
    l1.append(word);
    l1.append(" ");
    match mode {
        CopyMode::FromIndirect => append_rdx_operand(&mut l1, written),
        _ => append_stack_operand(&mut l1, from, written),
    }
    let mut l2 = String::new();
    l2.append("mov ");
    l2.append(word);
    l2.append(" ");
    match mode {
        CopyMode::ToIndirect => append_rdx_operand(&mut l2, written),
        _ => append_stack_operand(&mut l2, to, written),
    }
    l2.append(", ");
    l2.append(reg);
    proof {
        assert(l1@ =~= "mov "@ + reg@ + ", "@ + word@ + " "@ + copy_source(*mode, from, written as nat));
        assert(l2@ =~= "mov "@ + word@ + " "@ + copy_target(*mode, to, written as nat) + ", "@ + reg@);
    }
    output.line(l1.as_str());
    output.line(l2.as_str());
}

/// Appends the moves that copy `amount` bytes in the given mode.
fn append_copy_moves(
    output: &mut AssemblyBuilder,
    mode: CopyMode,
    from: LocalAddress,
    to: LocalAddress,
    amount: ByteSize,
)
    requires
        !(mode is FromIndirect) ==> copy_in_range(from, amount),
        !(mode is ToIndirect) ==> copy_in_range(to, amount),
    ensures
        final(output)@ == old(output)@ + copy_moves(mode, from, to, 0, amount.0 as nat),
{
    let ghost head = output@;
    let mut written: usize = 0;
    proof {
        assert(head + copy_moves(mode, from, to, 0, amount.0 as nat) =~= output@ + copy_moves(
            mode,
            from,
            to,
            written as nat,
            amount.0 as nat,
        ));
    }
    while written < amount.0
        invariant
            written <= amount.0,
            !(mode is FromIndirect) ==> copy_in_range(from, amount),
            !(mode is ToIndirect) ==> copy_in_range(to, amount),
            output@ + copy_moves(mode, from, to, written as nat, amount.0 as nat) == head
                + copy_moves(mode, from, to, 0, amount.0 as nat),
        decreases amount.0 - written,
    {
        let (width, reg, word) = next_chunk(amount.0 - written);
        let ghost before = output@;
        append_move(output, &mode, from, to, written, reg, word);
        proof {
            let ml = move_lines(
                copy_source(mode, from, written as nat),
                copy_target(mode, to, written as nat),
                width as nat,
            );
            let rest = copy_moves(mode, from, to, (written + width) as nat, amount.0 as nat);
            assert(output@ == before + ml);
            assert(copy_moves(mode, from, to, written as nat, amount.0 as nat) == ml + rest);
            assert((before + ml) + rest =~= before + (ml + rest));
        }
        written = written + width;
    }
    proof {
        assert(copy_moves(mode, from, to, written as nat, amount.0 as nat) =~= Seq::<char>::empty());
        assert(output@ + Seq::<char>::empty() =~= output@);
    }
}

/// Generates the copy of `amount` bytes in the given mode.
fn copy_with_mode(mode: CopyMode, from: LocalAddress, to: LocalAddress, amount: ByteSize) -> (a:
    Assembly)
    requires
        !(mode is FromIndirect) ==> copy_in_range(from, amount),
        !(mode is ToIndirect) ==> copy_in_range(to, amount),
    ensures
        a@ == copy_text(mode, from, to, amount.0 as nat),
{
    if amount.0 == 0 {
        return String::new();
    }
    let mut output = AssemblyBuilder::new();
    match mode {
        CopyMode::FromIndirect => {
            let mut l = String::new();
            l.append("mov rdx, qword ");
            from.append_text(&mut l);
            output.line(l.as_str());
        },
        CopyMode::ToIndirect => {
            let mut l = String::new();
            l.append("mov rdx, qword ");
            to.append_text(&mut l);
            output.line(l.as_str());
        },
        CopyMode::Direct => {},
    }
    append_copy_moves(&mut output, mode, from, to, amount);
    proof {
        assert(output@ =~= copy_text(mode, from, to, amount.0 as nat));
    }
    output.finish()
}

/// `n` lines that each follow the pointer held in `rdx` once more.
pub open spec fn deref_lines(n: nat) -> Seq<char>
    decreases n,
{
    if n == 0 {
        Seq::empty()
    } else {
        deref_lines((n - 1) as nat) + indented_line("mov rdx, qword [rdx]"@)
    }
}

/// The whole text of a copy of `amount` bytes reached through `levels` pointers from `from`.
pub open spec fn copy_through_text(from: LocalAddress, to: LocalAddress, amount: nat, levels: nat) -> Seq<
    char,
> {
    if amount == 0 {
        Seq::empty()
    } else {
        indented_line("mov rdx, qword "@ + address_text(from)) + deref_lines((levels - 1) as nat)
            + copy_moves(CopyMode::FromIndirect, from, to, 0, amount)
    }
}

/// Copies data reached through `levels` pointers: `from` holds a pointer, which is followed
/// `levels` times, and the data found there is copied to `to`.
pub fn copy_from_indirect_levels(
    from: LocalAddress,
    to: LocalAddress,
    amount: ByteSize,
    levels: usize,
) -> (a: Assembly)
    requires
        levels >= 1,
        copy_in_range(to, amount),
    ensures
        a@ == copy_through_text(from, to, amount.0 as nat, levels as nat),
        levels == 1 ==> a@ == copy_text(CopyMode::FromIndirect, from, to, amount.0 as nat),
{
    if amount.0 == 0 {
        return String::new();
    }
    let mut output = AssemblyBuilder::new();
    let mut l = String::new();
    l.append("mov rdx, qword ");
    from.append_text(&mut l);
    output.line(l.as_str());
    let ghost head = output@;
    let mut k: usize = 1;
    while k < levels
        invariant
            1 <= k <= levels,
            output@ == head + deref_lines((k - 1) as nat),
        decreases levels - k,
    {
        output.line("mov rdx, qword [rdx]");
        proof {
            assert(head + deref_lines((k - 1) as nat) + indented_line("mov rdx, qword [rdx]"@)
                =~= head + deref_lines(k as nat));
        }
        k = k + 1;
    }
    append_copy_moves(&mut output, CopyMode::FromIndirect, from, to, amount);
    proof {
        assert(output@ =~= copy_through_text(from, to, amount.0 as nat, levels as nat));
        if levels == 1 {
            assert(deref_lines(0) =~= Seq::<char>::empty());
            assert(output@ =~= copy_text(CopyMode::FromIndirect, from, to, amount.0 as nat));
        }
    }
    output.finish()
}

/// Copies data. Expects `from` to be the address of a pointer pointing to the data to move
/// and `to` to be the target.
pub fn copy_from_indirect(from: LocalAddress, to: LocalAddress, amount: ByteSize) -> (a: Assembly)
    requires
        copy_in_range(to, amount),
    ensures
        a@ == copy_text(CopyMode::FromIndirect, from, to, amount.0 as nat),
{
    copy_with_mode(CopyMode::FromIndirect, from, to, amount)
}

/// Copies data. Expects `from` to be the address of the data to move
/// and `to` to be a pointer to the target.
pub fn copy_to_indirect(from: LocalAddress, to: LocalAddress, amount: ByteSize) -> (a: Assembly)
    requires
        copy_in_range(from, amount),
    ensures
        a@ == copy_text(CopyMode::ToIndirect, from, to, amount.0 as nat),
{
    copy_with_mode(CopyMode::ToIndirect, from, to, amount)
}

/// Copies data. Expects `from` to be the address of the data to move
/// and `to` to be the target.
pub fn copy(from: LocalAddress, to: LocalAddress, amount: ByteSize) -> (a: Assembly)
    requires
        copy_in_range(from, amount),
        copy_in_range(to, amount),
    ensures
        a@ == copy_text(CopyMode::Direct, from, to, amount.0 as nat),
{
    copy_with_mode(CopyMode::Direct, from, to, amount)
}

/// The moves of a copy of bytes `written..amount` in chunks, largest first: `chunk(k, w)`
/// for the chunk of width `w` at offset `k`, in order of offset.
pub open spec fn chunked(chunk: spec_fn(nat, nat) -> Seq<char>, written: nat, amount: nat) -> Seq<char>
    decreases amount - written,
{
    if written >= amount {
        Seq::empty()
    } else {
        let width = chunk_width((amount - written) as nat);
        chunk(written, width) + chunked(chunk, written + width, amount)
    }
}

/// Every chunk of a copy reads and writes at the same offset: for a copy between stack
/// slots the chunk at offset `k` moves `[from + k]` to `[to + k]`; through a source
/// pointer it moves `[rdx + k]` to `[to + k]`; to a target pointer it moves `[from + k]` to
/// `[rdx + k]`. So source byte `k` lands at target byte `k` for every `k` below the amount.
pub proof fn copies_keep_offsets(from: LocalAddress, to: LocalAddress, written: nat, amount: nat)
    ensures
        copy_moves(CopyMode::Direct, from, to, written, amount) == chunked(
            |k: nat, w: nat| move_lines(address_text(LocalAddress((from.0 + k) as isize)), address_text(LocalAddress((to.0 + k) as isize)), w),
            written,
            amount,
        ),
        copy_moves(CopyMode::FromIndirect, from, to, written, amount) == chunked(
            |k: nat, w: nat| move_lines("[rdx+"@ + nat_text(k) + "]"@, address_text(LocalAddress((to.0 + k) as isize)), w),
            written,
            amount,
        ),
        copy_moves(CopyMode::ToIndirect, from, to, written, amount) == chunked(
            |k: nat, w: nat| move_lines(address_text(LocalAddress((from.0 + k) as isize)), "[rdx+"@ + nat_text(k) + "]"@, w),
            written,
            amount,
        ),
    decreases amount - written,
{
    if written < amount {
        let width = chunk_width((amount - written) as nat);
        copies_keep_offsets(from, to, written + width, amount);
    }
}

/// A copy to a pointer target first loads the pointer stored at `to` into `rdx`, then
/// writes every chunk at its own offset from it; a copy from a pointer source loads the
/// pointer stored at `from` and reads every chunk at its own offset from it; a copy between
/// stack slots needs no pointer. A copy of nothing is no code.
pub proof fn copy_to_pointer_writes_each_byte_in_place(from: LocalAddress, to: LocalAddress, amount: nat)
    ensures
        amount > 0 ==> copy_text(CopyMode::ToIndirect, from, to, amount) == indented_line("mov rdx, qword "@ + address_text(to))
            + chunked(
            |k: nat, w: nat| move_lines(address_text(LocalAddress((from.0 + k) as isize)), "[rdx+"@ + nat_text(k) + "]"@, w),
            0,
            amount,
        ),
        amount > 0 ==> copy_text(CopyMode::FromIndirect, from, to, amount) == indented_line("mov rdx, qword "@ + address_text(from))
            + chunked(
            |k: nat, w: nat| move_lines("[rdx+"@ + nat_text(k) + "]"@, address_text(LocalAddress((to.0 + k) as isize)), w),
            0,
            amount,
        ),
        copy_text(CopyMode::Direct, from, to, amount) == chunked(
            |k: nat, w: nat| move_lines(address_text(LocalAddress((from.0 + k) as isize)), address_text(LocalAddress((to.0 + k) as isize)), w),
            0,
            amount,
        ),
        amount == 0 ==> copy_text(CopyMode::ToIndirect, from, to, amount).len() == 0
            && copy_text(CopyMode::FromIndirect, from, to, amount).len() == 0,
{
    copies_keep_offsets(from, to, 0, amount);
}

} // verus!
