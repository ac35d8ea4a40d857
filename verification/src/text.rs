//! Decimal and hexadecimal rendering of integers as assembly text.

use vstd::prelude::*;
use vstd::string::{StrSliceExecFns, StringExecFns};

verus! {

/// The text of one decimal digit.
pub open spec fn digit_text(d: int) -> Seq<char> {
    if d == 0 {
        "0"@
    } else if d == 1 {
        "1"@
    } else if d == 2 {
        "2"@
    } else if d == 3 {
        "3"@
    } else if d == 4 {
        "4"@
    } else if d == 5 {
        "5"@
    } else if d == 6 {
        "6"@
    } else if d == 7 {
        "7"@
    } else if d == 8 {
        "8"@
    } else {
        "9"@
    }
}

/// Decimal text of a natural number, without leading zeros.
pub open spec fn nat_text(n: nat) -> Seq<char>
    decreases n,
{
    if n < 10 {
        digit_text(n as int)
    } else {
        nat_text(n / 10) + digit_text((n % 10) as int)
    }
}

/// Decimal text of an integer, with a leading `-` when negative.
pub open spec fn int_text(i: int) -> Seq<char> {
    if i < 0 {
        "-"@ + nat_text((-i) as nat)
    } else {
        nat_text(i as nat)
    }
}

/// Every digit's text is one character, never `_`, and different digits have
/// different characters.
proof fn lemma_digit_texts()
    ensures
        forall|d: int| 0 <= d < 10 ==> #[trigger] digit_text(d).len() == 1 && digit_text(d)[0] != '_',
        forall|d: int, e: int|
            0 <= d < 10 && 0 <= e < 10 && #[trigger] digit_text(d)[0] == #[trigger] digit_text(e)[0]
                ==> d == e,
{
    reveal_strlit("0");
    reveal_strlit("1");
    reveal_strlit("2");
    reveal_strlit("3");
    reveal_strlit("4");
    reveal_strlit("5");
    reveal_strlit("6");
    reveal_strlit("7");
    reveal_strlit("8");
    reveal_strlit("9");
}

/// The decimal text of a number is never empty, is one character exactly for numbers
/// below ten, and holds no `_`.
pub proof fn lemma_nat_text_shape(n: nat)
    ensures
        nat_text(n).len() >= 1,
        (nat_text(n).len() == 1) == (n < 10),
        forall|i: int| 0 <= i < nat_text(n).len() ==> nat_text(n)[i] != '_',
    decreases n,
{
    lemma_digit_texts();
    if n >= 10 {
        lemma_nat_text_shape(n / 10);
        let d = digit_text((n % 10) as int);
        assert(d.len() == 1);
        assert forall|i: int| 0 <= i < nat_text(n).len() implies nat_text(n)[i] != '_' by {
            if i < nat_text(n / 10).len() {
                assert(nat_text(n)[i] == nat_text(n / 10)[i]);
            } else {
                assert(nat_text(n)[i] == d[0]);
            }
        }
    } else {
        assert(digit_text(n as int).len() == 1);
    }
}

/// Different numbers have different decimal texts.
pub proof fn lemma_nat_text_injective(a: nat, b: nat)
    requires
        nat_text(a) == nat_text(b),
    ensures
        a == b,
    decreases a,
{
    lemma_digit_texts();
    lemma_nat_text_shape(a);
    lemma_nat_text_shape(b);
    if a < 10 && b < 10 {
        assert(digit_text(a as int)[0] == digit_text(b as int)[0]);
    } else if a >= 10 && b >= 10 {
        let ta = nat_text(a);
        let n = ta.len();
        let pa = nat_text(a / 10);
        let pb = nat_text(b / 10);
        let da = digit_text((a % 10) as int);
        let db = digit_text((b % 10) as int);
        assert(da.len() == 1 && db.len() == 1);
        assert(ta == pa + da);
        assert(ta == pb + db);
        assert(ta[n - 1] == da[0]);
        assert(ta[n - 1] == db[0]);
        assert(pa =~= ta.subrange(0, n - 1));
        assert(pb =~= ta.subrange(0, n - 1));
        lemma_nat_text_injective(a / 10, b / 10);
    }
}

/// Appends the digit `d` (below 10).
fn append_digit(out: &mut String, d: u128)
    requires
        d < 10,
    ensures
        final(out)@ == old(out)@ + digit_text(d as int),
{
    if d == 0 {
        out.append("0");
    } else if d == 1 {
        out.append("1");
    } else if d == 2 {
        out.append("2");
    } else if d == 3 {
        out.append("3");
    } else if d == 4 {
        out.append("4");
    } else if d == 5 {
        out.append("5");
    } else if d == 6 {
        out.append("6");
    } else if d == 7 {
        out.append("7");
    } else if d == 8 {
        out.append("8");
    } else {
        out.append("9");
    }
}

/// Appends the decimal text of `n`.
pub fn append_nat(out: &mut String, n: u128)
    ensures
        final(out)@ == old(out)@ + nat_text(n as nat),
    decreases n,
{
    if n < 10 {
        append_digit(out, n);
    } else {
        append_nat(out, n / 10);
        append_digit(out, n % 10);
        proof {
            assert(old(out)@ + nat_text((n / 10) as nat) + digit_text((n % 10) as int)
                =~= old(out)@ + nat_text(n as nat));
        }
    }
}

/// Appends the decimal text of `i`, with a leading `-` when negative.
pub fn append_int(out: &mut String, i: i128)
    ensures
        final(out)@ == old(out)@ + int_text(i as int),
{
    if i < 0 {
        out.append("-");
        let magnitude: u128 = if i == i128::MIN {
            0x8000_0000_0000_0000_0000_0000_0000_0000u128
        } else {
            (-i) as u128
        };
        append_nat(out, magnitude);
        proof {
            assert(old(out)@ + "-"@ + nat_text((-i) as nat) =~= old(out)@ + int_text(i as int));
        }
    } else {
        append_nat(out, i as u128);
    }
}

/// Decimal text of a natural number as a new string.
pub fn nat_string(n: u128) -> (s: String)
    ensures
        s@ == nat_text(n as nat),
{
    let mut s = String::new();
    append_nat(&mut s, n);
    proof {
        assert(Seq::<char>::empty() + nat_text(n as nat) =~= nat_text(n as nat));
    }
    s
}

/// Decimal text of an integer as a new string.
pub fn int_string(i: i128) -> (s: String)
    ensures
        s@ == int_text(i as int),
{
    let mut s = String::new();
    append_int(&mut s, i);
    proof {
        assert(Seq::<char>::empty() + int_text(i as int) =~= int_text(i as int));
    }
    s
}

/// The text of one lowercase hexadecimal digit.
pub open spec fn hex_digit_text(d: int) -> Seq<char> {
    if d < 10 {
        digit_text(d)
    } else if d == 10 {
        "a"@
    } else if d == 11 {
        "b"@
    } else if d == 12 {
        "c"@
    } else if d == 13 {
        "d"@
    } else if d == 14 {
        "e"@
    } else {
        "f"@
    }
}

/// The lowest `width` hexadecimal digits of `v`, most significant first, zero-padded.
pub open spec fn hex_text(v: nat, width: nat) -> Seq<char>
    decreases width,
{
    if width == 0 {
        Seq::empty()
    } else {
        hex_text(v / 16, (width - 1) as nat) + hex_digit_text((v % 16) as int)
    }
}

/// Appends the hexadecimal digit `d` (below 16).
fn append_hex_digit(out: &mut String, d: u64)
    requires
        d < 16,
    ensures
        final(out)@ == old(out)@ + hex_digit_text(d as int),
{
    if d < 10 {
        append_digit(out, d as u128);
    } else if d == 10 {
        out.append("a");
    } else if d == 11 {
        out.append("b");
    } else if d == 12 {
        out.append("c");
    } else if d == 13 {
        out.append("d");
    } else if d == 14 {
        out.append("e");
    } else {
        out.append("f");
    }
}

/// Appends the lowest `width` hexadecimal digits of `v`, zero-padded.
pub fn append_hex(out: &mut String, v: u64, width: u64)
    ensures
        final(out)@ == old(out)@ + hex_text(v as nat, width as nat),
    decreases width,
{
    if width == 0 {
        proof {
            assert(old(out)@ + hex_text(v as nat, 0) =~= old(out)@);
        }
    } else {
        append_hex(out, v / 16, width - 1);
        append_hex_digit(out, v % 16);
        proof {
            assert(old(out)@ + hex_text((v / 16) as nat, (width - 1) as nat) + hex_digit_text(
                (v % 16) as int,
            ) =~= old(out)@ + hex_text(v as nat, width as nat));
        }
    }
}

/// Whether two strings hold the same characters.
pub fn str_equal(a: &str, b: &str) -> (r: bool)
    ensures
        r == (a@ == b@),
{
    let n = a.unicode_len();
    if n != b.unicode_len() {
        return false;
    }
    let mut i: usize = 0;
    while i < n
        invariant
            n == a@.len(),
            n == b@.len(),
            i <= n,
            forall|j: int| 0 <= j < i ==> a@[j] == b@[j],
        decreases n - i,
    {
        if a.get_char(i) != b.get_char(i) {
            return false;
        }
        i = i + 1;
    }
    proof {
        assert(a@ =~= b@);
    }
    true
}

} // verus!
