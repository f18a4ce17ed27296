//! Numbers as text: digits in bases up to 16, with a fixed width or without
//! leading zeros.

use vstd::prelude::*;

verus! {

/// The character of one digit in bases up to 16.
pub open spec fn digit_char(d: int) -> char {
    if d == 0 {
        '0'
    } else if d == 1 {
        '1'
    } else if d == 2 {
        '2'
    } else if d == 3 {
        '3'
    } else if d == 4 {
        '4'
    } else if d == 5 {
        '5'
    } else if d == 6 {
        '6'
    } else if d == 7 {
        '7'
    } else if d == 8 {
        '8'
    } else if d == 9 {
        '9'
    } else if d == 10 {
        'a'
    } else if d == 11 {
        'b'
    } else if d == 12 {
        'c'
    } else if d == 13 {
        'd'
    } else if d == 14 {
        'e'
    } else {
        'f'
    }
}

/// The `width` least significant digits of `v` in base `base`, most
/// significant first, with leading zeros.
pub open spec fn digits(v: nat, base: nat, width: nat) -> Seq<char>
    decreases width,
{
    if width == 0 {
        Seq::empty()
    } else {
        digits(v / base, base, (width - 1) as nat).push(digit_char((v % base) as int))
    }
}

/// `v` in hexadecimal without leading zeros; `0` for 0.
pub open spec fn hex_text(v: nat) -> Seq<char>
    decreases v,
{
    if v < 16 {
        seq![digit_char(v as int)]
    } else {
        hex_text(v / 16).push(digit_char((v % 16) as int))
    }
}

/// The text of one digit.
fn digit_str(d: u64) -> (s: &'static str)
    requires
        d < 16,
    ensures
        s@ == seq![digit_char(d as int)],
{
    proof {
        reveal_strlit("0");
        reveal_strlit("1");
        reveal_strlit("2");
        reveal_strlit("3");
        reveal_strlit("4");
        reveal_strlit("5");
        reveal_strlit("6");
        reveal_strlit("7");
        reveal_strlit("8");
        reveal_strlit("9");
        reveal_strlit("a");
        reveal_strlit("b");
        reveal_strlit("c");
        reveal_strlit("d");
        reveal_strlit("e");
        reveal_strlit("f");
    }
    let s = match d {
        0 => "0",
        1 => "1",
        2 => "2",
        3 => "3",
        4 => "4",
        5 => "5",
        6 => "6",
        7 => "7",
        8 => "8",
        9 => "9",
        10 => "a",
        11 => "b",
        12 => "c",
        13 => "d",
        14 => "e",
        _ => "f",
    };
    assert(s@ =~= seq![digit_char(d as int)]);
    s
}

/// Appends the `width` least significant digits of `v` in base `base`.
pub(crate) fn push_digits(out: &mut String, v: u64, base: u64, width: usize)
    requires
        2 <= base <= 16,
    ensures
        final(out)@ == old(out)@ + digits(v as nat, base as nat, width as nat),
    decreases width,
{
    if width > 0 {
        push_digits(out, v / base, base, width - 1);
        out.append(digit_str(v % base));
        assert(out@ =~= old(out)@ + digits(v as nat, base as nat, width as nat));
    } else {
        assert(out@ =~= old(out)@ + digits(v as nat, base as nat, width as nat));
    }
}

/// Concatenation is associative.
pub(crate) proof fn lemma_concat_assoc(a: Seq<char>, b: Seq<char>, c: Seq<char>)
    ensures
        (a + b) + c == a + (b + c),
{
    assert((a + b) + c =~= a + (b + c));
}

/// Appends `v` in hexadecimal without leading zeros.
pub(crate) fn push_hex(out: &mut String, v: u64)
    ensures
        final(out)@ == old(out)@ + hex_text(v as nat),
    decreases v,
{
    if v >= 16 {
        push_hex(out, v / 16);
    }
    out.append(digit_str(v % 16));
    assert(out@ =~= old(out)@ + hex_text(v as nat));
}

} // verus!
