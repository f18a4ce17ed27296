//! The textual snapshot of the register file: four registers per line, each
//! with its index, its conventional name and its value in hexadecimal.

use vstd::prelude::*;
use crate::text::{digits, lemma_concat_assoc, push_digits};

verus! {

/// The conventional names of the registers, each four characters wide.
pub open spec fn register_names() -> Seq<Seq<char>> {
    seq![
        "zero"@,
        " ra "@,
        " sp "@,
        " gp "@,
        " tp "@,
        " t0 "@,
        " t1 "@,
        " t2 "@,
        " s0 "@,
        " s1 "@,
        " a0 "@,
        " a1 "@,
        " a2 "@,
        " a3 "@,
        " a4 "@,
        " a5 "@,
        " a6 "@,
        " a7 "@,
        " s2 "@,
        " s3 "@,
        " s4 "@,
        " s5 "@,
        " s6 "@,
        " s7 "@,
        " s8 "@,
        " s9 "@,
        " s10"@,
        " s11"@,
        " t3 "@,
        " t4 "@,
        " t5 "@,
        " t6 "@,
    ]
}

/// The entry of register `i`: `x`, the index in two decimal digits, the name
/// in parentheses, `=`, and the value as `0x` and 16 hexadecimal digits.
pub open spec fn entry_text(i: int, value: u64) -> Seq<char> {
    "x"@ + digits(i as nat, 10, 2) + "("@ + register_names()[i] + ")=0x"@ + digits(
        value as nat,
        16,
        16,
    )
}

/// Line `row` of the dump: the entries of registers `4 * row` to
/// `4 * row + 3`, separated by single spaces.
pub open spec fn row_text(regs: Seq<u64>, row: int) -> Seq<char> {
    entry_text(4 * row, regs[4 * row]) + " "@ + entry_text(4 * row + 1, regs[4 * row + 1]) + " "@
        + entry_text(4 * row + 2, regs[4 * row + 2]) + " "@ + entry_text(
        4 * row + 3,
        regs[4 * row + 3],
    )
}

/// The first `rows` lines of the dump, each preceded by a line feed.
pub open spec fn rows_text(regs: Seq<u64>, rows: nat) -> Seq<char>
    decreases rows,
{
    if rows == 0 {
        Seq::empty()
    } else {
        rows_text(regs, (rows - 1) as nat) + "\n"@ + row_text(regs, rows - 1)
    }
}

/// The dump of a register file of 32 registers: eight lines.
pub open spec fn dump_text(regs: Seq<u64>) -> Seq<char> {
    rows_text(regs, 8)
}

/// The conventional name of register `i`.
pub fn register_name(i: usize) -> (name: &'static str)
    requires
        i < 32,
    ensures
        name@ == register_names()[i as int],
{
    match i {
        0 => "zero",
        1 => " ra ",
        2 => " sp ",
        3 => " gp ",
        4 => " tp ",
        5 => " t0 ",
        6 => " t1 ",
        7 => " t2 ",
        8 => " s0 ",
        9 => " s1 ",
        10 => " a0 ",
        11 => " a1 ",
        12 => " a2 ",
        13 => " a3 ",
        14 => " a4 ",
        15 => " a5 ",
        16 => " a6 ",
        17 => " a7 ",
        18 => " s2 ",
        19 => " s3 ",
        20 => " s4 ",
        21 => " s5 ",
        22 => " s6 ",
        23 => " s7 ",
        24 => " s8 ",
        25 => " s9 ",
        26 => " s10",
        27 => " s11",
        28 => " t3 ",
        29 => " t4 ",
        30 => " t5 ",
        _ => " t6 ",
    }
}

/// Appends the entry of register `i`.
fn push_entry(out: &mut String, i: usize, value: u64)
    requires
        i < 32,
    ensures
        final(out)@ == old(out)@ + entry_text(i as int, value),
{
    let ghost base = out@;
    let ghost index = digits(i as nat, 10, 2);
    let ghost name = register_names()[i as int];
    let ghost hex = digits(value as nat, 16, 16);
    out.append("x");
    push_digits(out, i as u64, 10, 2);
    proof {
        lemma_concat_assoc(base, "x"@, index);
    }
    out.append("(");
    proof {
        lemma_concat_assoc(base, "x"@ + index, "("@);
    }
    out.append(register_name(i));
    proof {
        lemma_concat_assoc(base, "x"@ + index + "("@, name);
    }
    out.append(")=0x");
    proof {
        lemma_concat_assoc(base, "x"@ + index + "("@ + name, ")=0x"@);
    }
    push_digits(out, value, 16, 16);
    proof {
        lemma_concat_assoc(base, "x"@ + index + "("@ + name + ")=0x"@, hex);
    }
}

/// Appends a line feed and line `row` of the dump.
fn push_row(out: &mut String, regs: &[u64; 32], row: usize)
    requires
        row < 8,
    ensures
        final(out)@ == old(out)@ + "\n"@ + row_text(regs@, row as int),
{
    let ghost e0 = entry_text(4 * row, regs@[4 * row]);
    let ghost e1 = entry_text(4 * row + 1, regs@[4 * row + 1]);
    let ghost e2 = entry_text(4 * row + 2, regs@[4 * row + 2]);
    let ghost e3 = entry_text(4 * row + 3, regs@[4 * row + 3]);
    out.append("\n");
    let ghost base = out@;
    push_entry(out, 4 * row, regs[4 * row]);
    out.append(" ");
    proof {
        lemma_concat_assoc(base, e0, " "@);
    }
    push_entry(out, 4 * row + 1, regs[4 * row + 1]);
    proof {
        lemma_concat_assoc(base, e0 + " "@, e1);
    }
    out.append(" ");
    proof {
        lemma_concat_assoc(base, e0 + " "@ + e1, " "@);
    }
    push_entry(out, 4 * row + 2, regs[4 * row + 2]);
    proof {
        lemma_concat_assoc(base, e0 + " "@ + e1 + " "@, e2);
    }
    out.append(" ");
    proof {
        lemma_concat_assoc(base, e0 + " "@ + e1 + " "@ + e2, " "@);
    }
    push_entry(out, 4 * row + 3, regs[4 * row + 3]);
    proof {
        lemma_concat_assoc(base, e0 + " "@ + e1 + " "@ + e2 + " "@, e3);
    }
}

/// Renders the 32 registers as text, four per line.
pub fn render_registers(regs: &[u64; 32]) -> (text: String)
    ensures
        text@ == dump_text(regs@),
{
    let mut text = String::new();
    let mut row: usize = 0;
    while row < 8
        invariant
            row <= 8,
            text@ == rows_text(regs@, row as nat),
        decreases 8 - row,
    {
        push_row(&mut text, regs, row);
        row = row + 1;
    }
    text
}

} // verus!
