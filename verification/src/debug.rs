//! The text that a host shows when it runs the machine step by step.

use vstd::prelude::*;
use vstd::string::*;

use crate::text::{decimal, hex_padded, push_decimal, push_hex};
use crate::NUM_REGISTERS;

verus! {

/// A mnemonic with a register and a number: `LD V3, 0x00ff`.
pub open spec fn register_number_text(mnemonic: Seq<char>, x: nat, v: nat) -> Seq<char> {
    mnemonic + " V"@ + decimal(x) + ", 0x"@ + hex_padded(v, 4)
}

/// A mnemonic with two registers: `OR V3, V4`.
pub open spec fn register_pair_text(mnemonic: Seq<char>, x: nat, y: nat) -> Seq<char> {
    mnemonic + " V"@ + decimal(x) + ", V"@ + decimal(y)
}

/// A mnemonic with a number: `JMP 0x0200`.
pub open spec fn number_text(mnemonic: Seq<char>, v: nat) -> Seq<char> {
    mnemonic + " 0x"@ + hex_padded(v, 4)
}

/// The assembly text of an instruction, given by its fields; empty for an
/// instruction that has no text.
pub open spec fn instr_text(code: u16, x: usize, y: usize, n: u16, nn: u16, nnn: u16) -> Seq<
    char,
> {
    if code == 0x0000 {
        "CLS"@
    } else if code == 0x1000 {
        number_text("JMP"@, nnn as nat)
    } else if code == 0x6000 {
        register_number_text("LD"@, x as nat, nn as nat)
    } else if code == 0x7000 {
        register_number_text("ADD"@, x as nat, nn as nat)
    } else if code == 0x8000 && n == 0 {
        register_pair_text("LD"@, x as nat, y as nat)
    } else if code == 0x8000 && n == 1 {
        register_pair_text("OR"@, x as nat, y as nat)
    } else if code == 0x8000 && n == 2 {
        register_pair_text("AND"@, x as nat, y as nat)
    } else if code == 0x8000 && n == 3 {
        register_pair_text("XOR"@, x as nat, y as nat)
    } else if code == 0x8000 && n == 4 {
        register_number_text("ADD"@, x as nat, y as nat)
    } else if code == 0xA000 {
        number_text("LD I,"@, nnn as nat)
    } else if code == 0xD000 {
        register_pair_text("DRW"@, x as nat, y as nat) + ", 0x"@ + hex_padded(n as nat, 4)
    } else {
        Seq::<char>::empty()
    }
}

/// One cell of the register table: a label, `: 0x`, and the value in
/// hexadecimal of the given width.
pub open spec fn cell_text(label: Seq<char>, v: nat, width: nat) -> Seq<char> {
    label + ": 0x"@ + hex_padded(v, width)
}

/// One line of the register table: three cells, two spaces apart.
pub open spec fn row_text(
    first: Seq<char>,
    a: nat,
    second: Seq<char>,
    b: nat,
    third: Seq<char>,
    c: nat,
    width: nat,
) -> Seq<char> {
    cell_text(first, a, 4) + "  "@ + cell_text(second, b, 4) + "  "@ + cell_text(
        third,
        c,
        width,
    ) + "\n"@
}

/// The text shown before an instruction is executed: an empty line, the
/// address and the assembly text of the instruction, the instruction word,
/// and the registers. `pc` is the program counter after the fetch.
pub open spec fn debug_text(
    pc: usize,
    instr: u16,
    code: u16,
    x: usize,
    y: usize,
    n: u16,
    nn: u16,
    nnn: u16,
    registers: Seq<u8>,
    idx: u16,
) -> Seq<char> {
    "\nL"@ + hex_padded((pc - 2) as nat, 3) + ":  "@ + instr_text(code, x, y, n, nn, nnn) + "\n"@
        + "instr:       0x"@ + hex_padded(instr as nat, 4) + "\n"@ + row_text(
        "V0"@,
        registers[0] as nat,
        "V1"@,
        registers[1] as nat,
        "V2"@,
        registers[2] as nat,
        4,
    ) + row_text(
        "V3"@,
        registers[3] as nat,
        "V4"@,
        registers[4] as nat,
        "V5"@,
        registers[5] as nat,
        4,
    ) + row_text(
        "V6"@,
        registers[6] as nat,
        "V7"@,
        registers[7] as nat,
        "V5"@,
        registers[8] as nat,
        8,
    ) + row_text(
        "V9"@,
        registers[9] as nat,
        "VA"@,
        registers[10] as nat,
        "VB"@,
        registers[11] as nat,
        8,
    ) + row_text(
        "VC"@,
        registers[12] as nat,
        "VD"@,
        registers[13] as nat,
        "VE"@,
        registers[14] as nat,
        8,
    ) + cell_text("VC"@, registers[15] as nat, 4) + "                "@ + cell_text(
        "I"@,
        idx as nat,
        4,
    ) + "\n"@
}

fn register_number(mnemonic: &str, x: usize, v: usize) -> (s: String)
    ensures
        s@ == register_number_text(mnemonic@, x as nat, v as nat),
{
    let mut s = String::from_str(mnemonic);
    s.append(" V");
    push_decimal(&mut s, x);
    s.append(", 0x");
    push_hex(&mut s, v, 4);
    s
}

fn register_pair(mnemonic: &str, x: usize, y: usize) -> (s: String)
    ensures
        s@ == register_pair_text(mnemonic@, x as nat, y as nat),
{
    let mut s = String::from_str(mnemonic);
    s.append(" V");
    push_decimal(&mut s, x);
    s.append(", V");
    push_decimal(&mut s, y);
    s
}

fn number(mnemonic: &str, v: usize) -> (s: String)
    ensures
        s@ == number_text(mnemonic@, v as nat),
{
    let mut s = String::from_str(mnemonic);
    s.append(" 0x");
    push_hex(&mut s, v, 4);
    s
}

/// The assembly text of an instruction, for the instructions that have one;
/// the empty string for the others.
pub fn debug_instr(code: u16, x: usize, y: usize, n: u16, nn: u16, nnn: u16) -> (s: String)
    ensures
        s@ == instr_text(code, x, y, n, nn, nnn),
{
    match code {
        0x0000 => String::from_str("CLS"),
        0x1000 => number("JMP", nnn as usize),
        0x6000 => register_number("LD", x, nn as usize),
        0x7000 => register_number("ADD", x, nn as usize),
        0x8000 => {
            match n {
                0 => register_pair("LD", x, y),
                1 => register_pair("OR", x, y),
                2 => register_pair("AND", x, y),
                3 => register_pair("XOR", x, y),
                4 => register_number("ADD", x, y),
                _ => String::new(),
            }
        },
        0xA000 => number("LD I,", nnn as usize),
        0xD000 => {
            let mut s = register_pair("DRW", x, y);
            s.append(", 0x");
            push_hex(&mut s, n as usize, 4);
            s
        },
        _ => String::new(),
    }
}

fn push_cell(out: &mut String, label: &str, v: usize, width: usize)
    ensures
        final(out)@ == old(out)@ + cell_text(label@, v as nat, width as nat),
{
    let mut cell = String::from_str(label);
    cell.append(": 0x");
    push_hex(&mut cell, v, width);
    out.append(cell.as_str());
}

fn push_row(
    out: &mut String,
    first: &str,
    a: u8,
    second: &str,
    b: u8,
    third: &str,
    c: u8,
    width: usize,
)
    ensures
        final(out)@ == old(out)@ + row_text(
            first@,
            a as nat,
            second@,
            b as nat,
            third@,
            c as nat,
            width as nat,
        ),
{
    let mut row = String::new();
    push_cell(&mut row, first, a as usize, 4);
    row.append("  ");
    push_cell(&mut row, second, b as usize, 4);
    row.append("  ");
    push_cell(&mut row, third, c as usize, width);
    row.append("\n");
    assert(row@ =~= row_text(first@, a as nat, second@, b as nat, third@, c as nat, width as nat));
    out.append(row.as_str());
}

/// The text that the host shows before an instruction is executed. `pc` is
/// the program counter after the fetch, so at least 2.
pub fn debug(
    pc: usize,
    instr: u16,
    code: u16,
    x: usize,
    y: usize,
    n: u16,
    nn: u16,
    nnn: u16,
    registers: [u8; NUM_REGISTERS],
    idx: u16,
) -> (s: String)
    requires
        pc >= 2,
    ensures
        s@ == debug_text(pc, instr, code, x, y, n, nn, nnn, registers@, idx),
{
    let mut s = String::from_str("\nL");
    push_hex(&mut s, pc - 2, 3);
    s.append(":  ");
    s.append(debug_instr(code, x, y, n, nn, nnn).as_str());
    s.append("\n");
    s.append("instr:       0x");
    push_hex(&mut s, instr as usize, 4);
    s.append("\n");
    push_row(&mut s, "V0", registers[0], "V1", registers[1], "V2", registers[2], 4);
    push_row(&mut s, "V3", registers[3], "V4", registers[4], "V5", registers[5], 4);
    push_row(&mut s, "V6", registers[6], "V7", registers[7], "V5", registers[8], 8);
    push_row(&mut s, "V9", registers[9], "VA", registers[10], "VB", registers[11], 8);
    push_row(&mut s, "VC", registers[12], "VD", registers[13], "VE", registers[14], 8);
    push_cell(&mut s, "VC", registers[15] as usize, 4);
    s.append("                ");
    push_cell(&mut s, "I", idx as usize, 4);
    s.append("\n");
    s
}

} // verus!
