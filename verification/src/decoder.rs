//! Splitting a 16-bit instruction word into its addressing fields.

use vstd::prelude::*;

verus! {

/// The fields of one instruction word.
#[derive(Clone, Copy, Debug, PartialEq, Eq, Structural)]
pub struct Fields {
    /// The opcode class: the word with everything but its top four bits cleared.
    pub code: u16,
    /// Register selector X, bits 8 to 11.
    pub x: usize,
    /// Register selector Y, bits 4 to 7.
    pub y: usize,
    /// The low nibble.
    pub n: u16,
    /// The low byte.
    pub nn: u16,
    /// The low twelve bits.
    pub nnn: u16,
}

/// The fields of `instr`, by division and remainder.
pub open spec fn fields_of(instr: u16) -> Fields {
    Fields {
        code: ((instr / 0x1000) * 0x1000) as u16,
        x: ((instr / 0x100) % 0x10) as usize,
        y: ((instr / 0x10) % 0x10) as usize,
        n: instr % 0x10,
        nn: instr % 0x100,
        nnn: instr % 0x1000,
    }
}

/// Decodes an instruction word. Every word decodes; whether an instruction
/// uses the fields is for the dispatcher to say.
pub fn decode(instr: u16) -> (f: Fields)
    ensures
        f == fields_of(instr),
        f.x < 16,
        f.y < 16,
        f.n < 16,
        f.nn < 256,
        f.nnn < 4096,
{
    let code: u16 = instr & 0xF000;
    let x: u16 = (instr & 0x0F00) >> 8;
    let y: u16 = (instr & 0x00F0) >> 4;
    let n: u16 = instr & 0x000F;
    let nn: u16 = instr & 0x00FF;
    let nnn: u16 = instr & 0x0FFF;
    assert(instr & 0xF000 == (instr / 0x1000) * 0x1000) by (bit_vector);
    assert((instr & 0x0F00) >> 8 == (instr / 0x100) % 0x10) by (bit_vector);
    assert((instr & 0x00F0) >> 4 == (instr / 0x10) % 0x10) by (bit_vector);
    assert(instr & 0x000F == instr % 0x10) by (bit_vector);
    assert(instr & 0x00FF == instr % 0x100) by (bit_vector);
    assert(instr & 0x0FFF == instr % 0x1000) by (bit_vector);
    Fields { code, x: x as usize, y: y as usize, n, nn, nnn }
}

} // verus!
