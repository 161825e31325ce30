//! A virtual machine for the CHIP-8 instruction set.
//!
//! The machine state, the instruction decoder and the execution engine are
//! verified; the host supplies timestamps, the pressed keys and random bytes.

use vstd::prelude::*;

pub mod cpu;
pub mod debug;
pub mod decoder;
pub mod emulator;
pub mod keyboard;
pub mod laws;
pub mod machine;
pub mod processor;
pub mod text;
pub mod time;
pub mod util;

verus! {

/// Address at which a program image is loaded.
pub const PROGRAM_LOC: usize = 0x200;

/// Number of general-purpose registers, V0 to VF.
pub const NUM_REGISTERS: usize = 16;

/// Size of the addressable memory in bytes.
pub const RAM_SIZE: usize = 4096;

/// Number of slots in the call stack.
pub const STACK_SIZE: usize = 64;

/// Width of the framebuffer in pixels.
pub const DISPLAY_WIDTH: usize = 64;

/// Height of the framebuffer in pixels.
pub const DISPLAY_HEIGHT: usize = 32;

/// Number of cells in the framebuffer.
pub const DISPLAY_LEN: usize = 2048;

/// Size of the glyph table in bytes: sixteen glyphs of five rows each.
pub const FONT_LEN: usize = 80;

/// The glyph table: the digits 0 to F, five rows each, four pixels wide in
/// the high bits of each row.
pub const FONTS: [u8; 80] = [
    0xF0, 0x90, 0x90, 0x90, 0xF0,
    0x20, 0x60, 0x20, 0x20, 0x70,
    0xF0, 0x10, 0xF0, 0x80, 0xF0,
    0xF0, 0x10, 0xF0, 0x10, 0xF0,
    0x90, 0x90, 0xF0, 0x10, 0x10,
    0xF0, 0x80, 0xF0, 0x10, 0xF0,
    0xF0, 0x80, 0xF0, 0x90, 0xF0,
    0xF0, 0x10, 0x20, 0x40, 0x40,
    0xF0, 0x90, 0xF0, 0x90, 0xF0,
    0xF0, 0x90, 0xF0, 0x10, 0xF0,
    0xF0, 0x90, 0xF0, 0x90, 0x90,
    0xE0, 0x90, 0xE0, 0x90, 0xE0,
    0xF0, 0x80, 0x80, 0x80, 0xF0,
    0xE0, 0x90, 0x90, 0x90, 0xE0,
    0xF0, 0x80, 0xF0, 0x80, 0xF0,
    0xF0, 0x80, 0xF0, 0x80, 0x80,
];

} // verus!
