//! A processor of two registers that knows one instruction, the addition
//! 8XY4.

use vstd::prelude::*;
use vstd::string::*;

pub mod error;

pub use error::{CPUError, CPUResult};

use crate::text::{decimal, hex_digits, hex_padded, push_decimal, push_hex, push_hex_digits};

verus! {

/// Number of registers of the processor.
pub const CPU_REGISTERS: usize = 2;

pub struct CPU {
    opcode: u16,
    registers: [u8; 2],
}

/// The four nibbles of an opcode, the highest first.
pub open spec fn nibbles_of(opcode: u16) -> (u8, u8, u8, u8) {
    (
        (opcode / 0x1000) as u8,
        ((opcode / 0x100) % 0x10) as u8,
        ((opcode / 0x10) % 0x10) as u8,
        (opcode % 0x10) as u8,
    )
}

/// Whether the processor implements the opcode: it implements 8XY4.
pub open spec fn is_add(opcode: u16) -> bool {
    nibbles_of(opcode).0 == 0x8 && nibbles_of(opcode).3 == 0x4
}

/// What adding register `y` to register `x` gives: the registers with the
/// sum modulo 256 in `x`, or the first of the two registers that does not
/// exist.
pub open spec fn added(registers: Seq<u8>, x: u8, y: u8) -> Result<Seq<u8>, CPUError> {
    if x >= registers.len() {
        Err(CPUError::InvalidRegister(x as usize))
    } else if y >= registers.len() {
        Err(CPUError::InvalidRegister(y as usize))
    } else {
        Ok(registers.update(x as int, ((registers[x as int] + registers[y as int]) % 256) as u8))
    }
}

/// What executing `opcode` gives: an addition for 8XY4, the registers as
/// they are for every other opcode.
pub open spec fn executed(registers: Seq<u8>, opcode: u16) -> Result<Seq<u8>, CPUError> {
    if is_add(opcode) {
        added(registers, nibbles_of(opcode).1, nibbles_of(opcode).2)
    } else {
        Ok(registers)
    }
}

/// The line that tells that `opcode` is not implemented: the opcode in four
/// hexadecimal digits, in quotes.
pub open spec fn miss_text_of(opcode: u16) -> Seq<char> {
    "opcode \""@ + hex_padded(opcode as nat, 4) + "\" not implemented"@
}

/// The text of a processor: its opcode and its registers in hexadecimal.
pub open spec fn state_text(opcode: u16, registers: Seq<u8>) -> Seq<char> {
    "OP: 0x"@ + hex_digits(opcode as nat) + "\nR1: 0x"@ + hex_digits(registers[0] as nat)
        + " R2: 0x"@ + hex_digits(registers[1] as nat)
}

impl CPU {
    /// The opcode that the processor holds.
    pub closed spec fn opcode(&self) -> u16 {
        self.opcode
    }

    /// The registers of the processor; there are two.
    pub closed spec fn registers(&self) -> Seq<u8> {
        self.registers@
    }

    /// A processor always has two registers.
    pub proof fn lemma_two_registers(&self)
        ensures
            self.registers().len() == CPU_REGISTERS,
    {
    }

    /// A processor with opcode 0 and both registers 0.
    pub fn new() -> (cpu: Self)
        ensures
            cpu.opcode() == 0,
            cpu.registers() == seq![0u8, 0u8],
    {
        let cpu = Self { opcode: 0x0000, registers: [0x0000;2] };
        assert(cpu.registers@ =~= seq![0u8, 0u8]);
        cpu
    }

    /// Executes the opcode once. To show the result is for the caller, who
    /// has it from [`CPU::printed`].
    pub fn run(&mut self) -> (r: CPUResult<()>)
        ensures
            final(self).opcode() == old(self).opcode(),
            match executed(old(self).registers(), old(self).opcode()) {
                Ok(registers) => r is Ok && final(self).registers() == registers,
                Err(e) => r == Err::<(), CPUError>(e) && final(self).registers() == old(
                    self,
                ).registers(),
            },
    {
        self.execute()
    }

    /// Executes the opcode: 8XY4 adds register Y to register X; any other
    /// opcode is not implemented and changes nothing. [`CPU::miss_text`]
    /// gives the line that reports such an opcode.
    pub fn execute(&mut self) -> (r: CPUResult<()>)
        ensures
            final(self).opcode() == old(self).opcode(),
            match executed(old(self).registers(), old(self).opcode()) {
                Ok(registers) => r is Ok && final(self).registers() == registers,
                Err(e) => r == Err::<(), CPUError>(e) && final(self).registers() == old(
                    self,
                ).registers(),
            },
    {
        let (c, x, y, d) = self.get_nibbles();
        if c == 0x8 && d == 0x4 {
            self.add(x, y)
        } else {
            Ok(())
        }
    }

    /// The line to report where the processor does not implement the opcode
    /// it holds, which [`CPU::execute`] then passes over; `None` where it
    /// implements the opcode.
    pub fn miss_text(&self) -> (s: Option<String>)
        ensures
            s is Some <==> !is_add(self.opcode()),
            s matches Some(line) ==> line@ == miss_text_of(self.opcode()),
    {
        if self.implemented() {
            None
        } else {
            let mut line = String::from_str("opcode \"");
            push_hex(&mut line, self.opcode as usize, 4);
            line.append("\" not implemented");
            Some(line)
        }
    }

    /// Whether the processor implements the opcode it holds.
    pub fn implemented(&self) -> (known: bool)
        ensures
            known == is_add(self.opcode()),
    {
        let (c, _x, _y, d) = self.get_nibbles();
        c == 0x8 && d == 0x4
    }

    /// Adds register `y` to register `x`, modulo 256.
    pub fn add(&mut self, x: u8, y: u8) -> (r: CPUResult<()>)
        ensures
            final(self).opcode() == old(self).opcode(),
            match added(old(self).registers(), x, y) {
                Ok(registers) => r is Ok && final(self).registers() == registers,
                Err(e) => r == Err::<(), CPUError>(e) && final(self).registers() == old(
                    self,
                ).registers(),
            },
    {
        let a: u8 = match self.get_register(x as usize) {
            Ok(v) => *v,
            Err(e) => {
                return Err(e);
            },
        };
        let b: u8 = match self.get_register(y as usize) {
            Ok(v) => *v,
            Err(e) => {
                return Err(e);
            },
        };
        self.set_register(x as usize, a.wrapping_add(b))
    }

    /// The text that shows register 0 in decimal, followed by the delimiter
    /// if there is one.
    pub fn printed(&self, delim: Option<&str>) -> (s: String)
        ensures
            s@ == decimal(self.registers()[0] as nat) + (match delim {
                Some(val) => val@,
                None => Seq::<char>::empty(),
            }),
    {
        let mut s = String::new();
        push_decimal(&mut s, self.registers[0] as usize);
        match delim {
            Some(val) => {
                s.append(val);
            },
            None => {
                assert(s@ =~= s@ + Seq::<char>::empty());
            },
        }
        s
    }

    /// Replaces the opcode. 0xffff is no opcode and is refused.
    pub fn set_opcode(&mut self, opcode: u16) -> (r: CPUResult<()>)
        ensures
            final(self).registers() == old(self).registers(),
            opcode == 0xffff ==> r == Err::<(), CPUError>(CPUError::InvalidOpcode(opcode))
                && final(self).opcode() == old(self).opcode(),
            opcode != 0xffff ==> r is Ok && final(self).opcode() == opcode,
    {
        if opcode == 0xffff {
            return Err(CPUError::InvalidOpcode(opcode));
        }
        self.opcode = opcode;
        Ok(())
    }

    /// The opcode.
    pub fn get_opcode(&self) -> (opcode: &u16)
        ensures
            *opcode == self.opcode(),
    {
        &self.opcode
    }

    /// Whether the processor has a register `i`.
    pub fn register_exists(&self, i: usize) -> (exists: bool)
        ensures
            exists == (i < self.registers().len()),
            exists == (i < CPU_REGISTERS),
    {
        self.registers.len() > i
    }

    /// Writes `val` to register `i`.
    pub fn set_register(&mut self, i: usize, val: u8) -> (r: CPUResult<()>)
        ensures
            final(self).opcode() == old(self).opcode(),
            i < CPU_REGISTERS ==> r is Ok && final(self).registers() == old(
                self,
            ).registers().update(i as int, val),
            i >= CPU_REGISTERS ==> r == Err::<(), CPUError>(CPUError::InvalidRegister(i))
                && final(self).registers() == old(self).registers(),
    {
        if !self.register_exists(i) {
            return Err(CPUError::InvalidRegister(i));
        }
        self.registers[i] = val;
        Ok(())
    }

    /// Reads register `i`.
    pub fn get_register(&self, i: usize) -> (r: CPUResult<Box<u8>>)
        ensures
            i < CPU_REGISTERS ==> r == Ok::<Box<u8>, CPUError>(
                Box::new(self.registers()[i as int]),
            ),
            i >= CPU_REGISTERS ==> r == Err::<Box<u8>, CPUError>(CPUError::InvalidRegister(i)),
    {
        if !self.register_exists(i) {
            return Err(CPUError::InvalidRegister(i));
        }
        Ok(Box::new(self.registers[i]))
    }

    /// The four nibbles of the opcode, the highest first.
    pub fn get_nibbles(&self) -> (nibbles: (u8, u8, u8, u8))
        ensures
            nibbles == nibbles_of(self.opcode()),
    {
        let opcode: u16 = self.opcode;
        assert((opcode & 0xF000) >> 12 == opcode / 0x1000) by (bit_vector);
        assert((opcode & 0x0F00) >> 8 == (opcode / 0x100) % 0x10) by (bit_vector);
        assert((opcode & 0x00F0) >> 4 == (opcode / 0x10) % 0x10) by (bit_vector);
        assert((opcode & 0x000F) >> 0 == opcode % 0x10) by (bit_vector);
        let c = ((opcode & 0xF000) >> 12) as u8;
        let x = ((opcode & 0x0F00) >> 8) as u8;
        let y = ((opcode & 0x00F0) >> 4) as u8;
        let d = ((opcode & 0x000F) >> 0) as u8;
        (c, x, y, d)
    }

    /// The opcode and the registers as text, in hexadecimal.
    pub fn to_string(&self) -> (s: String)
        ensures
            s@ == state_text(self.opcode(), self.registers()),
    {
        let mut s = String::from_str("OP: 0x");
        push_hex_digits(&mut s, self.opcode as usize);
        s.append("\nR1: 0x");
        push_hex_digits(&mut s, self.registers[0] as usize);
        s.append(" R2: 0x");
        push_hex_digits(&mut s, self.registers[1] as usize);
        s
    }
}

} // verus!
