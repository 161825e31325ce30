//! A processor of two registers that knows one instruction, the addition
//! 8XY4, and runs its opcode a hundred times over.

use vstd::prelude::*;
use vstd::string::*;

pub mod error;

pub use error::{ProcessorError, ProcessorResult};

use crate::text::{decimal, hex_digits, hex_padded, push_decimal, push_hex, push_hex_digits};

verus! {

/// Number of registers of the processor.
pub const PROCESSOR_REGISTERS: usize = 2;

pub struct Processor {
    opcode: u16,
    registers: [u8; 2],
}

/// The four nibbles of an opcode, the highest first.
pub open spec fn nibbles_of(opcode: u16) -> (u8, u8, u8, u8) {
    (
        (opcode / 0x1000) as u8,
        ((opcode / 0x100) % 0x10) as u8,
        ((opcode / 0x10) % 0x10) as u8,
        (opcode % 0x10) as u8,
    )
}

/// Whether the processor implements the opcode: it implements 8XY4.
pub open spec fn is_add(opcode: u16) -> bool {
    nibbles_of(opcode).0 == 0x8 && nibbles_of(opcode).3 == 0x4
}

/// What adding register `y` to register `x` gives: the registers with the
/// sum modulo 256 in `x`, or the first of the two registers that does not
/// exist.
pub open spec fn added(registers: Seq<u8>, x: u8, y: u8) -> Result<Seq<u8>, ProcessorError> {
    if x >= registers.len() {
        Err(ProcessorError::InvalidRegister(x as usize))
    } else if y >= registers.len() {
        Err(ProcessorError::InvalidRegister(y as usize))
    } else {
        Ok(registers.update(x as int, ((registers[x as int] + registers[y as int]) % 256) as u8))
    }
}

/// What executing `opcode` gives: an addition for 8XY4, the registers as
/// they are for every other opcode.
pub open spec fn executed(registers: Seq<u8>, opcode: u16) -> Result<Seq<u8>, ProcessorError> {
    if is_add(opcode) {
        added(registers, nibbles_of(opcode).1, nibbles_of(opcode).2)
    } else {
        Ok(registers)
    }
}

/// The four nibbles of an opcode, the highest first.
pub fn as_nibbles(opcode: u16) -> (nibbles: (u8, u8, u8, u8))
    ensures
        nibbles == nibbles_of(opcode),
{
    assert((opcode & 0xF000) >> 12 == opcode / 0x1000) by (bit_vector);
    assert((opcode & 0x0F00) >> 8 == (opcode / 0x100) % 0x10) by (bit_vector);
    assert((opcode & 0x00F0) >> 4 == (opcode / 0x10) % 0x10) by (bit_vector);
    assert((opcode & 0x000F) >> 0 == opcode % 0x10) by (bit_vector);
    let c = ((opcode & 0xF000) >> 12) as u8;
    let x = ((opcode & 0x0F00) >> 8) as u8;
    let y = ((opcode & 0x00F0) >> 4) as u8;
    let d = ((opcode & 0x000F) >> 0) as u8;
    (c, x, y, d)
}

/// How often [`Processor::run`] executes the opcode.
pub const RUNS: usize = 100;

/// The registers after `times` additions of register `y` to register `x`,
/// both of which exist.
pub open spec fn added_times(registers: Seq<u8>, x: u8, y: u8, times: nat) -> Seq<u8>
    decreases times,
{
    if times == 0 {
        registers
    } else {
        let before = added_times(registers, x, y, (times - 1) as nat);
        before.update(x as int, ((before[x as int] + before[y as int]) % 256) as u8)
    }
}

/// The line that tells that `opcode` is not implemented, with the opcode in
/// four hexadecimal digits.
pub open spec fn miss_text_of(opcode: u16) -> Seq<char> {
    "not implemented: opcode "@ + hex_padded(opcode as nat, 4)
}

/// The registers after `times` executions of `opcode`, none of which fails:
/// so many additions for 8XY4, and the registers as they are for any other
/// opcode.
pub open spec fn executed_times(registers: Seq<u8>, opcode: u16, times: nat) -> Seq<u8> {
    if is_add(opcode) {
        added_times(registers, nibbles_of(opcode).1, nibbles_of(opcode).2, times)
    } else {
        registers
    }
}

/// The text of a processor: its opcode and its registers in hexadecimal.
pub open spec fn state_text(opcode: u16, registers: Seq<u8>) -> Seq<char> {
    "OP: 0x"@ + hex_digits(opcode as nat) + "\nR1: 0x"@ + hex_digits(registers[0] as nat)
        + " R2: 0x"@ + hex_digits(registers[1] as nat)
}

impl Processor {
    /// The opcode that the processor holds.
    pub closed spec fn opcode(&self) -> u16 {
        self.opcode
    }

    /// The registers of the processor; there are two.
    pub closed spec fn registers(&self) -> Seq<u8> {
        self.registers@
    }

    /// A processor always has two registers.
    pub proof fn lemma_two_registers(&self)
        ensures
            self.registers().len() == PROCESSOR_REGISTERS,
    {
    }

    /// A processor with opcode 0 and both registers 0.
    pub fn new() -> (cpu: Self)
        ensures
            cpu.opcode() == 0,
            cpu.registers() == seq![0u8, 0u8],
    {
        let cpu = Self { opcode: 0x0000, registers: [0x0000;2] };
        assert(cpu.registers@ =~= seq![0u8, 0u8]);
        cpu
    }

    /// Executes the opcode a hundred times and returns what register 0 held
    /// after each time, for the caller to show. An addition that names a
    /// register that does not exist fails the first time and changes
    /// nothing. An opcode that is not implemented changes nothing either,
    /// and the hundred values are what register 0 holds.
    pub fn run(&mut self) -> (r: ProcessorResult<Vec<u8>>)
        ensures
            final(self).opcode() == old(self).opcode(),
            match executed(old(self).registers(), old(self).opcode()) {
                Ok(_) => {
                    &&& r is Ok
                    &&& r.unwrap()@.len() == RUNS
                    &&& forall|i: int|
                        0 <= i < RUNS ==> #[trigger] r.unwrap()@[i] == executed_times(
                            old(self).registers(),
                            old(self).opcode(),
                            (i + 1) as nat,
                        )[0]
                    &&& final(self).registers() == executed_times(
                        old(self).registers(),
                        old(self).opcode(),
                        RUNS as nat,
                    )
                },
                Err(e) => r == Err::<Vec<u8>, ProcessorError>(e) && final(self).registers() == old(
                    self,
                ).registers(),
            },
    {
        let mut shown: Vec<u8> = Vec::new();
        let mut i: usize = 0;
        while i < RUNS
            invariant
                i <= RUNS,
                self.opcode == old(self).opcode,
                i > 0 ==> executed(old(self).registers(), self.opcode) is Ok,
                shown@.len() == i,
                self.registers@ == executed_times(old(self).registers(), self.opcode, i as nat),
                forall|j: int|
                    0 <= j < i ==> #[trigger] shown@[j] == executed_times(
                        old(self).registers(),
                        self.opcode,
                        (j + 1) as nat,
                    )[0],
            decreases RUNS - i,
        {
            match self.execute() {
                Ok(()) => {},
                Err(e) => {
                    return Err(e);
                },
            }
            shown.push(self.registers[0]);
            i += 1;
        }
        Ok(shown)
    }

    /// Executes the opcode: 8XY4 adds register Y to register X; any other
    /// opcode is not implemented and changes nothing.
    /// [`Processor::miss_text`] gives the line that reports such an opcode.
    pub fn execute(&mut self) -> (r: ProcessorResult<()>)
        ensures
            final(self).opcode() == old(self).opcode(),
            match executed(old(self).registers(), old(self).opcode()) {
                Ok(registers) => r is Ok && final(self).registers() == registers,
                Err(e) => r == Err::<(), ProcessorError>(e) && final(self).registers() == old(
                    self,
                ).registers(),
            },
    {
        let (c, x, y, d) = as_nibbles(self.opcode);
        if c == 0x8 && d == 0x4 {
            self.add(x, y)
        } else {
            Ok(())
        }
    }

    /// The line to report where the processor does not implement the opcode
    /// it holds; `None` where it implements the opcode.
    pub fn miss_text(&self) -> (s: Option<String>)
        ensures
            s is Some <==> !is_add(self.opcode()),
            s matches Some(line) ==> line@ == miss_text_of(self.opcode()),
    {
        if self.implemented() {
            None
        } else {
            let mut line = String::from_str("not implemented: opcode ");
            push_hex(&mut line, self.opcode as usize, 4);
            Some(line)
        }
    }

    /// Whether the processor implements the opcode it holds.
    pub fn implemented(&self) -> (known: bool)
        ensures
            known == is_add(self.opcode()),
    {
        let (c, _x, _y, d) = as_nibbles(self.opcode);
        c == 0x8 && d == 0x4
    }

    /// Adds register `y` to register `x`, modulo 256.
    pub fn add(&mut self, x: u8, y: u8) -> (r: ProcessorResult<()>)
        ensures
            final(self).opcode() == old(self).opcode(),
            match added(old(self).registers(), x, y) {
                Ok(registers) => r is Ok && final(self).registers() == registers,
                Err(e) => r == Err::<(), ProcessorError>(e) && final(self).registers() == old(
                    self,
                ).registers(),
            },
    {
        let a: u8 = match self.get_register(x as usize) {
            Ok(v) => *v,
            Err(e) => {
                return Err(e);
            },
        };
        let b: u8 = match self.get_register(y as usize) {
            Ok(v) => *v,
            Err(e) => {
                return Err(e);
            },
        };
        self.set_register(x as usize, a.wrapping_add(b))
    }

    /// The text that shows register 0 in decimal, followed by the delimiter
    /// if there is one.
    pub fn printed(&self, delim: Option<&str>) -> (s: String)
        ensures
            s@ == decimal(self.registers()[0] as nat) + (match delim {
                Some(val) => val@,
                None => Seq::<char>::empty(),
            }),
    {
        let mut s = String::new();
        push_decimal(&mut s, self.registers[0] as usize);
        match delim {
            Some(val) => {
                s.append(val);
            },
            None => {
                assert(s@ =~= s@ + Seq::<char>::empty());
            },
        }
        s
    }

    /// Replaces the opcode. 0xffff is no opcode and is refused.
    pub fn set_opcode(&mut self, opcode: u16) -> (r: ProcessorResult<()>)
        ensures
            final(self).registers() == old(self).registers(),
            opcode == 0xffff ==> r == Err::<(), ProcessorError>(ProcessorError::InvalidOpcode(opcode))
                && final(self).opcode() == old(self).opcode(),
            opcode != 0xffff ==> r is Ok && final(self).opcode() == opcode,
    {
        if opcode == 0xffff {
            return Err(ProcessorError::InvalidOpcode(opcode));
        }
        self.opcode = opcode;
        Ok(())
    }

    /// The opcode.
    pub fn get_opcode(&self) -> (opcode: &u16)
        ensures
            *opcode == self.opcode(),
    {
        &self.opcode
    }

    /// Whether the processor has a register `i`.
    pub fn register_exists(&self, i: usize) -> (exists: bool)
        ensures
            exists == (i < self.registers().len()),
            exists == (i < PROCESSOR_REGISTERS),
    {
        self.registers.len() > i
    }

    /// Writes `val` to register `i`.
    pub fn set_register(&mut self, i: usize, val: u8) -> (r: ProcessorResult<()>)
        ensures
            final(self).opcode() == old(self).opcode(),
            i < PROCESSOR_REGISTERS ==> r is Ok && final(self).registers() == old(
                self,
            ).registers().update(i as int, val),
            i >= PROCESSOR_REGISTERS ==> r == Err::<(), ProcessorError>(ProcessorError::InvalidRegister(i))
                && final(self).registers() == old(self).registers(),
    {
        if !self.register_exists(i) {
            return Err(ProcessorError::InvalidRegister(i));
        }
        self.registers[i] = val;
        Ok(())
    }

    /// Reads register `i`.
    pub fn get_register(&self, i: usize) -> (r: ProcessorResult<Box<u8>>)
        ensures
            i < PROCESSOR_REGISTERS ==> r == Ok::<Box<u8>, ProcessorError>(
                Box::new(self.registers()[i as int]),
            ),
            i >= PROCESSOR_REGISTERS ==> r == Err::<Box<u8>, ProcessorError>(ProcessorError::InvalidRegister(i)),
    {
        if !self.register_exists(i) {
            return Err(ProcessorError::InvalidRegister(i));
        }
        Ok(Box::new(self.registers[i]))
    }

    /// The opcode and the registers as text, in hexadecimal.
    pub fn to_string(&self) -> (s: String)
        ensures
            s@ == state_text(self.opcode(), self.registers()),
    {
        let mut s = String::from_str("OP: 0x");
        push_hex_digits(&mut s, self.opcode as usize);
        s.append("\nR1: 0x");
        push_hex_digits(&mut s, self.registers[0] as usize);
        s.append(" R2: 0x");
        push_hex_digits(&mut s, self.registers[1] as usize);
        s
    }
}

} // verus!
