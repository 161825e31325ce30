//! The mathematical model of the machine: its state as sequences and
//! integers, and what each instruction and each cycle does to it.

use vstd::prelude::*;

use crate::decoder::fields_of;
use crate::keyboard::{is_terminate_key, logical_key, Key};
use crate::{DISPLAY_HEIGHT, DISPLAY_LEN, DISPLAY_WIDTH, NUM_REGISTERS, RAM_SIZE, STACK_SIZE};

verus! {

/// Nanoseconds between two timer ticks: a sixtieth of a second.
pub const TIMER_INTERVAL_NS: u128 = 16_666_666;

/// Index of VF, the register that receives carry, borrow and collision flags.
pub const FLAG: usize = 0x0F;

/// A defect of the running program that ends the run.
#[derive(Clone, Copy, Debug, PartialEq, Eq, Structural)]
pub enum Fault {
    /// The program counter left no room in memory for an instruction word.
    ProgramCounter,
    /// A call was made with every usable stack slot taken.
    StackOverflow,
    /// An instruction addressed memory past its end through the index register.
    MemoryAccess,
}

/// What one cycle did.
#[derive(Clone, Copy, Debug, PartialEq, Eq, Structural)]
pub enum Status {
    /// No instruction was due.
    Idle,
    /// One instruction was executed.
    Executed,
    /// The word at `address` matches no instruction and was skipped.
    DecodeMiss { opcode: u16, address: usize },
    /// The machine waits for a key press, to be stored in `register`.
    AwaitingKey { register: usize },
    /// The machine has stopped for good.
    Halted(Fault),
}

/// What a key press did to a machine.
#[derive(Clone, Copy, Debug, PartialEq, Eq, Structural)]
pub enum KeyWait {
    /// The key's logical id was stored and the machine runs again.
    Stored(u8),
    /// The key asks to end the run; the machine is unchanged.
    Terminate,
    /// The machine was not waiting, or the key is outside the layout.
    Ignored,
}

/// The state of a machine.
#[verifier::ext_equal]
pub struct Machine {
    pub registers: Seq<u8>,
    pub index: u16,
    pub ram: Seq<u8>,
    pub stack: Seq<u16>,
    pub istack: usize,
    pub pc: usize,
    pub dt: u8,
    pub st: u8,
    pub display: Seq<u8>,
    pub display_update_flag: bool,
    pub display_clear_flag: bool,
    pub beep_flag: bool,
    pub waiting: Option<usize>,
    pub fault: Option<Fault>,
    pub instruction_time_ns: u128,
    pub debug_mode: bool,
    pub last_timer_t: u128,
    pub last_instruction_t: u128,
}

/// Whether more than `interval` nanoseconds lie between `last` and `t`.
pub open spec fn elapsed(last: u128, t: u128, interval: u128) -> bool {
    t - last > interval
}

/// A timer after one tick: one less, and never below zero.
pub open spec fn decay(v: u8) -> u8 {
    if v > 0 {
        (v - 1) as u8
    } else {
        0
    }
}

/// A timer after `ticks` ticks.
pub open spec fn decay_by(v: u8, ticks: nat) -> u8
    decreases ticks,
{
    if ticks == 0 {
        v
    } else {
        decay(decay_by(v, (ticks - 1) as nat))
    }
}

/// Whether bit `col` of a sprite row is set, counting from the most
/// significant bit.
pub open spec fn sprite_bit(row: u8, col: int) -> bool {
    row & (0x80u8 >> (col as u8)) != 0
}

/// A framebuffer cell after a set sprite bit was drawn over it.
pub open spec fn toggled(cell: u8) -> u8 {
    if cell > 0 {
        0
    } else {
        1
    }
}

/// Whether the sprite of `n` rows that memory holds at `index`, drawn with
/// its corner at column `xpos` and row `ypos`, has a set bit over framebuffer
/// cell `i`. A sprite does not wrap: what would cross the right or the bottom
/// edge covers no cell.
pub open spec fn sprite_covers(
    ram: Seq<u8>,
    index: int,
    xpos: int,
    ypos: int,
    n: int,
    i: int,
) -> bool {
    let row = i / (DISPLAY_WIDTH as int) - ypos;
    let col = i % (DISPLAY_WIDTH as int) - xpos;
    &&& 0 <= i < DISPLAY_LEN
    &&& 0 <= row < n
    &&& 0 <= col < 8
    &&& sprite_bit(ram[index + row], col)
}

/// The framebuffer after that sprite was drawn: every cell under a set bit
/// is toggled.
pub open spec fn blitted(
    display: Seq<u8>,
    ram: Seq<u8>,
    index: int,
    xpos: int,
    ypos: int,
    n: int,
) -> Seq<u8> {
    Seq::new(
        DISPLAY_LEN as nat,
        |i: int|
            if sprite_covers(ram, index, xpos, ypos, n, i) {
                toggled(display[i])
            } else {
                display[i]
            },
    )
}

/// Whether drawing that sprite turns a lit cell off.
pub open spec fn collides(
    display: Seq<u8>,
    ram: Seq<u8>,
    index: int,
    xpos: int,
    ypos: int,
    n: int,
) -> bool {
    exists|i: int| #[trigger] sprite_covers(ram, index, xpos, ypos, n, i) && display[i] > 0
}

/// Whether the key with logical id `v` is down in the snapshot `keys`.
pub open spec fn key_down(keys: Seq<bool>, v: u8) -> bool {
    v < 16 && keys[v as int]
}

/// Memory as it is before the first cycle: the glyph table at 0, the program
/// image at 0x200, zero everywhere else.
pub open spec fn initial_ram(rom: Seq<u8>, fonts: Seq<u8>) -> Seq<u8> {
    Seq::new(
        RAM_SIZE as nat,
        |i: int|
            if i < fonts.len() {
                fonts[i]
            } else if 0x200 <= i < 0x200 + rom.len() {
                rom[i - 0x200]
            } else {
                0u8
            },
    )
}

/// Whether the word is one of the instructions of the machine.
pub open spec fn recognized(instr: u16) -> bool {
    let f = fields_of(instr);
    if f.code == 0x0000 {
        instr == 0x00E0 || instr == 0x00EE
    } else if f.code == 0x5000 || f.code == 0x9000 {
        f.n == 0
    } else if f.code == 0x8000 {
        f.n <= 7 || f.n == 0xE
    } else if f.code == 0xE000 {
        f.nn == 0x9E || f.nn == 0xA1
    } else if f.code == 0xF000 {
        f.nn == 0x07 || f.nn == 0x0A || f.nn == 0x15 || f.nn == 0x18 || f.nn == 0x1E || f.nn
            == 0x29 || f.nn == 0x33 || f.nn == 0x55 || f.nn == 0x65
    } else {
        true
    }
}

/// Whether the word is the instruction that waits for a key press.
pub open spec fn waits_for_key(instr: u16) -> bool {
    fields_of(instr).code == 0xF000 && fields_of(instr).nn == 0x0A
}

impl Machine {
    /// The invariant of the state: every array has its size, the stack
    /// pointer is inside the stack, every framebuffer cell is 0 or 1, and a
    /// register that awaits a key exists.
    pub open spec fn wf(self) -> bool {
        &&& self.registers.len() == NUM_REGISTERS
        &&& self.ram.len() == RAM_SIZE
        &&& self.stack.len() == STACK_SIZE
        &&& self.display.len() == DISPLAY_LEN
        &&& self.istack < STACK_SIZE
        &&& forall|i: int| 0 <= i < DISPLAY_LEN ==> #[trigger] self.display[i] <= 1
        &&& (self.waiting matches Some(x) ==> x < NUM_REGISTERS)
    }

    /// The state before the first cycle.
    pub open spec fn initial(
        rom: Seq<u8>,
        fonts: Seq<u8>,
        start_t: u128,
        instruction_time_ns: u128,
        debug_mode: bool,
    ) -> Machine {
        Machine {
            registers: Seq::new(NUM_REGISTERS as nat, |i: int| 0u8),
            index: 0,
            ram: initial_ram(rom, fonts),
            stack: Seq::new(STACK_SIZE as nat, |i: int| 0u16),
            istack: 0,
            pc: 0x200,
            dt: 0,
            st: 0,
            display: Seq::new(DISPLAY_LEN as nat, |i: int| 0u8),
            display_update_flag: false,
            display_clear_flag: false,
            beep_flag: false,
            waiting: None,
            fault: None,
            instruction_time_ns,
            debug_mode,
            last_timer_t: start_t,
            last_instruction_t: start_t,
        }
    }

    pub open spec fn with_register(self, x: int, v: u8) -> Machine {
        Machine { registers: self.registers.update(x, v), ..self }
    }

    pub open spec fn with_pc(self, pc: int) -> Machine {
        Machine { pc: pc as usize, ..self }
    }

    pub open spec fn with_index(self, index: int) -> Machine {
        Machine { index: index as u16, ..self }
    }

    /// The state with the program counter past the next instruction, if
    /// `cond` holds.
    pub open spec fn skip_if(self, cond: bool) -> Machine {
        if cond {
            self.with_pc(self.pc + 2)
        } else {
            self
        }
    }

    // ----- timers -----

    /// Whether a timer tick is due at `t`.
    pub open spec fn timer_due(self, t: u128) -> bool {
        elapsed(self.last_timer_t, t, TIMER_INTERVAL_NS)
    }

    /// Whether an instruction is due at `t`.
    pub open spec fn instruction_due(self, t: u128) -> bool {
        elapsed(self.last_instruction_t, t, self.instruction_time_ns)
    }

    /// The timer part of a cycle: where a tick is due, both timers decay and
    /// the tick time is recorded. The tone is on while the sound timer is not
    /// zero.
    pub open spec fn after_timers(self, t: u128) -> Machine {
        let m = if self.timer_due(t) {
            Machine { dt: decay(self.dt), st: decay(self.st), last_timer_t: t, ..self }
        } else {
            self
        };
        Machine { beep_flag: m.st > 0, ..m }
    }

    // ----- fetch -----

    /// Whether memory holds a whole instruction word at the program counter.
    pub open spec fn can_fetch(self) -> bool {
        self.pc + 2 <= RAM_SIZE
    }

    /// The instruction word at the program counter, high byte first.
    pub open spec fn fetched(self) -> u16 {
        (self.ram[self.pc as int] * 0x100 + self.ram[self.pc + 1]) as u16
    }

    // ----- single instructions -----

    /// 00E0: the framebuffer is cleared and the cleared flag raised.
    pub open spec fn cls(self) -> Machine {
        Machine {
            display: Seq::new(DISPLAY_LEN as nat, |i: int| 0u8),
            display_clear_flag: true,
            ..self
        }
    }

    /// 00EE: the program counter is read from the top of the stack, and the
    /// stack pointer goes down by one unless it is zero already.
    pub open spec fn ret(self) -> Machine {
        Machine {
            pc: self.stack[self.istack as int] as usize,
            istack: if self.istack > 0 {
                (self.istack - 1) as usize
            } else {
                0
            },
            ..self
        }
    }

    /// 2NNN: the program counter is pushed and replaced by `nnn`.
    pub open spec fn call(self, nnn: u16) -> Machine {
        Machine {
            istack: (self.istack + 1) as usize,
            stack: self.stack.update(self.istack + 1, self.pc as u16),
            pc: nnn as usize,
            ..self
        }
    }

    /// 8XY4: VX becomes the sum of VX and VY modulo 256, and VF tells
    /// whether the sum passed 255. Both operands are read first; then the
    /// flag is written, and the sum last, so that it stays where VX is VF.
    pub open spec fn add_carry(self, x: int, y: int) -> Machine {
        let a = self.registers[x];
        let b = self.registers[y];
        self.with_register(FLAG as int, if a + b > 255 { 1 } else { 0 }).with_register(
            x,
            ((a + b) % 256) as u8,
        )
    }

    /// 8XY5: VX becomes VX less VY modulo 256, and VF tells whether VX was
    /// greater than VY. Both operands are read first; then the flag is
    /// written, and the difference last.
    pub open spec fn sub_borrow(self, x: int, y: int) -> Machine {
        let a = self.registers[x];
        let b = self.registers[y];
        self.with_register(FLAG as int, if a > b { 1 } else { 0 }).with_register(
            x,
            ((a - b) % 256) as u8,
        )
    }

    /// 8XY6: VX is halved, and VF receives the bit that was shifted out, the
    /// lowest bit of VX. VX is read first; then the flag is written, and the
    /// half last.
    pub open spec fn shift_right(self, x: int) -> Machine {
        let a = self.registers[x];
        self.with_register(FLAG as int, a % 2).with_register(x, a / 2)
    }

    /// 8XY7: VX becomes VY less VX modulo 256, and VF tells whether VY was
    /// greater than VX. Both operands are read first; then the flag is
    /// written, and the difference last.
    pub open spec fn sub_reverse(self, x: int, y: int) -> Machine {
        let a = self.registers[x];
        let b = self.registers[y];
        self.with_register(FLAG as int, if b > a { 1 } else { 0 }).with_register(
            x,
            ((b - a) % 256) as u8,
        )
    }

    /// 8XYE: VX is doubled modulo 256, and VF receives the bit that was
    /// shifted out, the highest bit of VX, as 1 or 0. VX is read first; then
    /// the flag is written, and the double last.
    pub open spec fn shift_left(self, x: int) -> Machine {
        let a = self.registers[x];
        self.with_register(FLAG as int, a / 0x80).with_register(x, ((a * 2) % 256) as u8)
    }

    /// 8XYN: the register operations.
    pub open spec fn alu(self, x: int, y: int, n: u16) -> Machine {
        let a = self.registers[x];
        let b = self.registers[y];
        if n == 0 {
            self.with_register(x, b)
        } else if n == 1 {
            self.with_register(x, a | b)
        } else if n == 2 {
            self.with_register(x, a & b)
        } else if n == 3 {
            self.with_register(x, a ^ b)
        } else if n == 4 {
            self.add_carry(x, y)
        } else if n == 5 {
            self.sub_borrow(x, y)
        } else if n == 6 {
            self.shift_right(x)
        } else if n == 7 {
            self.sub_reverse(x, y)
        } else if n == 0xE {
            self.shift_left(x)
        } else {
            self
        }
    }

    // ----- sprites -----

    /// Column of the left edge of a sprite drawn by DXYN. VF is cleared
    /// before the position is read.
    pub open spec fn sprite_x(self, x: int) -> int {
        self.with_register(FLAG as int, 0).registers[x] as int % (DISPLAY_WIDTH as int)
    }

    /// Row of the top edge of a sprite drawn by DXYN.
    pub open spec fn sprite_y(self, y: int) -> int {
        self.with_register(FLAG as int, 0).registers[y] as int % (DISPLAY_HEIGHT as int)
    }

    /// Number of sprite rows that lie on the screen: the rows below the
    /// bottom edge are clipped.
    pub open spec fn sprite_rows(self, y: int, n: u16) -> int {
        if n <= DISPLAY_HEIGHT - self.sprite_y(y) {
            n as int
        } else {
            DISPLAY_HEIGHT - self.sprite_y(y)
        }
    }

    /// DXYN: VF is cleared, the sprite at the index register is drawn at
    /// (VX mod 64, VY mod 32), VF tells whether a lit cell went off, and the
    /// dirty flag is raised whether or not a cell changed.
    pub open spec fn draw(self, x: int, y: int, n: u16) -> Machine {
        let xpos = self.sprite_x(x);
        let ypos = self.sprite_y(y);
        let hit = collides(self.display, self.ram, self.index as int, xpos, ypos, n as int);
        Machine {
            registers: self.registers.update(FLAG as int, if hit { 1 } else { 0 }),
            display: blitted(self.display, self.ram, self.index as int, xpos, ypos, n as int),
            display_update_flag: true,
            ..self
        }
    }

    // ----- the F group -----

    /// FX33: the hundreds, tens and ones of VX at the index register.
    pub open spec fn bcd(self, x: int) -> Machine {
        let v = self.registers[x];
        let i = self.index as int;
        Machine {
            ram: self.ram.update(i, v / 100).update(i + 1, (v / 10) % 10).update(i + 2, v % 10),
            ..self
        }
    }

    /// FX55: V0 to VX, VX included, are copied to memory at the index register.
    pub open spec fn store_registers(self, x: int) -> Machine {
        Machine {
            ram: Seq::new(
                RAM_SIZE as nat,
                |i: int|
                    if self.index <= i <= self.index + x {
                        self.registers[i - self.index]
                    } else {
                        self.ram[i]
                    },
            ),
            ..self
        }
    }

    /// FX65: V0 to VX, VX included, are read from memory at the index register.
    pub open spec fn load_registers(self, x: int) -> Machine {
        Machine {
            registers: Seq::new(
                NUM_REGISTERS as nat,
                |i: int|
                    if i <= x {
                        self.ram[self.index + i]
                    } else {
                        self.registers[i]
                    },
            ),
            ..self
        }
    }

    /// The timer, index and memory instructions FXNN, but for the key wait.
    pub open spec fn misc(self, x: int, nn: u16) -> Machine {
        let v = self.registers[x];
        if nn == 0x07 {
            self.with_register(x, self.dt)
        } else if nn == 0x15 {
            Machine { dt: v, ..self }
        } else if nn == 0x18 {
            Machine { st: v, ..self }
        } else if nn == 0x1E {
            self.with_index((self.index + v) % 0x10000)
        } else if nn == 0x29 {
            self.with_index(v * 5)
        } else if nn == 0x33 {
            self.bcd(x)
        } else if nn == 0x55 {
            self.store_registers(x)
        } else if nn == 0x65 {
            self.load_registers(x)
        } else {
            self
        }
    }

    // ----- dispatch -----

    /// The defect, if any, that keeps the instruction from being executed:
    /// a call on a full stack, or a memory access through the index register
    /// that would pass the end of memory.
    pub open spec fn fault_of(self, instr: u16) -> Option<Fault> {
        let f = fields_of(instr);
        let x = f.x as int;
        let y = f.y as int;
        if f.code == 0x2000 && self.istack + 1 >= STACK_SIZE {
            Some(Fault::StackOverflow)
        } else if f.code == 0xD000 && self.sprite_rows(y, f.n) > 0 && self.index
            + self.sprite_rows(y, f.n) > RAM_SIZE {
            Some(Fault::MemoryAccess)
        } else if f.code == 0xF000 && f.nn == 0x33 && self.index + 2 >= RAM_SIZE {
            Some(Fault::MemoryAccess)
        } else if f.code == 0xF000 && (f.nn == 0x55 || f.nn == 0x65) && self.index + x
            >= RAM_SIZE {
            Some(Fault::MemoryAccess)
        } else {
            None
        }
    }

    /// The state after a recognized instruction that meets no defect and
    /// does not wait for a key. `keys` tells which logical keys are down and
    /// `random` is the byte that CXNN masks.
    pub open spec fn executed(self, instr: u16, keys: Seq<bool>, random: u8) -> Machine {
        let f = fields_of(instr);
        let x = f.x as int;
        let y = f.y as int;
        let vx = self.registers[x];
        let vy = self.registers[y];
        if f.code == 0x0000 {
            if instr == 0x00E0 {
                self.cls()
            } else {
                self.ret()
            }
        } else if f.code == 0x1000 {
            self.with_pc(f.nnn as int)
        } else if f.code == 0x2000 {
            self.call(f.nnn)
        } else if f.code == 0x3000 {
            self.skip_if(vx == f.nn)
        } else if f.code == 0x4000 {
            self.skip_if(vx != f.nn)
        } else if f.code == 0x5000 {
            self.skip_if(vx == vy)
        } else if f.code == 0x6000 {
            self.with_register(x, f.nn as u8)
        } else if f.code == 0x7000 {
            self.with_register(x, ((vx + f.nn) % 256) as u8)
        } else if f.code == 0x8000 {
            self.alu(x, y, f.n)
        } else if f.code == 0x9000 {
            self.skip_if(vx != vy)
        } else if f.code == 0xA000 {
            self.with_index(f.nnn as int)
        } else if f.code == 0xB000 {
            self.with_pc(f.nnn + self.registers[0])
        } else if f.code == 0xC000 {
            self.with_register(x, (f.nn as u8) & random)
        } else if f.code == 0xD000 {
            self.draw(x, y, f.n)
        } else if f.code == 0xE000 {
            if f.nn == 0x9E {
                self.skip_if(key_down(keys, vx))
            } else {
                self.skip_if(!key_down(keys, vx))
            }
        } else {
            self.misc(x, f.nn)
        }
    }

    /// The state after the instruction word `instr` was dispatched. An
    /// unrecognized word changes nothing. A defect stops
    /// the machine and the instruction has no effect. The key wait leaves the
    /// machine waiting.
    pub open spec fn dispatched(self, instr: u16, keys: Seq<bool>, random: u8) -> Machine {
        if !recognized(instr) {
            self
        } else if self.fault_of(instr) is Some {
            Machine { fault: self.fault_of(instr), ..self }
        } else if waits_for_key(instr) {
            Machine { waiting: Some(fields_of(instr).x), ..self }
        } else {
            self.executed(instr, keys, random)
        }
    }

    /// What the dispatch of `instr`, fetched from `address`, reports.
    pub open spec fn dispatch_status(self, instr: u16, address: usize) -> Status {
        if !recognized(instr) {
            Status::DecodeMiss { opcode: instr, address }
        } else if self.fault_of(instr) is Some {
            Status::Halted(self.fault_of(instr).unwrap())
        } else if waits_for_key(instr) {
            Status::AwaitingKey { register: fields_of(instr).x }
        } else {
            Status::Executed
        }
    }

    // ----- step and cycle -----

    /// The state after one fetch, decode and dispatch. Where memory holds no
    /// whole word at the program counter the machine stops and nothing is
    /// read.
    pub open spec fn stepped(self, keys: Seq<bool>, random: u8) -> Machine {
        if !self.can_fetch() {
            Machine { fault: Some(Fault::ProgramCounter), ..self }
        } else {
            self.with_pc(self.pc + 2).dispatched(self.fetched(), keys, random)
        }
    }

    /// What that step reports.
    pub open spec fn step_status(self) -> Status {
        if !self.can_fetch() {
            Status::Halted(Fault::ProgramCounter)
        } else {
            self.with_pc(self.pc + 2).dispatch_status(self.fetched(), self.pc)
        }
    }

    /// Whether a cycle does anything: not once the machine has stopped, and
    /// not while it waits for a key.
    pub open spec fn running(self) -> bool {
        self.fault is None && self.waiting is None
    }

    /// The state at the start of the instruction part of a cycle at `t`: the
    /// display flags are lowered and the timers have had their part.
    pub open spec fn cycle_started(self, t: u128) -> Machine {
        Machine { display_update_flag: false, display_clear_flag: false, ..self }.after_timers(t)
    }

    /// The state after one cycle at time `t`. The timer gate and the
    /// instruction gate are both judged by `t`, each on its own.
    pub open spec fn cycled(self, t: u128, keys: Seq<bool>, random: u8) -> Machine {
        if !self.running() {
            self
        } else if !self.cycle_started(t).instruction_due(t) {
            self.cycle_started(t)
        } else {
            Machine { last_instruction_t: t, ..self.cycle_started(t).stepped(keys, random) }
        }
    }

    /// What that cycle reports.
    pub open spec fn cycle_status(self, t: u128) -> Status {
        if self.fault is Some {
            Status::Halted(self.fault.unwrap())
        } else if self.waiting is Some {
            Status::AwaitingKey { register: self.waiting.unwrap() }
        } else if !self.cycle_started(t).instruction_due(t) {
            Status::Idle
        } else {
            self.cycle_started(t).step_status()
        }
    }

    // ----- the key wait -----

    /// The state after the host reported a key press: a waiting machine
    /// stores the logical id of a key of the layout and runs again; a
    /// terminate key, a key outside the layout, or a press that nothing waits
    /// for changes nothing.
    pub open spec fn key_pressed(self, key: Key) -> Machine {
        if self.waiting is Some && !is_terminate_key(key) && logical_key(key) is Some {
            Machine {
                registers: self.registers.update(
                    self.waiting.unwrap() as int,
                    logical_key(key).unwrap(),
                ),
                waiting: None,
                ..self
            }
        } else {
            self
        }
    }

    /// What that key press reports.
    pub open spec fn key_wait(self, key: Key) -> KeyWait {
        if self.waiting is None {
            KeyWait::Ignored
        } else if is_terminate_key(key) {
            KeyWait::Terminate
        } else if logical_key(key) is Some {
            KeyWait::Stored(logical_key(key).unwrap())
        } else {
            KeyWait::Ignored
        }
    }

    // ----- the invariant is kept -----

    /// Drawing keeps every framebuffer cell at 0 or 1.
    pub proof fn lemma_draw_wf(self, x: int, y: int, n: u16)
        requires
            self.wf(),
        ensures
            self.draw(x, y, n).wf(),
    {
    }

    /// An instruction that is executed keeps the invariant.
    pub proof fn lemma_executed_wf(self, instr: u16, keys: Seq<bool>, random: u8)
        requires
            self.wf(),
            recognized(instr),
            self.fault_of(instr) is None,
        ensures
            self.executed(instr, keys, random).wf(),
    {
        let f = fields_of(instr);
        if f.code == 0xD000 {
            self.lemma_draw_wf(f.x as int, f.y as int, f.n);
        }
    }
}

} // verus!
