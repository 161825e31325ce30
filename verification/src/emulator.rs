//! The execution engine: the machine state in memory and the cycle that
//! advances it.

use vstd::prelude::*;

use crate::decoder::decode;
use crate::keyboard::{terminates, unmap, Key};
use crate::machine::{
    blitted, collides, elapsed, initial_ram, key_down, recognized, sprite_covers, toggled,
    waits_for_key, Fault, KeyWait, Machine, Status, FLAG, TIMER_INTERVAL_NS,
};
use crate::{
    DISPLAY_HEIGHT, DISPLAY_LEN, DISPLAY_WIDTH, FONT_LEN, NUM_REGISTERS, PROGRAM_LOC, RAM_SIZE,
    STACK_SIZE,
};

verus! {

/// Whether the sprite covers cell `i` with a bit that the drawing loop has
/// passed when it is about to draw column `c` of sprite row `r`.
spec fn covered_before(
    ram: Seq<u8>,
    index: int,
    xpos: int,
    ypos: int,
    n: int,
    i: int,
    r: int,
    c: int,
) -> bool {
    let row = i / (DISPLAY_WIDTH as int) - ypos;
    let col = i % (DISPLAY_WIDTH as int) - xpos;
    sprite_covers(ram, index, xpos, ypos, n, i) && (row < r || (row == r && col < c))
}

/// Draws the sprite of `n` rows at `index` into the framebuffer, clipped at
/// the right and the bottom edge, and tells whether a lit cell went off.
fn blit(
    display: &mut [u8; DISPLAY_LEN],
    ram: &[u8; RAM_SIZE],
    index: u16,
    xpos: usize,
    ypos: usize,
    n: u16,
) -> (hit: bool)
    requires
        xpos < DISPLAY_WIDTH,
        ypos < DISPLAY_HEIGHT,
        n < 16,
        0 < n <= DISPLAY_HEIGHT - ypos ==> index + n <= RAM_SIZE,
        n > DISPLAY_HEIGHT - ypos ==> index + (DISPLAY_HEIGHT - ypos) <= RAM_SIZE,
        forall|i: int| 0 <= i < DISPLAY_LEN ==> #[trigger] old(display)@[i] <= 1,
    ensures
        final(display)@ == blitted(
            old(display)@,
            ram@,
            index as int,
            xpos as int,
            ypos as int,
            n as int,
        ),
        hit == collides(old(display)@, ram@, index as int, xpos as int, ypos as int, n as int),
        forall|i: int| 0 <= i < DISPLAY_LEN ==> #[trigger] final(display)@[i] <= 1,
{
    let ghost before = display@;
    let rows: usize = if (n as usize) <= DISPLAY_HEIGHT - ypos {
        n as usize
    } else {
        DISPLAY_HEIGHT - ypos
    };
    let cols: usize = if 8 <= DISPLAY_WIDTH - xpos {
        8
    } else {
        DISPLAY_WIDTH - xpos
    };
    let mut hit = false;
    let mut row: usize = 0;
    while row < rows
        invariant
            row <= rows,
            xpos < DISPLAY_WIDTH,
            ypos < DISPLAY_HEIGHT,
            rows <= n < 16,
            rows <= DISPLAY_HEIGHT - ypos,
            rows == n || rows == DISPLAY_HEIGHT - ypos,
            cols <= 8,
            cols <= DISPLAY_WIDTH - xpos,
            cols == 8 || cols == DISPLAY_WIDTH - xpos,
            rows > 0 ==> index + rows <= RAM_SIZE,
            forall|i: int|
                0 <= i < DISPLAY_LEN ==> #[trigger] display@[i] == (if covered_before(
                    ram@,
                    index as int,
                    xpos as int,
                    ypos as int,
                    n as int,
                    i,
                    row as int,
                    0,
                ) {
                    toggled(before[i])
                } else {
                    before[i]
                }),
            hit ==> collides(before, ram@, index as int, xpos as int, ypos as int, n as int),
            !hit ==> forall|i: int|
                #[trigger] covered_before(
                    ram@,
                    index as int,
                    xpos as int,
                    ypos as int,
                    n as int,
                    i,
                    row as int,
                    0,
                ) ==> before[i] == 0,
        decreases rows - row,
    {
        let bits: u8 = ram[index as usize + row];
        let mut col: usize = 0;
        while col < cols
            invariant
                col <= cols,
                row < rows,
                xpos < DISPLAY_WIDTH,
                ypos < DISPLAY_HEIGHT,
                rows <= n < 16,
                rows <= DISPLAY_HEIGHT - ypos,
                cols <= 8,
                cols <= DISPLAY_WIDTH - xpos,
                rows > 0 ==> index + rows <= RAM_SIZE,
                bits == ram@[index + row],
                forall|i: int|
                    0 <= i < DISPLAY_LEN ==> #[trigger] display@[i] == (if covered_before(
                        ram@,
                        index as int,
                        xpos as int,
                        ypos as int,
                        n as int,
                        i,
                        row as int,
                        col as int,
                    ) {
                        toggled(before[i])
                    } else {
                        before[i]
                    }),
                hit ==> collides(before, ram@, index as int, xpos as int, ypos as int, n as int),
                !hit ==> forall|i: int|
                    #[trigger] covered_before(
                        ram@,
                        index as int,
                        xpos as int,
                        ypos as int,
                        n as int,
                        i,
                        row as int,
                        col as int,
                    ) ==> before[i] == 0,
            decreases cols - col,
        {
            let cell: usize = (ypos + row) * DISPLAY_WIDTH + xpos + col;
            assert(cell as int / 64 == ypos + row && cell as int % 64 == xpos + col);
            let ghost shown = display@;
            if bits & (0x80u8 >> (col as u8)) != 0 {
                assert(sprite_covers(
                    ram@,
                    index as int,
                    xpos as int,
                    ypos as int,
                    n as int,
                    cell as int,
                ));
                if display[cell] > 0 {
                    display[cell] = 0;
                    hit = true;
                } else {
                    display[cell] = 1;
                }
            }
            assert forall|i: int| 0 <= i < DISPLAY_LEN implies #[trigger] display@[i] == (
            if covered_before(
                ram@,
                index as int,
                xpos as int,
                ypos as int,
                n as int,
                i,
                row as int,
                col + 1,
            ) {
                toggled(before[i])
            } else {
                before[i]
            }) by {
                if i != cell {
                    assert(i / 64 != ypos + row || i % 64 != xpos + col);
                    assert(display@[i] == shown[i]);
                }
            }
            assert(!hit ==> forall|i: int|
                #[trigger] covered_before(
                    ram@,
                    index as int,
                    xpos as int,
                    ypos as int,
                    n as int,
                    i,
                    row as int,
                    col + 1,
                ) ==> before[i] == 0) by {
                if !hit {
                    assert forall|i: int|
                        #[trigger] covered_before(
                            ram@,
                            index as int,
                            xpos as int,
                            ypos as int,
                            n as int,
                            i,
                            row as int,
                            col + 1,
                        ) implies before[i] == 0 by {
                        if i != cell {
                            assert(i / 64 != ypos + row || i % 64 != xpos + col);
                            assert(covered_before(
                                ram@,
                                index as int,
                                xpos as int,
                                ypos as int,
                                n as int,
                                i,
                                row as int,
                                col as int,
                            ));
                        }
                    }
                }
            }
            col += 1;
        }
        assert forall|i: int|
            covered_before(
                ram@,
                index as int,
                xpos as int,
                ypos as int,
                n as int,
                i,
                row as int,
                cols as int,
            ) == #[trigger] covered_before(
                ram@,
                index as int,
                xpos as int,
                ypos as int,
                n as int,
                i,
                row + 1,
                0,
            ) by {}
        row += 1;
    }
    assert forall|i: int|
        covered_before(ram@, index as int, xpos as int, ypos as int, n as int, i, rows as int, 0)
            == #[trigger] sprite_covers(ram@, index as int, xpos as int, ypos as int, n as int, i) by {}
    hit
}

/// The nanoseconds between two instructions at `ips` instructions a second.
pub fn instruction_interval(ips: u32) -> (ns: u128)
    requires
        ips > 0,
    ensures
        ns == 1_000_000_000int / (ips as int),
{
    1_000_000_000u128 / (ips as u128)
}

/// A CHIP-8 machine.
pub struct Chip8 {
    /// The registers V0 to VF.
    pub registers: [u8; NUM_REGISTERS],
    /// The index register.
    pub index: u16,
    /// Memory.
    pub ram: [u8; RAM_SIZE],
    /// The call stack. Slot 0 is never written.
    pub stack: [u16; STACK_SIZE],
    /// Index of the top of the stack.
    pub istack: usize,
    /// The program counter.
    pub pc: usize,
    /// The delay timer.
    pub dt: u8,
    /// The sound timer.
    pub st: u8,
    /// The framebuffer, row by row; a cell is 1 when lit and 0 when dark.
    pub display: [u8; DISPLAY_LEN],
    /// Raised by a cycle that drew a sprite.
    pub display_update_flag: bool,
    /// Raised by a cycle that cleared the framebuffer.
    pub display_clear_flag: bool,
    /// Whether the tone is on.
    pub beep_flag: bool,
    /// The register that awaits a key press, while the machine waits for one.
    pub waiting: Option<usize>,
    /// The defect that stopped the machine, once it has stopped.
    pub fault: Option<Fault>,
    /// Nanoseconds between two instructions.
    pub instruction_time_ns: u128,
    /// Whether the host runs the machine step by step.
    pub debug_mode: bool,
    /// Time of the last timer tick.
    pub last_timer_t: u128,
    /// Time of the last instruction.
    pub last_instruction_t: u128,
}

impl View for Chip8 {
    type V = Machine;

    open spec fn view(&self) -> Machine {
        Machine {
            registers: self.registers@,
            index: self.index,
            ram: self.ram@,
            stack: self.stack@,
            istack: self.istack,
            pc: self.pc,
            dt: self.dt,
            st: self.st,
            display: self.display@,
            display_update_flag: self.display_update_flag,
            display_clear_flag: self.display_clear_flag,
            beep_flag: self.beep_flag,
            waiting: self.waiting,
            fault: self.fault,
            instruction_time_ns: self.instruction_time_ns,
            debug_mode: self.debug_mode,
            last_timer_t: self.last_timer_t,
            last_instruction_t: self.last_instruction_t,
        }
    }
}

impl Chip8 {
    /// The invariant of the machine; see [`Machine::wf`].
    pub open spec fn wf(&self) -> bool {
        self@.wf()
    }

    /// Whether the invariant holds: for a host that has written to the
    /// fields of the machine and is about to run it.
    pub fn is_well_formed(&self) -> (ok: bool)
        ensures
            ok == self.wf(),
    {
        if self.istack >= STACK_SIZE {
            return false;
        }
        if let Some(register) = self.waiting {
            if register >= NUM_REGISTERS {
                return false;
            }
        }
        let mut i: usize = 0;
        while i < DISPLAY_LEN
            invariant
                i <= DISPLAY_LEN,
                forall|j: int| 0 <= j < i ==> #[trigger] self.display@[j] <= 1,
            decreases DISPLAY_LEN - i,
        {
            if self.display[i] > 1 {
                return false;
            }
            i += 1;
        }
        true
    }

    /// A machine with the glyph table at address 0 and the program image at
    /// 0x200, about to execute the first instruction of the image.
    pub fn new(
        rom: Vec<u8>,
        fonts: [u8; FONT_LEN],
        start_t: u128,
        instruction_time_ns: u128,
        debug_mode: bool,
    ) -> (chip8: Self)
        requires
            rom.len() <= RAM_SIZE - PROGRAM_LOC,
        ensures
            chip8.wf(),
            chip8@ == Machine::initial(rom@, fonts@, start_t, instruction_time_ns, debug_mode),
    {
        let mut ram: [u8; RAM_SIZE] = [0; RAM_SIZE];
        let mut i: usize = 0;
        while i < FONT_LEN
            invariant
                i <= FONT_LEN,
                forall|j: int| 0 <= j < i ==> ram@[j] == fonts@[j],
                forall|j: int| i <= j < RAM_SIZE ==> ram@[j] == 0,
            decreases FONT_LEN - i,
        {
            ram[i] = fonts[i];
            i += 1;
        }
        let bytes: usize = rom.len();
        let mut k: usize = 0;
        while k < bytes
            invariant
                k <= bytes,
                bytes == rom.len(),
                bytes <= RAM_SIZE - PROGRAM_LOC,
                forall|j: int| 0 <= j < FONT_LEN ==> ram@[j] == fonts@[j],
                forall|j: int| FONT_LEN <= j < PROGRAM_LOC ==> ram@[j] == 0,
                forall|j: int| PROGRAM_LOC <= j < PROGRAM_LOC + k ==> ram@[j] == rom@[j - 0x200],
                forall|j: int| PROGRAM_LOC + k <= j < RAM_SIZE ==> ram@[j] == 0,
            decreases bytes - k,
        {
            ram[PROGRAM_LOC + k] = rom[k];
            k += 1;
        }
        let chip8 = Chip8 {
            ram,
            registers: [0; NUM_REGISTERS],
            index: 0,
            stack: [0; STACK_SIZE],
            istack: 0,
            pc: PROGRAM_LOC,
            dt: 0,
            st: 0,
            display: [0; DISPLAY_LEN],
            display_update_flag: false,
            display_clear_flag: false,
            beep_flag: false,
            waiting: None,
            fault: None,
            instruction_time_ns,
            debug_mode,
            last_timer_t: start_t,
            last_instruction_t: start_t,
        };
        assert(chip8@.ram =~= initial_ram(rom@, fonts@));
        assert(chip8@ =~= Machine::initial(
            rom@,
            fonts@,
            start_t,
            instruction_time_ns,
            debug_mode,
        ));
        chip8
    }

    /// Moves the program counter to `target`.
    fn jump(&mut self, target: usize)
        ensures
            final(self)@ == old(self)@.with_pc(target as int),
    {
        self.pc = target;
    }

    /// Writes `v` to the index register.
    fn point(&mut self, v: u16)
        ensures
            final(self)@ == old(self)@.with_index(v as int),
    {
        self.index = v;
    }

    /// Writes `v` to register `x`.
    fn put(&mut self, x: usize, v: u8)
        requires
            x < NUM_REGISTERS,
        ensures
            final(self)@ == old(self)@.with_register(x as int, v),
    {
        self.registers[x] = v;
    }

    /// 8XY4: add with carry.
    fn add_carry(&mut self, x: usize, y: usize)
        requires
            x < NUM_REGISTERS,
            y < NUM_REGISTERS,
        ensures
            final(self)@ == old(self)@.add_carry(x as int, y as int),
    {
        let a: u8 = self.registers[x];
        let b: u8 = self.registers[y];
        let carry: u8 = if a as u16 + b as u16 > 255 {
            1
        } else {
            0
        };
        self.put(FLAG, carry);
        self.put(x, a.wrapping_add(b));
    }

    /// 8XY5: subtract VY from VX.
    fn sub_borrow(&mut self, x: usize, y: usize)
        requires
            x < NUM_REGISTERS,
            y < NUM_REGISTERS,
        ensures
            final(self)@ == old(self)@.sub_borrow(x as int, y as int),
    {
        let a: u8 = self.registers[x];
        let b: u8 = self.registers[y];
        self.put(FLAG, if a > b { 1 } else { 0 });
        self.put(x, a.wrapping_sub(b));
    }

    /// 8XY6: shift VX right by one bit.
    fn shift_right(&mut self, x: usize)
        requires
            x < NUM_REGISTERS,
        ensures
            final(self)@ == old(self)@.shift_right(x as int),
    {
        let a: u8 = self.registers[x];
        assert(a & 0x01 == a % 2) by (bit_vector);
        self.put(FLAG, a & 0x01);
        self.put(x, a / 2);
    }

    /// 8XY7: subtract VX from VY.
    fn sub_reverse(&mut self, x: usize, y: usize)
        requires
            x < NUM_REGISTERS,
            y < NUM_REGISTERS,
        ensures
            final(self)@ == old(self)@.sub_reverse(x as int, y as int),
    {
        let a: u8 = self.registers[x];
        let b: u8 = self.registers[y];
        self.put(FLAG, if b > a { 1 } else { 0 });
        self.put(x, b.wrapping_sub(a));
    }

    /// 8XYE: shift VX left by one bit.
    fn shift_left(&mut self, x: usize)
        requires
            x < NUM_REGISTERS,
        ensures
            final(self)@ == old(self)@.shift_left(x as int),
    {
        let a: u8 = self.registers[x];
        assert(a >> 7 == a / 0x80) by (bit_vector);
        self.put(FLAG, a >> 7);
        self.put(x, a.wrapping_add(a));
    }

    /// 8XYN: the register operations on VX and VY.
    fn alu(&mut self, x: usize, y: usize, n: u16)
        requires
            x < NUM_REGISTERS,
            y < NUM_REGISTERS,
        ensures
            final(self)@ == old(self)@.alu(x as int, y as int, n),
    {
        let a: u8 = self.registers[x];
        let b: u8 = self.registers[y];
        match n {
            0x00 => self.put(x, b),
            0x01 => self.put(x, a | b),
            0x02 => self.put(x, a & b),
            0x03 => self.put(x, a ^ b),
            0x04 => self.add_carry(x, y),
            0x05 => self.sub_borrow(x, y),
            0x06 => self.shift_right(x),
            0x07 => self.sub_reverse(x, y),
            0x0E => self.shift_left(x),
            _ => {},
        }
    }

    /// Moves the program counter past the next instruction if `cond` holds.
    fn skip_if(&mut self, cond: bool)
        requires
            old(self).pc <= RAM_SIZE,
        ensures
            final(self)@ == old(self)@.skip_if(cond),
    {
        if cond {
            self.jump(self.pc + 2);
        }
    }

    /// 00E0: clear the framebuffer.
    fn cls(&mut self)
        ensures
            final(self)@ == old(self)@.cls(),
    {
        self.display = [0; DISPLAY_LEN];
        self.display_clear_flag = true;
    }

    /// 00EE: return from a subroutine.
    fn ret(&mut self)
        requires
            old(self).istack < STACK_SIZE,
        ensures
            final(self)@ == old(self)@.ret(),
    {
        self.pc = self.stack[self.istack] as usize;
        if self.istack > 0 {
            self.istack -= 1;
        }
    }

    /// 2NNN: call the subroutine at `nnn`.
    fn call(&mut self, nnn: u16)
        requires
            old(self).istack + 1 < STACK_SIZE,
            old(self).pc <= RAM_SIZE,
        ensures
            final(self)@ == old(self)@.call(nnn),
    {
        self.istack += 1;
        self.stack[self.istack] = self.pc as u16;
        self.pc = nnn as usize;
    }

    /// DXYN: draw the sprite at the index register.
    fn draw(&mut self, x: usize, y: usize, n: u16)
        requires
            old(self).wf(),
            x < NUM_REGISTERS,
            y < NUM_REGISTERS,
            n < 16,
            old(self)@.sprite_rows(y as int, n) == 0 || old(self).index + old(self)@.sprite_rows(
                y as int,
                n,
            ) <= RAM_SIZE,
        ensures
            final(self)@ == old(self)@.draw(x as int, y as int, n),
            final(self).wf(),
    {
        self.registers[FLAG] = 0;
        let xpos: usize = self.registers[x] as usize % DISPLAY_WIDTH;
        let ypos: usize = self.registers[y] as usize % DISPLAY_HEIGHT;
        let hit = blit(&mut self.display, &self.ram, self.index, xpos, ypos, n);
        if hit {
            self.registers[FLAG] = 1;
        }
        self.display_update_flag = true;
    }

    /// FX33: store the decimal digits of VX.
    fn bcd(&mut self, x: usize)
        requires
            x < NUM_REGISTERS,
            old(self).index + 2 < RAM_SIZE,
        ensures
            final(self)@ == old(self)@.bcd(x as int),
    {
        let num: u8 = self.registers[x];
        let h: u8 = num / 100;
        let t: u8 = (num - h * 100) / 10;
        let o: u8 = num - h * 100 - t * 10;
        let i: usize = self.index as usize;
        self.ram[i] = h;
        self.ram[i + 1] = t;
        self.ram[i + 2] = o;
    }

    /// FX55: store V0 to VX in memory.
    fn store_registers(&mut self, x: usize)
        requires
            x < NUM_REGISTERS,
            old(self).index + x < RAM_SIZE,
        ensures
            final(self)@ == old(self)@.store_registers(x as int),
    {
        let base: usize = self.index as usize;
        let mut reg: usize = 0;
        while reg < x + 1
            invariant
                reg <= x + 1,
                x < NUM_REGISTERS,
                base == self.index,
                base + x < RAM_SIZE,
                forall|i: int|
                    0 <= i < RAM_SIZE ==> #[trigger] self.ram@[i] == (if base <= i < base + reg {
                        self.registers@[i - base]
                    } else {
                        old(self).ram@[i]
                    }),
                self@ == (Machine { ram: self@.ram, ..old(self)@ }),
            decreases x + 1 - reg,
        {
            self.ram[base + reg] = self.registers[reg];
            reg += 1;
        }
    }

    /// FX65: load V0 to VX from memory.
    fn load_registers(&mut self, x: usize)
        requires
            x < NUM_REGISTERS,
            old(self).index + x < RAM_SIZE,
        ensures
            final(self)@ == old(self)@.load_registers(x as int),
    {
        let base: usize = self.index as usize;
        let mut reg: usize = 0;
        while reg < x + 1
            invariant
                reg <= x + 1,
                x < NUM_REGISTERS,
                base == self.index,
                base + x < RAM_SIZE,
                forall|i: int|
                    0 <= i < NUM_REGISTERS ==> #[trigger] self.registers@[i] == (if i < reg {
                        self.ram@[base + i]
                    } else {
                        old(self).registers@[i]
                    }),
                self@ == (Machine { registers: self@.registers, ..old(self)@ }),
            decreases x + 1 - reg,
        {
            self.registers[reg] = self.ram[base + reg];
            reg += 1;
        }
    }

    /// FXNN: the timer, index and memory instructions, but for the key wait.
    fn misc(&mut self, x: usize, nn: u16)
        requires
            x < NUM_REGISTERS,
            nn == 0x33 ==> old(self).index + 2 < RAM_SIZE,
            nn == 0x55 || nn == 0x65 ==> old(self).index + x < RAM_SIZE,
        ensures
            final(self)@ == old(self)@.misc(x as int, nn),
    {
        match nn {
            0x07 => {
                let dt: u8 = self.dt;
                self.put(x, dt);
            },
            0x15 => {
                self.dt = self.registers[x];
            },
            0x18 => {
                self.st = self.registers[x];
            },
            0x1E => {
                let sum: u16 = self.index.wrapping_add(self.registers[x] as u16);
                self.point(sum);
            },
            0x29 => self.point(self.registers[x] as u16 * 0x05),
            0x33 => self.bcd(x),
            0x55 => self.store_registers(x),
            0x65 => self.load_registers(x),
            _ => {},
        }
    }

    /// Whether the key with logical id `v` is down in the snapshot.
    fn key_is_down(keys: &[bool; 16], v: u8) -> (down: bool)
        ensures
            down == key_down(keys@, v),
    {
        v < 16 && keys[v as usize]
    }

    /// Whether `instr` is one of the instructions of the machine.
    pub fn recognizes(instr: u16) -> (known: bool)
        ensures
            known == recognized(instr),
    {
        let f = decode(instr);
        match f.code {
            0x0000 => instr == 0x00E0 || instr == 0x00EE,
            0x5000 => f.n == 0,
            0x9000 => f.n == 0,
            0x8000 => f.n <= 7 || f.n == 0x0E,
            0xE000 => f.nn == 0x9E || f.nn == 0xA1,
            0xF000 => f.nn == 0x07 || f.nn == 0x0A || f.nn == 0x15 || f.nn == 0x18 || f.nn
                == 0x1E || f.nn == 0x29 || f.nn == 0x33 || f.nn == 0x55 || f.nn == 0x65,
            _ => true,
        }
    }

    /// The defect, if any, that keeps `instr` from being executed in this
    /// state.
    pub fn fault_of(&self, instr: u16) -> (fault: Option<Fault>)
        ensures
            fault == self@.fault_of(instr),
    {
        let f = decode(instr);
        if f.code == 0x2000 {
            if self.istack >= STACK_SIZE - 1 {
                return Some(Fault::StackOverflow);
            }
        } else if f.code == 0xD000 {
            let vy: u8 = if f.y == FLAG {
                0
            } else {
                self.registers[f.y]
            };
            let ypos: usize = vy as usize % DISPLAY_HEIGHT;
            let rows: usize = if (f.n as usize) <= DISPLAY_HEIGHT - ypos {
                f.n as usize
            } else {
                DISPLAY_HEIGHT - ypos
            };
            if rows > 0 && self.index as usize + rows > RAM_SIZE {
                return Some(Fault::MemoryAccess);
            }
        } else if f.code == 0xF000 {
            if f.nn == 0x33 && self.index as usize + 2 >= RAM_SIZE {
                return Some(Fault::MemoryAccess);
            }
            if (f.nn == 0x55 || f.nn == 0x65) && self.index as usize + f.x >= RAM_SIZE {
                return Some(Fault::MemoryAccess);
            }
        }
        None
    }

    /// Executes a recognized instruction that meets no defect and does not
    /// wait for a key.
    fn execute(&mut self, keys: &[bool; 16], random: u8, instr: u16)
        requires
            old(self).wf(),
            old(self).pc <= RAM_SIZE,
            recognized(instr),
            old(self)@.fault_of(instr) is None,
            !waits_for_key(instr),
        ensures
            final(self)@ == old(self)@.executed(instr, keys@, random),
            final(self).wf(),
    {
        proof {
            old(self)@.lemma_executed_wf(instr, keys@, random);
        }
        let f = decode(instr);
        let x: usize = f.x;
        let y: usize = f.y;
        match f.code {
            0x0000 => {
                if instr == 0x00E0 {
                    self.cls();
                } else {
                    self.ret();
                }
            },
            0x1000 => self.jump(f.nnn as usize),
            0x2000 => self.call(f.nnn),
            0x3000 => {
                let hit = self.registers[x] as u16 == f.nn;
                self.skip_if(hit);
            },
            0x4000 => {
                let hit = self.registers[x] as u16 != f.nn;
                self.skip_if(hit);
            },
            0x5000 => {
                let hit = self.registers[x] == self.registers[y];
                self.skip_if(hit);
            },
            0x6000 => self.put(x, f.nn as u8),
            0x7000 => {
                let v: u8 = self.registers[x];
                self.put(x, v.wrapping_add(f.nn as u8));
            },
            0x8000 => self.alu(x, y, f.n),
            0x9000 => {
                let hit = self.registers[x] != self.registers[y];
                self.skip_if(hit);
            },
            0xA000 => self.point(f.nnn),
            0xB000 => self.jump(f.nnn as usize + self.registers[0] as usize),
            0xC000 => self.put(x, f.nn as u8 & random),
            0xD000 => self.draw(x, y, f.n),
            0xE000 => {
                let down = Self::key_is_down(keys, self.registers[x]);
                if f.nn == 0x9E {
                    self.skip_if(down);
                } else {
                    self.skip_if(!down);
                }
            },
            _ => self.misc(x, f.nn),
        }
    }

    /// Dispatches the instruction word `instr`, fetched from `address`: an
    /// unrecognized word is reported and changes nothing, a defect stops the
    /// machine, the key wait leaves it waiting, and every other instruction
    /// is executed.
    fn interpret(&mut self, keys: &[bool; 16], random: u8, instr: u16, address: usize) -> (status:
        Status)
        requires
            old(self).wf(),
            old(self).pc <= RAM_SIZE,
        ensures
            final(self)@ == old(self)@.dispatched(instr, keys@, random),
            status == old(self)@.dispatch_status(instr, address),
            final(self).wf(),
    {
        if !Self::recognizes(instr) {
            return Status::DecodeMiss { opcode: instr, address };
        }
        if let Some(fault) = self.fault_of(instr) {
            self.fault = Some(fault);
            return Status::Halted(fault);
        }
        let f = decode(instr);
        if f.code == 0xF000 && f.nn == 0x0A {
            self.waiting = Some(f.x);
            return Status::AwaitingKey { register: f.x };
        }
        self.execute(keys, random, instr);
        Status::Executed
    }

    /// Whether more than `interval` nanoseconds lie between `last` and `t`.
    /// A `t` before `last` is no time elapsed.
    fn has_elapsed(last: u128, t: u128, interval: u128) -> (due: bool)
        ensures
            due == elapsed(last, t, interval),
    {
        t > last && t - last > interval
    }

    /// Whether a cycle at `t` would execute an instruction, were the machine
    /// running.
    pub fn instruction_due(&self, t: u128) -> (due: bool)
        ensures
            due == self@.instruction_due(t),
    {
        Self::has_elapsed(self.last_instruction_t, t, self.instruction_time_ns)
    }

    /// The instruction word at the program counter, or `None` where memory
    /// holds no whole word there. Nothing outside memory is read.
    pub fn peek(&self) -> (word: Option<u16>)
        ensures
            word == (if self@.can_fetch() {
                Some(self@.fetched())
            } else {
                None
            }),
    {
        if self.pc > RAM_SIZE - 2 {
            None
        } else {
            let high: u16 = self.ram[self.pc] as u16;
            let low: u16 = self.ram[self.pc + 1] as u16;
            assert((high << 8) | low == high * 0x100 + low) by (bit_vector)
                requires
                    high < 0x100,
                    low < 0x100,
            ;
            Some((high << 8) | low)
        }
    }

    /// The timer part of a cycle: where more than a sixtieth of a second has
    /// passed since the last tick, both timers go down by one, not below
    /// zero. The tone is on while the sound timer is not zero.
    fn run_timers(&mut self, t: u128)
        ensures
            final(self)@ == old(self)@.after_timers(t),
    {
        if Self::has_elapsed(self.last_timer_t, t, TIMER_INTERVAL_NS) {
            if self.dt > 0 {
                self.dt -= 1;
            }
            if self.st > 0 {
                self.st -= 1;
            }
            self.last_timer_t = t;
        }
        self.beep_flag = self.st > 0;
    }

    /// Fetches the instruction at the program counter, advances the counter
    /// by two and dispatches the instruction. A program counter that leaves
    /// no room for an instruction word stops the machine.
    pub fn step(&mut self, keys: &[bool; 16], random: u8) -> (status: Status)
        requires
            old(self).wf(),
        ensures
            final(self)@ == old(self)@.stepped(keys@, random),
            status == old(self)@.step_status(),
            final(self).wf(),
    {
        match self.peek() {
            None => {
                self.fault = Some(Fault::ProgramCounter);
                Status::Halted(Fault::ProgramCounter)
            },
            Some(instr) => {
                let address: usize = self.pc;
                self.pc += 2;
                self.interpret(keys, random, instr, address)
            },
        }
    }

    /// Runs one cycle at time `t`, a timestamp in nanoseconds.
    ///
    /// `keys` tells for each logical key id whether the key is down, and
    /// `random` is the random byte of this cycle. A machine that has stopped
    /// or waits for a key is left as it is. Otherwise the display flags are
    /// lowered, the timers have their tick if one is due, and one instruction
    /// is executed if one is due; both gates are judged by the same `t`.
    pub fn cycle(&mut self, t: u128, keys: &[bool; 16], random: u8) -> (status: Status)
        requires
            old(self).wf(),
        ensures
            final(self)@ == old(self)@.cycled(t, keys@, random),
            status == old(self)@.cycle_status(t),
            final(self).wf(),
    {
        if let Some(fault) = self.fault {
            return Status::Halted(fault);
        }
        if let Some(register) = self.waiting {
            return Status::AwaitingKey { register };
        }
        self.display_update_flag = false;
        self.display_clear_flag = false;
        self.run_timers(t);
        if self.instruction_due(t) {
            let status = self.step(keys, random);
            self.last_instruction_t = t;
            status
        } else {
            Status::Idle
        }
    }

    /// Tells the machine that `key` was pressed. A machine that waits for a
    /// key stores the logical id of a key of the layout in the waiting
    /// register and runs again. A terminate key is reported and changes
    /// nothing: to end the run is for the host.
    pub fn key_pressed(&mut self, key: Key) -> (outcome: KeyWait)
        requires
            old(self).wf(),
        ensures
            final(self)@ == old(self)@.key_pressed(key),
            outcome == old(self)@.key_wait(key),
            final(self).wf(),
    {
        match self.waiting {
            None => KeyWait::Ignored,
            Some(register) => {
                if terminates(key) {
                    KeyWait::Terminate
                } else {
                    match unmap(key) {
                        Some(code) => {
                            self.registers[register] = code;
                            self.waiting = None;
                            KeyWait::Stored(code)
                        },
                        None => KeyWait::Ignored,
                    }
                }
            },
        }
    }
}

} // verus!
