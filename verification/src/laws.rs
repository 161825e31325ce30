//! What holds of the instructions and of the timers, whatever the state.

use vstd::prelude::*;

use crate::decoder::fields_of;
use crate::machine::{collides, decay, decay_by, recognized, sprite_covers, Machine, Status, FLAG};
use crate::{NUM_REGISTERS, STACK_SIZE};

verus! {

/// 8XY4 leaves the sum of VX and VY modulo 256 in VX, and in VF 1 if the sum
/// is above 255 and 0 if it is not. Where VX is VF itself the register holds
/// the sum, and there is no flag.
pub proof fn lemma_add_sets_sum_and_carry(m: Machine, instr: u16, keys: Seq<bool>, random: u8)
    requires
        m.wf(),
        fields_of(instr).code == 0x8000,
        fields_of(instr).n == 4,
    ensures
        ({
            let x = fields_of(instr).x as int;
            let y = fields_of(instr).y as int;
            let a = m.registers[x];
            let b = m.registers[y];
            let after = m.executed(instr, keys, random);
            &&& after.registers[x] == (a + b) % 256
            &&& x != FLAG ==> after.registers[FLAG as int] == (if a + b > 255 {
                1int
            } else {
                0int
            })
            &&& forall|i: int|
                0 <= i < NUM_REGISTERS && i != x && i != FLAG ==> after.registers[i]
                    == m.registers[i]
        }),
{
}

/// 8XY5 leaves VX less VY modulo 256 in VX, and in VF 1 if and only if VX
/// was greater than VY, equal values giving 0. Where VX is VF itself the
/// register holds the difference, and there is no flag.
pub proof fn lemma_sub_sets_difference_and_flag(
    m: Machine,
    instr: u16,
    keys: Seq<bool>,
    random: u8,
)
    requires
        m.wf(),
        fields_of(instr).code == 0x8000,
        fields_of(instr).n == 5,
    ensures
        ({
            let x = fields_of(instr).x as int;
            let y = fields_of(instr).y as int;
            let a = m.registers[x];
            let b = m.registers[y];
            let after = m.executed(instr, keys, random);
            &&& after.registers[x] == (a - b) % 256
            &&& x != FLAG ==> (after.registers[FLAG as int] == 1 <==> a > b)
            &&& x != FLAG ==> (after.registers[FLAG as int] == 0 <==> a <= b)
            &&& forall|i: int|
                0 <= i < NUM_REGISTERS && i != x && i != FLAG ==> after.registers[i]
                    == m.registers[i]
        }),
{
}

/// 8XY7 leaves VY less VX modulo 256 in VX, and in VF 1 if and only if VY
/// was greater than VX. Where VX is VF itself the register holds the
/// difference, and there is no flag.
pub proof fn lemma_subn_sets_difference_and_flag(
    m: Machine,
    instr: u16,
    keys: Seq<bool>,
    random: u8,
)
    requires
        m.wf(),
        fields_of(instr).code == 0x8000,
        fields_of(instr).n == 7,
    ensures
        ({
            let x = fields_of(instr).x as int;
            let y = fields_of(instr).y as int;
            let a = m.registers[x];
            let b = m.registers[y];
            let after = m.executed(instr, keys, random);
            &&& after.registers[x] == (b - a) % 256
            &&& x != FLAG ==> (after.registers[FLAG as int] == 1 <==> b > a)
            &&& x != FLAG ==> (after.registers[FLAG as int] == 0 <==> b <= a)
            &&& forall|i: int|
                0 <= i < NUM_REGISTERS && i != x && i != FLAG ==> after.registers[i]
                    == m.registers[i]
        }),
{
}

/// 8XY6 leaves half of VX, rounded down, in VX, and the lowest bit of what
/// VX held in VF. Where VX is VF itself the register holds the half, and
/// there is no flag.
pub proof fn lemma_shr_sets_low_bit_and_half(m: Machine, instr: u16, keys: Seq<bool>, random: u8)
    requires
        m.wf(),
        fields_of(instr).code == 0x8000,
        fields_of(instr).n == 6,
    ensures
        ({
            let x = fields_of(instr).x as int;
            let a = m.registers[x];
            let after = m.executed(instr, keys, random);
            &&& after.registers[x] == a / 2
            &&& x != FLAG ==> after.registers[FLAG as int] == a % 2
            &&& forall|i: int|
                0 <= i < NUM_REGISTERS && i != x && i != FLAG ==> after.registers[i]
                    == m.registers[i]
        }),
{
}

/// 8XYE leaves the double of VX modulo 256 in VX, and the highest bit of
/// what VX held in VF: 1 if VX was 0x80 or more, and 0 if not. Where VX is
/// VF itself the register holds the double, and there is no flag.
pub proof fn lemma_shl_sets_high_bit_and_double(
    m: Machine,
    instr: u16,
    keys: Seq<bool>,
    random: u8,
)
    requires
        m.wf(),
        fields_of(instr).code == 0x8000,
        fields_of(instr).n == 0xE,
    ensures
        ({
            let x = fields_of(instr).x as int;
            let a = m.registers[x];
            let after = m.executed(instr, keys, random);
            &&& after.registers[x] == (a * 2) % 256
            &&& x != FLAG ==> after.registers[FLAG as int] == (if a >= 0x80 {
                1int
            } else {
                0int
            })
            &&& forall|i: int|
                0 <= i < NUM_REGISTERS && i != x && i != FLAG ==> after.registers[i]
                    == m.registers[i]
        }),
{
}

/// Drawing a sprite twice at the same place leaves the framebuffer as it
/// was, and the second drawing reports a collision exactly if the sprite has
/// a set bit over a cell that was dark before the first. So on a dark region
/// any sprite with a visible set bit collides the second time, and the
/// region is dark again. Neither position register may be VF, which each
/// drawing overwrites.
pub proof fn lemma_draw_twice_restores(m: Machine, x: int, y: int, n: u16)
    requires
        m.wf(),
        0 <= x < NUM_REGISTERS,
        0 <= y < NUM_REGISTERS,
        x != FLAG,
        y != FLAG,
    ensures
        m.draw(x, y, n).draw(x, y, n).display == m.display,
        m.draw(x, y, n).draw(x, y, n).registers[FLAG as int] == 1 <==> exists|i: int|
            #[trigger] sprite_covers(
                m.ram,
                m.index as int,
                m.sprite_x(x),
                m.sprite_y(y),
                n as int,
                i,
            ) && m.display[i] == 0,
{
    let once = m.draw(x, y, n);
    let twice = once.draw(x, y, n);
    let xpos = m.sprite_x(x);
    let ypos = m.sprite_y(y);
    let index = m.index as int;
    assert(once.sprite_x(x) == xpos && once.sprite_y(y) == ypos);
    assert(twice.display =~= m.display);
    if twice.registers[FLAG as int] == 1 {
        assert(collides(once.display, once.ram, index, xpos, ypos, n as int));
        let i = choose|i: int| #[trigger]
            sprite_covers(once.ram, index, xpos, ypos, n as int, i) && once.display[i] > 0;
        assert(sprite_covers(m.ram, index, xpos, ypos, n as int, i) && m.display[i] == 0);
    }
    if exists|i: int| #[trigger]
        sprite_covers(m.ram, index, xpos, ypos, n as int, i) && m.display[i] == 0 {
        let i = choose|i: int| #[trigger]
            sprite_covers(m.ram, index, xpos, ypos, n as int, i) && m.display[i] == 0;
        assert(sprite_covers(once.ram, index, xpos, ypos, n as int, i) && once.display[i] > 0);
    }
}

/// On a region that is dark wherever the sprite has a set bit, drawing the
/// sprite twice leaves the region dark again, and the second drawing reports
/// a collision if the sprite has a set bit on the screen at all.
pub proof fn lemma_draw_twice_on_dark_region(m: Machine, x: int, y: int, n: u16)
    requires
        m.wf(),
        0 <= x < NUM_REGISTERS,
        0 <= y < NUM_REGISTERS,
        x != FLAG,
        y != FLAG,
        forall|i: int|
            #[trigger] sprite_covers(
                m.ram,
                m.index as int,
                m.sprite_x(x),
                m.sprite_y(y),
                n as int,
                i,
            ) ==> m.display[i] == 0,
    ensures
        m.draw(x, y, n).registers[FLAG as int] == 0,
        forall|i: int|
            #[trigger] sprite_covers(
                m.ram,
                m.index as int,
                m.sprite_x(x),
                m.sprite_y(y),
                n as int,
                i,
            ) ==> m.draw(x, y, n).display[i] == 1 && m.draw(x, y, n).draw(x, y, n).display[i]
                == 0,
        (exists|i: int|
            #[trigger] sprite_covers(
                m.ram,
                m.index as int,
                m.sprite_x(x),
                m.sprite_y(y),
                n as int,
                i,
            )) ==> m.draw(x, y, n).draw(x, y, n).registers[FLAG as int] == 1,
{
    lemma_draw_twice_restores(m, x, y, n);
    if exists|i: int| #[trigger]
        sprite_covers(m.ram, m.index as int, m.sprite_x(x), m.sprite_y(y), n as int, i) {
        let i = choose|i: int| #[trigger]
            sprite_covers(m.ram, m.index as int, m.sprite_x(x), m.sprite_y(y), n as int, i);
        assert(sprite_covers(m.ram, m.index as int, m.sprite_x(x), m.sprite_y(y), n as int, i)
            && m.display[i] == 0);
    }
}

/// FX33 stores three decimal digits, each below ten, that spell VX: a
/// hundred times the first, ten times the second and the third add up to VX.
/// Nothing else in memory changes.
pub proof fn lemma_bcd_spells_value(m: Machine, x: int)
    requires
        m.wf(),
        0 <= x < NUM_REGISTERS,
        m.index + 2 < m.ram.len(),
    ensures
        ({
            let after = m.bcd(x);
            let i = m.index as int;
            &&& after.ram[i] < 10 && after.ram[i + 1] < 10 && after.ram[i + 2] < 10
            &&& after.ram[i] * 100 + after.ram[i + 1] * 10 + after.ram[i + 2] == m.registers[x]
            &&& forall|j: int|
                0 <= j < m.ram.len() && !(i <= j <= i + 2) ==> after.ram[j] == m.ram[j]
            &&& after.registers == m.registers
        }),
{
}

/// A call that is followed at once by a return brings the program counter
/// back to the instruction after the call, and the stack pointer to where it
/// was. The stack must have a free slot for the call.
pub proof fn lemma_call_then_return(
    m: Machine,
    keys: Seq<bool>,
    random: u8,
    keys_after: Seq<bool>,
    random_after: u8,
)
    requires
        m.wf(),
        m.can_fetch(),
        fields_of(m.fetched()).code == 0x2000,
        m.istack + 1 < STACK_SIZE,
        m.stepped(keys, random).can_fetch(),
        m.stepped(keys, random).fetched() == 0x00EE,
    ensures
        m.step_status() == Status::Executed,
        m.stepped(keys, random).pc == fields_of(m.fetched()).nnn,
        m.stepped(keys, random).step_status() == Status::Executed,
        m.stepped(keys, random).stepped(keys_after, random_after).pc == m.pc + 2,
        m.stepped(keys, random).stepped(keys_after, random_after).istack == m.istack,
{
    let call = m.fetched();
    let at_target = m.stepped(keys, random);
    assert(recognized(call));
    assert(m.with_pc(m.pc + 2).fault_of(call) is None);
    assert(at_target == m.with_pc(m.pc + 2).call(fields_of(call).nnn));
    assert(fields_of(0x00EE).code == 0 && fields_of(0x00EE).nn == 0xEE);
    assert(recognized(0x00EE));
    assert(at_target.with_pc(at_target.pc + 2).fault_of(0x00EE) is None);
}

/// A timer that has had `ticks` ticks is down by `ticks`, and stays at zero
/// once it is there: it never wraps below zero.
pub proof fn lemma_decay_by(v: u8, ticks: nat)
    ensures
        decay_by(v, ticks) == (if ticks >= v {
            0int
        } else {
            v - ticks
        }),
    decreases ticks,
{
    if ticks > 0 {
        lemma_decay_by(v, (ticks - 1) as nat);
    }
}

/// What a cycle does to the timers depends on the time of the last tick
/// alone: neither the instruction interval nor the time of the last
/// instruction has a part in it.
pub proof fn lemma_timers_ignore_instruction_rate(
    m: Machine,
    t: u128,
    interval: u128,
    last: u128,
)
    ensures
        ({
            let other = Machine { instruction_time_ns: interval, last_instruction_t: last, ..m };
            &&& other.cycle_started(t).dt == m.cycle_started(t).dt
            &&& other.cycle_started(t).st == m.cycle_started(t).st
            &&& other.cycle_started(t).beep_flag == m.cycle_started(t).beep_flag
            &&& other.cycle_started(t).last_timer_t == m.cycle_started(t).last_timer_t
        }),
        m.cycle_started(t).dt == (if m.timer_due(t) {
            decay(m.dt)
        } else {
            m.dt
        }),
        m.cycle_started(t).st == (if m.timer_due(t) {
            decay(m.st)
        } else {
            m.st
        }),
        m.cycle_started(t).beep_flag == (m.cycle_started(t).st > 0),
{
}

} // verus!
