use chip8::decoder::{decode, Fields};
use chip8::emulator::{instruction_interval, Chip8};
use chip8::keyboard::Key;
use chip8::machine::{Fault, KeyWait, Status};
use chip8::{FONTS, RAM_SIZE};

const NO_KEYS: [bool; 16] = [false; 16];

fn machine(program: &[u8]) -> Chip8 {
    Chip8::new(program.to_vec(), FONTS, 0, 0, false)
}

/// Runs the one instruction `instr` on a machine with VX = a and VY = b.
fn alu(instr: u16, x: usize, a: u8, y: usize, b: u8) -> Chip8 {
    let mut chip8 = machine(&[(instr >> 8) as u8, instr as u8]);
    chip8.registers[x] = a;
    chip8.registers[y] = b;
    assert_eq!(chip8.step(&NO_KEYS, 0), Status::Executed);
    chip8
}

#[test]
fn decode_splits_the_word() {
    assert_eq!(
        decode(0xD125),
        Fields { code: 0xD000, x: 1, y: 2, n: 5, nn: 0x25, nnn: 0x125 }
    );
    assert_eq!(
        decode(0xFFFF),
        Fields { code: 0xF000, x: 15, y: 15, n: 15, nn: 0xFF, nnn: 0xFFF }
    );
    assert_eq!(decode(0x0000), Fields { code: 0, x: 0, y: 0, n: 0, nn: 0, nnn: 0 });
}

#[test]
fn recognized_words() {
    for word in [
        0x00E0u16, 0x00EE, 0x1234, 0x2345, 0x3456, 0x4567, 0x5670, 0x6789, 0x789A, 0x8120,
        0x8121, 0x8122, 0x8123, 0x8124, 0x8125, 0x8126, 0x8127, 0x812E, 0x9120, 0xA123, 0xB123,
        0xC123, 0xD123, 0xE19E, 0xE1A1, 0xF107, 0xF10A, 0xF115, 0xF118, 0xF11E, 0xF129, 0xF133,
        0xF155, 0xF165,
    ] {
        assert!(Chip8::recognizes(word), "{:04x}", word);
    }
    for word in [
        0x0000u16, 0x0001, 0x00E1, 0x01E0, 0x0FEE, 0x5671, 0x912F, 0x8128, 0x812D, 0x812F,
        0xE19F, 0xE100, 0xF100, 0xF1FF, 0xF156,
    ] {
        assert!(!Chip8::recognizes(word), "{:04x}", word);
    }
}

#[test]
fn new_loads_glyphs_and_program() {
    let chip8 = Chip8::new(vec![0x12, 0x34, 0x56], FONTS, 77, 1_000_000, true);
    assert_eq!(&chip8.ram[..80], &FONTS[..]);
    assert!(chip8.ram[80..0x200].iter().all(|b| *b == 0));
    assert_eq!(&chip8.ram[0x200..0x203], &[0x12, 0x34, 0x56]);
    assert!(chip8.ram[0x203..].iter().all(|b| *b == 0));
    assert_eq!(chip8.pc, 0x200);
    assert_eq!(chip8.registers, [0; 16]);
    assert_eq!(chip8.index, 0);
    assert_eq!(chip8.istack, 0);
    assert_eq!(chip8.stack, [0; 64]);
    assert_eq!((chip8.dt, chip8.st), (0, 0));
    assert!(chip8.display.iter().all(|c| *c == 0));
    assert!(!chip8.display_update_flag && !chip8.display_clear_flag && !chip8.beep_flag);
    assert_eq!(chip8.waiting, None);
    assert_eq!(chip8.fault, None);
    assert_eq!(chip8.instruction_time_ns, 1_000_000);
    assert!(chip8.debug_mode);
    assert_eq!(chip8.last_timer_t, 77);
    assert_eq!(chip8.last_instruction_t, 77);
}

#[test]
fn new_takes_a_program_that_fills_memory() {
    let rom = vec![0xAB; RAM_SIZE - 0x200];
    let chip8 = Chip8::new(rom, FONTS, 0, 0, false);
    assert!(chip8.ram[0x200..].iter().all(|b| *b == 0xAB));
    let empty = Chip8::new(Vec::new(), FONTS, 0, 0, false);
    assert!(empty.ram[80..].iter().all(|b| *b == 0));
}

#[test]
fn load_register_from_register() {
    let chip8 = alu(0x8AB0, 0xA, 0x05, 0xB, 0x03);
    assert_eq!(chip8.registers[0xA], 3);
    assert_eq!(chip8.registers[0xB], 3);
    assert_eq!(chip8.pc, 0x202);
}

#[test]
fn add_sets_sum_and_carry_for_all_bytes() {
    for a in 0..=255u8 {
        for b in 0..=255u8 {
            let chip8 = alu(0x8124, 1, a, 2, b);
            let sum = a as u16 + b as u16;
            assert_eq!(chip8.registers[1], (sum % 256) as u8);
            assert_eq!(chip8.registers[2], b);
            assert_eq!(chip8.registers[0xF], if sum > 255 { 1 } else { 0 });
        }
    }
}

#[test]
fn add_exact_values() {
    let chip8 = alu(0x8124, 1, 200, 2, 100);
    assert_eq!((chip8.registers[1], chip8.registers[0xF]), (44, 1));
    let chip8 = alu(0x8124, 1, 200, 2, 55);
    assert_eq!((chip8.registers[1], chip8.registers[0xF]), (255, 0));
    let chip8 = alu(0x8124, 1, 200, 2, 56);
    assert_eq!((chip8.registers[1], chip8.registers[0xF]), (0, 1));
}

#[test]
fn add_into_the_flag_register_keeps_the_sum() {
    let chip8 = alu(0x8F14, 0xF, 250, 1, 10);
    assert_eq!(chip8.registers[0xF], 4);
}

#[test]
fn sub_sets_difference_and_flag_for_all_bytes() {
    for a in 0..=255u8 {
        for b in 0..=255u8 {
            let chip8 = alu(0x8125, 1, a, 2, b);
            assert_eq!(chip8.registers[1], a.wrapping_sub(b));
            assert_eq!(chip8.registers[0xF], if a > b { 1 } else { 0 });
        }
    }
}

#[test]
fn sub_exact_values() {
    let chip8 = alu(0x8125, 1, 10, 2, 3);
    assert_eq!((chip8.registers[1], chip8.registers[0xF]), (7, 1));
    let chip8 = alu(0x8125, 1, 3, 2, 10);
    assert_eq!((chip8.registers[1], chip8.registers[0xF]), (249, 0));
    let chip8 = alu(0x8125, 1, 9, 2, 9);
    assert_eq!((chip8.registers[1], chip8.registers[0xF]), (0, 0));
}

#[test]
fn sub_with_the_flag_register_as_operand() {
    // VY is VF: what VF held is subtracted, not the flag
    let chip8 = alu(0x81F5, 1, 5, 0xF, 3);
    assert_eq!(chip8.registers[1], 2);
    assert_eq!(chip8.registers[0xF], 1);
    let chip8 = alu(0x81F7, 1, 5, 0xF, 3);
    assert_eq!(chip8.registers[1], 254);
    assert_eq!(chip8.registers[0xF], 0);
    // VX is VF: the register keeps the difference
    let chip8 = alu(0x8F15, 0xF, 9, 1, 4);
    assert_eq!(chip8.registers[0xF], 5);
    let chip8 = alu(0x8F17, 0xF, 9, 1, 4);
    assert_eq!(chip8.registers[0xF], 251);
}

#[test]
fn subn_sets_difference_and_flag_for_all_bytes() {
    for a in 0..=255u8 {
        for b in 0..=255u8 {
            let chip8 = alu(0x8127, 1, a, 2, b);
            assert_eq!(chip8.registers[1], b.wrapping_sub(a));
            assert_eq!(chip8.registers[2], b);
            assert_eq!(chip8.registers[0xF], if b > a { 1 } else { 0 });
        }
    }
}

#[test]
fn shifts_of_the_flag_register_keep_the_result() {
    let chip8 = alu(0x8F16, 0xF, 7, 1, 0);
    assert_eq!(chip8.registers[0xF], 3);
    let chip8 = alu(0x8F1E, 0xF, 0x81, 1, 0);
    assert_eq!(chip8.registers[0xF], 2);
}

#[test]
fn subn_sets_difference_and_flag() {
    let chip8 = alu(0x8127, 1, 3, 2, 10);
    assert_eq!((chip8.registers[1], chip8.registers[0xF]), (7, 1));
    let chip8 = alu(0x8127, 1, 10, 2, 3);
    assert_eq!((chip8.registers[1], chip8.registers[0xF]), (249, 0));
    let chip8 = alu(0x8127, 1, 4, 2, 4);
    assert_eq!((chip8.registers[1], chip8.registers[0xF]), (0, 0));
}

#[test]
fn shr_sets_low_bit_and_half_for_all_bytes() {
    for a in 0..=255u8 {
        let chip8 = alu(0x8126, 1, a, 2, 0xAA);
        assert_eq!(chip8.registers[1], a / 2);
        assert_eq!(chip8.registers[0xF], a & 1);
        assert_eq!(chip8.registers[2], 0xAA);
    }
}

#[test]
fn shl_sets_high_bit_and_double() {
    let chip8 = alu(0x812E, 1, 0x81, 2, 0);
    assert_eq!((chip8.registers[1], chip8.registers[0xF]), (0x02, 1));
    let chip8 = alu(0x812E, 1, 0x41, 2, 0);
    assert_eq!((chip8.registers[1], chip8.registers[0xF]), (0x82, 0));
    let chip8 = alu(0x812E, 1, 0xFF, 2, 0);
    assert_eq!((chip8.registers[1], chip8.registers[0xF]), (0xFE, 1));
}

#[test]
fn shl_sets_high_bit_and_double_for_all_bytes() {
    for a in 0..=255u8 {
        let chip8 = alu(0x812E, 1, a, 2, 0xAA);
        assert_eq!(chip8.registers[1], ((a as u16 * 2) % 256) as u8);
        assert_eq!(chip8.registers[0xF], a >> 7);
        assert_eq!(chip8.registers[2], 0xAA);
    }
}

#[test]
fn logic_operations() {
    assert_eq!(alu(0x8121, 1, 0b1100, 2, 0b1010).registers[1], 0b1110);
    assert_eq!(alu(0x8122, 1, 0b1100, 2, 0b1010).registers[1], 0b1000);
    assert_eq!(alu(0x8123, 1, 0b1100, 2, 0b1010).registers[1], 0b0110);
    assert_eq!(alu(0x8123, 1, 0b1100, 2, 0b1010).registers[0xF], 0);
}

#[test]
fn load_and_add_immediate() {
    let mut chip8 = machine(&[0x63, 0xFE, 0x73, 0x05]);
    chip8.registers[0xF] = 9;
    assert_eq!(chip8.step(&NO_KEYS, 0), Status::Executed);
    assert_eq!(chip8.registers[3], 0xFE);
    assert_eq!(chip8.step(&NO_KEYS, 0), Status::Executed);
    assert_eq!(chip8.registers[3], 3);
    assert_eq!(chip8.registers[0xF], 9);
    assert_eq!(chip8.pc, 0x204);
}

#[test]
fn jumps() {
    let mut chip8 = machine(&[0x1A, 0xBC]);
    chip8.step(&NO_KEYS, 0);
    assert_eq!(chip8.pc, 0xABC);
    let mut chip8 = machine(&[0xBF, 0xFF]);
    chip8.registers[0] = 0xFF;
    chip8.step(&NO_KEYS, 0);
    assert_eq!(chip8.pc, 0xFFF + 0xFF);
}

#[test]
fn skips() {
    let cases: [(u16, u8, u8, bool); 8] = [
        (0x3142, 0x42, 0, true),
        (0x3142, 0x43, 0, false),
        (0x4142, 0x42, 0, false),
        (0x4142, 0x43, 0, true),
        (0x5120, 7, 7, true),
        (0x5120, 7, 8, false),
        (0x9120, 7, 7, false),
        (0x9120, 7, 8, true),
    ];
    for (instr, a, b, skipped) in cases {
        let chip8 = alu(instr, 1, a, 2, b);
        assert_eq!(chip8.pc, if skipped { 0x204 } else { 0x202 }, "{:04x}", instr);
    }
}

#[test]
fn key_skips() {
    let mut keys = [false; 16];
    keys[0xB] = true;
    for (instr, v, skipped) in [
        (0xE19Eu16, 0xBu8, true),
        (0xE19E, 0xA, false),
        (0xE1A1, 0xB, false),
        (0xE1A1, 0xA, true),
        (0xE19E, 0x1B, false),
        (0xE1A1, 0x1B, true),
    ] {
        let mut chip8 = machine(&[(instr >> 8) as u8, instr as u8]);
        chip8.registers[1] = v;
        assert_eq!(chip8.step(&keys, 0), Status::Executed);
        assert_eq!(chip8.pc, if skipped { 0x204 } else { 0x202 }, "{:04x} {}", instr, v);
    }
}

#[test]
fn random_is_masked() {
    let mut chip8 = machine(&[0xC5, 0x0F, 0xC6, 0xF0]);
    chip8.step(&NO_KEYS, 0xA7);
    assert_eq!(chip8.registers[5], 0x07);
    chip8.step(&NO_KEYS, 0xA7);
    assert_eq!(chip8.registers[6], 0xA0);
}

#[test]
fn call_then_return() {
    // 0x200: CALL 0x206; 0x206: RET
    let mut chip8 = machine(&[0x22, 0x06, 0x00, 0x00, 0x00, 0x00, 0x00, 0xEE]);
    assert_eq!(chip8.step(&NO_KEYS, 0), Status::Executed);
    assert_eq!(chip8.pc, 0x206);
    assert_eq!(chip8.istack, 1);
    assert_eq!(chip8.stack[1], 0x202);
    assert_eq!(chip8.step(&NO_KEYS, 0), Status::Executed);
    assert_eq!(chip8.pc, 0x202);
    assert_eq!(chip8.istack, 0);
}

#[test]
fn return_on_an_empty_stack() {
    let mut chip8 = machine(&[0x00, 0xEE]);
    assert_eq!(chip8.step(&NO_KEYS, 0), Status::Executed);
    assert_eq!(chip8.pc, 0);
    assert_eq!(chip8.istack, 0);
}

#[test]
fn call_on_a_full_stack_stops_the_machine() {
    // 0x200: CALL 0x200, over and over
    let mut chip8 = machine(&[0x22, 0x00]);
    for depth in 1..=63 {
        assert_eq!(chip8.step(&NO_KEYS, 0), Status::Executed);
        assert_eq!(chip8.istack, depth);
    }
    assert_eq!(chip8.fault_of(0x2200), Some(Fault::StackOverflow));
    assert_eq!(chip8.step(&NO_KEYS, 0), Status::Halted(Fault::StackOverflow));
    assert_eq!(chip8.fault, Some(Fault::StackOverflow));
    assert_eq!(chip8.istack, 63);
    assert_eq!(chip8.cycle(1, &NO_KEYS, 0), Status::Halted(Fault::StackOverflow));
}

#[test]
fn program_counter_at_the_end_of_memory() {
    let mut chip8 = machine(&[]);
    chip8.pc = RAM_SIZE;
    chip8.dt = 3;
    let ram = chip8.ram;
    assert_eq!(chip8.peek(), None);
    assert_eq!(chip8.cycle(20_000_000, &NO_KEYS, 0), Status::Halted(Fault::ProgramCounter));
    assert_eq!(chip8.fault, Some(Fault::ProgramCounter));
    assert_eq!(chip8.pc, RAM_SIZE);
    assert_eq!(chip8.ram, ram);
    assert_eq!(chip8.dt, 2);
    // nothing runs any more, not even the timers
    assert_eq!(chip8.cycle(90_000_000, &NO_KEYS, 0), Status::Halted(Fault::ProgramCounter));
    assert_eq!(chip8.dt, 2);
    assert_eq!(chip8.pc, RAM_SIZE);
}

#[test]
fn program_counter_on_the_last_byte() {
    let mut chip8 = machine(&[]);
    chip8.pc = RAM_SIZE - 1;
    assert_eq!(chip8.step(&NO_KEYS, 0), Status::Halted(Fault::ProgramCounter));
    let mut chip8 = machine(&[]);
    chip8.pc = RAM_SIZE - 2;
    chip8.ram[RAM_SIZE - 2] = 0x61;
    chip8.ram[RAM_SIZE - 1] = 0x07;
    assert_eq!(chip8.peek(), Some(0x6107));
    assert_eq!(chip8.step(&NO_KEYS, 0), Status::Executed);
    assert_eq!(chip8.registers[1], 7);
    assert_eq!(chip8.pc, RAM_SIZE);
    assert_eq!(chip8.step(&NO_KEYS, 0), Status::Halted(Fault::ProgramCounter));
}

#[test]
fn program_runs_off_the_end() {
    // JMP 0xFFE; memory there is zero, which is no instruction
    let mut chip8 = machine(&[0x1F, 0xFE]);
    assert_eq!(chip8.cycle(1, &NO_KEYS, 0), Status::Executed);
    assert_eq!(
        chip8.cycle(2, &NO_KEYS, 0),
        Status::DecodeMiss { opcode: 0, address: 0xFFE }
    );
    assert_eq!(chip8.cycle(3, &NO_KEYS, 0), Status::Halted(Fault::ProgramCounter));
}

#[test]
fn unrecognized_opcode_changes_nothing() {
    let mut chip8 = machine(&[0x00, 0x01, 0x61, 0x2A]);
    chip8.registers = [1, 2, 3, 4, 5, 6, 7, 8, 9, 10, 11, 12, 13, 14, 15, 16];
    chip8.index = 0x321;
    let ram = chip8.ram;
    let registers = chip8.registers;
    assert_eq!(
        chip8.cycle(1, &NO_KEYS, 0),
        Status::DecodeMiss { opcode: 0x0001, address: 0x200 }
    );
    assert_eq!(chip8.registers, registers);
    assert_eq!(chip8.ram, ram);
    assert_eq!(chip8.index, 0x321);
    assert_eq!(chip8.istack, 0);
    assert!(chip8.display.iter().all(|c| *c == 0));
    assert_eq!(chip8.fault, None);
    assert_eq!(chip8.pc, 0x202);
    // and the machine goes on with the next instruction
    assert_eq!(chip8.cycle(2, &NO_KEYS, 0), Status::Executed);
    assert_eq!(chip8.registers[1], 0x2A);
}

#[test]
fn bcd_of_156() {
    let mut chip8 = machine(&[0xF3, 0x33]);
    chip8.registers[3] = 156;
    chip8.index = 0x300;
    assert_eq!(chip8.step(&NO_KEYS, 0), Status::Executed);
    assert_eq!(&chip8.ram[0x300..0x303], &[1, 5, 6]);
    assert_eq!(chip8.ram[0x2FF], 0);
    assert_eq!(chip8.ram[0x303], 0);
}

#[test]
fn bcd_of_all_bytes() {
    for v in 0..=255u8 {
        let mut chip8 = machine(&[0xF0, 0x33]);
        chip8.registers[0] = v;
        chip8.index = 0xFFD;
        assert_eq!(chip8.step(&NO_KEYS, 0), Status::Executed);
        assert_eq!(&chip8.ram[0xFFD..], &[v / 100, v / 10 % 10, v % 10]);
    }
}

#[test]
fn memory_access_past_the_end_stops_the_machine() {
    for (instr, index) in [
        (0xF033u16, 0xFFEu16),
        (0xF355, 0xFFD),
        (0xF365, 0xFFD),
        (0xF055, 0x1000),
        (0xD011, 0x1000),
        (0xD01F, 0xFF2),
    ] {
        let mut chip8 = machine(&[(instr >> 8) as u8, instr as u8]);
        chip8.index = index;
        chip8.registers[0xF] = 5;
        let ram = chip8.ram;
        assert_eq!(chip8.fault_of(instr), Some(Fault::MemoryAccess), "{:04x}", instr);
        assert_eq!(chip8.step(&NO_KEYS, 0), Status::Halted(Fault::MemoryAccess));
        assert_eq!(chip8.fault, Some(Fault::MemoryAccess));
        assert_eq!(chip8.ram, ram);
        assert_eq!(chip8.registers[0xF], 5);
        assert!(!chip8.display_update_flag);
    }
}

#[test]
fn memory_access_up_to_the_end() {
    let mut chip8 = machine(&[0xF3, 0x55]);
    chip8.index = 0xFFC;
    chip8.registers = [1, 2, 3, 4, 5, 6, 7, 8, 9, 10, 11, 12, 13, 14, 15, 16];
    assert_eq!(chip8.fault_of(0xF355), None);
    assert_eq!(chip8.step(&NO_KEYS, 0), Status::Executed);
    assert_eq!(&chip8.ram[0xFFC..], &[1, 2, 3, 4]);
    // a sprite whose lower rows are clipped reads only the rows it draws
    let mut chip8 = machine(&[0xD0, 0x1F]);
    chip8.index = 0xFFE;
    chip8.registers[1] = 30;
    assert_eq!(chip8.fault_of(0xD01F), None);
    assert_eq!(chip8.step(&NO_KEYS, 0), Status::Executed);
    // a sprite of no rows reads nothing
    let mut chip8 = machine(&[0xD0, 0x10]);
    chip8.index = 0xFFFF;
    assert_eq!(chip8.step(&NO_KEYS, 0), Status::Executed);
    assert!(chip8.display_update_flag);
}

#[test]
fn store_and_load_registers() {
    let mut chip8 = machine(&[0xF2, 0x55, 0xF2, 0x65]);
    chip8.registers = [9, 8, 7, 6, 5, 4, 3, 2, 1, 0, 1, 2, 3, 4, 5, 6];
    chip8.index = 0x400;
    chip8.step(&NO_KEYS, 0);
    assert_eq!(&chip8.ram[0x400..0x404], &[9, 8, 7, 0]);
    assert_eq!(chip8.index, 0x400);
    chip8.ram[0x400] = 0x11;
    chip8.ram[0x401] = 0x22;
    chip8.ram[0x402] = 0x33;
    chip8.ram[0x403] = 0x44;
    chip8.step(&NO_KEYS, 0);
    assert_eq!(chip8.registers, [0x11, 0x22, 0x33, 6, 5, 4, 3, 2, 1, 0, 1, 2, 3, 4, 5, 6]);
}

#[test]
fn index_instructions() {
    let mut chip8 = machine(&[0xA1, 0x23, 0xF1, 0x1E, 0xF2, 0x29]);
    chip8.registers[1] = 0x10;
    chip8.registers[2] = 0x0B;
    chip8.step(&NO_KEYS, 0);
    assert_eq!(chip8.index, 0x123);
    chip8.step(&NO_KEYS, 0);
    assert_eq!(chip8.index, 0x133);
    chip8.step(&NO_KEYS, 0);
    assert_eq!(chip8.index, 55);
    assert_eq!(&chip8.ram[55..60], &[0xE0, 0x90, 0xE0, 0x90, 0xE0]);
}

#[test]
fn index_addition_wraps_at_16_bits() {
    let mut chip8 = machine(&[0xF1, 0x1E]);
    chip8.index = 0xFFFF;
    chip8.registers[1] = 3;
    chip8.registers[0xF] = 7;
    chip8.step(&NO_KEYS, 0);
    assert_eq!(chip8.index, 2);
    assert_eq!(chip8.registers[0xF], 7);
}

#[test]
fn timer_transfers() {
    let mut chip8 = machine(&[0xF1, 0x15, 0xF2, 0x18, 0xF3, 0x07]);
    chip8.registers[1] = 40;
    chip8.registers[2] = 50;
    chip8.step(&NO_KEYS, 0);
    chip8.step(&NO_KEYS, 0);
    chip8.step(&NO_KEYS, 0);
    assert_eq!((chip8.dt, chip8.st), (40, 50));
    assert_eq!(chip8.registers[3], 40);
}

#[test]
fn clear_screen() {
    let mut chip8 = machine(&[0x00, 0xE0]);
    chip8.display[5] = 1;
    chip8.display[2047] = 1;
    assert_eq!(chip8.cycle(1, &NO_KEYS, 0), Status::Executed);
    assert!(chip8.display.iter().all(|c| *c == 0));
    assert!(chip8.display_clear_flag);
    assert!(!chip8.display_update_flag);
}

#[test]
fn draw_a_glyph() {
    // the glyph of 0, five rows, at (3, 2)
    let mut chip8 = machine(&[0xD1, 0x25]);
    chip8.registers[1] = 3;
    chip8.registers[2] = 2;
    chip8.registers[0xF] = 9;
    chip8.index = 0;
    assert_eq!(chip8.cycle(1, &NO_KEYS, 0), Status::Executed);
    let rows: [[u8; 4]; 5] = [[1, 1, 1, 1], [1, 0, 0, 1], [1, 0, 0, 1], [1, 0, 0, 1], [1, 1, 1, 1]];
    for cy in 0..32usize {
        for cx in 0..64usize {
            let lit = (2..7).contains(&cy) && (3..7).contains(&cx) && rows[cy - 2][cx - 3] == 1;
            assert_eq!(chip8.display[cy * 64 + cx], lit as u8, "({}, {})", cx, cy);
        }
    }
    assert_eq!(chip8.registers[0xF], 0);
    assert!(chip8.display_update_flag);
    assert!(!chip8.display_clear_flag);
}

#[test]
fn draw_twice_restores_and_collides() {
    let mut chip8 = machine(&[0xD1, 0x25, 0xD1, 0x25]);
    chip8.registers[1] = 10;
    chip8.registers[2] = 20;
    chip8.index = 5 * 0xA;
    chip8.step(&NO_KEYS, 0);
    assert_eq!(chip8.registers[0xF], 0);
    assert_eq!(chip8.display.iter().filter(|c| **c == 1).count(), 14);
    chip8.step(&NO_KEYS, 0);
    assert_eq!(chip8.registers[0xF], 1);
    assert!(chip8.display.iter().all(|c| *c == 0));
}

#[test]
fn draw_twice_over_a_picture() {
    let mut chip8 = machine(&[0xD1, 0x25, 0xD1, 0x25]);
    chip8.registers[1] = 62;
    chip8.registers[2] = 29;
    chip8.index = 5 * 8;
    for (i, cell) in chip8.display.iter_mut().enumerate() {
        *cell = (i % 3 == 0) as u8;
    }
    let before = chip8.display;
    chip8.step(&NO_KEYS, 0);
    assert_ne!(chip8.display, before);
    chip8.step(&NO_KEYS, 0);
    assert_eq!(chip8.display, before);
    assert_eq!(chip8.registers[0xF], 1);
}

#[test]
fn draw_wraps_the_position_and_clips_the_sprite() {
    // VX = 64 + 60 and VY = 32 + 30: the corner is (60, 30)
    let mut chip8 = machine(&[0xD1, 0x23]);
    chip8.registers[1] = 124;
    chip8.registers[2] = 62;
    chip8.index = 0x300;
    chip8.ram[0x300] = 0xFF;
    chip8.ram[0x301] = 0xFF;
    chip8.ram[0x302] = 0xFF;
    chip8.step(&NO_KEYS, 0);
    for cy in 0..32usize {
        for cx in 0..64usize {
            let lit = cy >= 30 && cx >= 60;
            assert_eq!(chip8.display[cy * 64 + cx], lit as u8, "({}, {})", cx, cy);
        }
    }
    assert_eq!(chip8.registers[0xF], 0);
}

#[test]
fn draw_reports_a_collision_only_for_lit_cells() {
    let mut chip8 = machine(&[0xD1, 0x21]);
    chip8.index = 0x300;
    chip8.ram[0x300] = 0b1010_0000;
    chip8.display[1] = 1;
    chip8.registers[0xF] = 1;
    chip8.step(&NO_KEYS, 0);
    // the lit cell is under a clear bit
    assert_eq!(chip8.registers[0xF], 0);
    assert_eq!(&chip8.display[..4], &[1, 1, 1, 0]);
    assert!(chip8.display_update_flag);
}

#[test]
fn draw_reads_the_position_after_clearing_the_flag() {
    // VX is VF: the sprite is drawn in column 0
    let mut chip8 = machine(&[0xDF, 0x11]);
    chip8.registers[0xF] = 20;
    chip8.registers[1] = 1;
    chip8.index = 0x300;
    chip8.ram[0x300] = 0x80;
    chip8.step(&NO_KEYS, 0);
    assert_eq!(chip8.display[64], 1);
    assert_eq!(chip8.display[64 + 20], 0);
}

#[test]
fn timers_decay_at_sixty_hertz() {
    // an endless loop, one instruction each nanosecond
    let mut chip8 = Chip8::new(vec![0x12, 0x00], FONTS, 0, 1, false);
    chip8.dt = 10;
    chip8.st = 10;
    let mut t: u128 = 0;
    let mut ticks = 0;
    // ten times 16.67 ms, in cycles 10 microseconds apart
    while t < 10 * 16_670_000 {
        t += 10_000;
        let before = chip8.dt;
        assert_eq!(chip8.cycle(t, &NO_KEYS, 0), Status::Executed);
        if chip8.dt != before {
            ticks += 1;
        }
        assert_eq!(chip8.beep_flag, chip8.st > 0);
    }
    assert_eq!(ticks, 10);
    assert_eq!((chip8.dt, chip8.st), (0, 0));
    assert!(!chip8.beep_flag);
    for _ in 0..5 {
        t += 17_000_000;
        chip8.cycle(t, &NO_KEYS, 0);
        assert_eq!((chip8.dt, chip8.st), (0, 0));
    }
}

#[test]
fn timers_do_not_depend_on_the_instruction_rate() {
    let mut fast = Chip8::new(vec![0x12, 0x00], FONTS, 0, 1, false);
    let mut slow = Chip8::new(vec![0x12, 0x00], FONTS, 0, 1_000_000_000_000, false);
    fast.dt = 200;
    fast.st = 3;
    slow.dt = 200;
    slow.st = 3;
    let mut t: u128 = 0;
    for _ in 0..100 {
        t += 5_000_000;
        assert_eq!(fast.cycle(t, &NO_KEYS, 0), Status::Executed);
        assert_eq!(slow.cycle(t, &NO_KEYS, 0), Status::Idle);
        assert_eq!((fast.dt, fast.st, fast.beep_flag), (slow.dt, slow.st, slow.beep_flag));
    }
    assert_eq!((slow.dt, slow.st), (175, 0));
    assert_eq!(slow.pc, 0x200);
}

#[test]
fn the_two_gates_are_independent() {
    // instruction interval 100 ms: longer than a timer tick
    let mut chip8 = Chip8::new(vec![0x61, 0x01, 0x62, 0x02], FONTS, 1000, 100_000_000, false);
    chip8.dt = 9;
    // neither is due
    assert_eq!(chip8.cycle(1000 + 16_666_666, &NO_KEYS, 0), Status::Idle);
    assert_eq!((chip8.dt, chip8.pc), (9, 0x200));
    assert!(!chip8.instruction_due(1000 + 16_666_666));
    // the timer alone
    assert_eq!(chip8.cycle(1000 + 16_666_667, &NO_KEYS, 0), Status::Idle);
    assert_eq!((chip8.dt, chip8.pc), (8, 0x200));
    assert_eq!(chip8.last_timer_t, 1000 + 16_666_667);
    // the instruction alone
    assert!(!chip8.instruction_due(1000 + 100_000_000));
    assert!(chip8.instruction_due(1000 + 100_000_001));
    chip8.last_timer_t = 1000 + 100_000_000;
    assert_eq!(chip8.cycle(1000 + 100_000_001, &NO_KEYS, 0), Status::Executed);
    assert_eq!((chip8.dt, chip8.pc), (8, 0x202));
    assert_eq!(chip8.last_instruction_t, 1000 + 100_000_001);
    // both
    assert_eq!(chip8.cycle(1000 + 300_000_000, &NO_KEYS, 0), Status::Executed);
    assert_eq!((chip8.dt, chip8.pc), (7, 0x204));
    assert_eq!(chip8.registers[2], 2);
}

#[test]
fn a_clock_that_steps_back_opens_no_gate() {
    let mut chip8 = Chip8::new(vec![0x61, 0x01], FONTS, 1_000_000_000, 0, false);
    chip8.dt = 4;
    assert_eq!(chip8.cycle(5, &NO_KEYS, 0), Status::Idle);
    assert_eq!(chip8.cycle(1_000_000_000, &NO_KEYS, 0), Status::Idle);
    assert_eq!((chip8.dt, chip8.pc), (4, 0x200));
    assert_eq!(chip8.last_timer_t, 1_000_000_000);
}

#[test]
fn tone_follows_the_sound_timer() {
    // LD V1, 2; LD ST, V1; then an endless loop
    let mut chip8 = Chip8::new(vec![0x61, 0x02, 0xF1, 0x18, 0x12, 0x04], FONTS, 0, 0, false);
    chip8.cycle(1, &NO_KEYS, 0);
    chip8.cycle(2, &NO_KEYS, 0);
    assert_eq!(chip8.st, 2);
    chip8.cycle(3, &NO_KEYS, 0);
    assert!(chip8.beep_flag);
    chip8.cycle(20_000_000, &NO_KEYS, 0);
    assert_eq!(chip8.st, 1);
    assert!(chip8.beep_flag);
    chip8.cycle(40_000_000, &NO_KEYS, 0);
    assert_eq!(chip8.st, 0);
    assert!(!chip8.beep_flag);
}

#[test]
fn display_flags_are_lowered_by_the_next_cycle() {
    let mut chip8 = Chip8::new(vec![0x00, 0xE0, 0xD0, 0x01, 0x61, 0x00], FONTS, 0, 10, false);
    chip8.cycle(11, &NO_KEYS, 0);
    assert!(chip8.display_clear_flag && !chip8.display_update_flag);
    chip8.cycle(22, &NO_KEYS, 0);
    assert!(!chip8.display_clear_flag && chip8.display_update_flag);
    // a cycle that executes nothing lowers them too
    assert_eq!(chip8.cycle(23, &NO_KEYS, 0), Status::Idle);
    assert!(!chip8.display_clear_flag && !chip8.display_update_flag);
}

#[test]
fn waiting_for_a_key() {
    let mut chip8 = Chip8::new(vec![0xF4, 0x0A, 0x61, 0x01], FONTS, 0, 0, false);
    chip8.dt = 5;
    assert_eq!(chip8.key_pressed(Key::Q), KeyWait::Ignored);
    assert_eq!(chip8.cycle(1, &NO_KEYS, 0), Status::AwaitingKey { register: 4 });
    assert_eq!(chip8.waiting, Some(4));
    assert_eq!(chip8.pc, 0x202);
    // while it waits, neither timers nor instructions run
    assert_eq!(chip8.cycle(50_000_000, &NO_KEYS, 0), Status::AwaitingKey { register: 4 });
    assert_eq!((chip8.dt, chip8.pc), (5, 0x202));
    assert_eq!(chip8.key_pressed(Key::Other), KeyWait::Ignored);
    assert_eq!(chip8.key_pressed(Key::Escape), KeyWait::Terminate);
    assert_eq!(chip8.key_pressed(Key::CapsLock), KeyWait::Terminate);
    assert_eq!(chip8.waiting, Some(4));
    assert_eq!(chip8.registers[4], 0);
    assert_eq!(chip8.key_pressed(Key::R), KeyWait::Stored(0xD));
    assert_eq!(chip8.registers[4], 0xD);
    assert_eq!(chip8.waiting, None);
    assert_eq!(chip8.cycle(60_000_000, &NO_KEYS, 0), Status::Executed);
    assert_eq!(chip8.dt, 4);
    assert_eq!(chip8.registers[1], 1);
}

#[test]
fn instruction_intervals() {
    assert_eq!(instruction_interval(1000), 1_000_000);
    assert_eq!(instruction_interval(1), 1_000_000_000);
    assert_eq!(instruction_interval(3), 333_333_333);
    assert_eq!(instruction_interval(u32::MAX), 0);
}

#[test]
fn well_formed_machines() {
    let mut chip8 = machine(&[0x12, 0x00]);
    assert!(chip8.is_well_formed());
    chip8.display[2047] = 1;
    chip8.istack = 63;
    chip8.waiting = Some(15);
    chip8.pc = usize::MAX;
    assert!(chip8.is_well_formed());
    chip8.display[2047] = 2;
    assert!(!chip8.is_well_formed());
    chip8.display[2047] = 0;
    chip8.istack = 64;
    assert!(!chip8.is_well_formed());
    chip8.istack = 0;
    chip8.waiting = Some(16);
    assert!(!chip8.is_well_formed());
}

#[test]
fn a_program_runs_to_its_result() {
    // V0 = 7; V1 = 0; loop: V1 += V0; V0 -= 1 (by adding 255); skip if V0 == 0; jump to loop
    let rom = vec![
        0x60, 0x07, 0x61, 0x00, 0x81, 0x04, 0x70, 0xFF, 0x30, 0x00, 0x12, 0x04, 0x12, 0x0C,
    ];
    let mut chip8 = Chip8::new(rom, FONTS, 0, 0, false);
    let mut t = 0;
    while chip8.pc != 0x20C {
        t += 1;
        assert_eq!(chip8.cycle(t, &NO_KEYS, 0), Status::Executed);
        assert!(t < 100);
    }
    assert_eq!(chip8.registers[1], 7 + 6 + 5 + 4 + 3 + 2 + 1);
    assert_eq!(chip8.registers[0], 0);
    // two to set up, four a round, and the last round skips its jump
    assert_eq!(t, 2 + 7 * 4 - 1);
}
