use chip8::debug::{debug, debug_instr};
use chip8::keyboard::{self, terminates, unmap, Key};
use chip8::text::{push_decimal, push_hex, push_hex_digits};
use chip8::time::{time_nanos, timestamp};
use std::time::{Duration, UNIX_EPOCH};
use chip8::util::{hex_to_col, hex_to_u8};

#[test]
fn decimal_text() {
    for n in [0usize, 7, 9, 10, 99, 100, 255, 4096, 65535, 1234567890, usize::MAX] {
        let mut s = String::from("n=");
        push_decimal(&mut s, n);
        assert_eq!(s, format!("n={}", n));
    }
}

#[test]
fn hex_text() {
    for n in [0usize, 1, 9, 10, 15, 16, 255, 0xABC, 0xFFFF, 0x10000, 0xDEADBEEF, usize::MAX] {
        let mut s = String::new();
        push_hex_digits(&mut s, n);
        assert_eq!(s, format!("{:x}", n));
        let mut s = String::from("0x");
        push_hex(&mut s, n, 4);
        assert_eq!(s, format!("0x{:04x}", n));
        let mut s = String::new();
        push_hex(&mut s, n, 8);
        assert_eq!(s, format!("{:08x}", n));
        let mut s = String::new();
        push_hex(&mut s, n, 0);
        assert_eq!(s, format!("{:x}", n));
    }
}

#[test]
fn instruction_texts() {
    assert_eq!(debug_instr(0x0000, 0, 0xE, 0, 0xE0, 0x0E0), "CLS");
    assert_eq!(debug_instr(0x1000, 2, 3, 4, 0x34, 0x234), "JMP 0x0234");
    assert_eq!(debug_instr(0x6000, 10, 1, 2, 0x12, 0xA12), "LD V10, 0x0012");
    assert_eq!(debug_instr(0x7000, 3, 0xF, 0xF, 0xFF, 0x3FF), "ADD V3, 0x00ff");
    assert_eq!(debug_instr(0x8000, 1, 2, 0, 0x20, 0x120), "LD V1, V2");
    assert_eq!(debug_instr(0x8000, 1, 2, 1, 0x21, 0x121), "OR V1, V2");
    assert_eq!(debug_instr(0x8000, 1, 2, 2, 0x22, 0x122), "AND V1, V2");
    assert_eq!(debug_instr(0x8000, 1, 2, 3, 0x23, 0x123), "XOR V1, V2");
    assert_eq!(debug_instr(0x8000, 1, 12, 4, 0xC4, 0x1C4), "ADD V1, 0x000c");
    assert_eq!(debug_instr(0x8000, 1, 2, 5, 0x25, 0x125), "");
    assert_eq!(debug_instr(0xA000, 1, 2, 3, 0x23, 0x123), "LD I, 0x0123");
    assert_eq!(debug_instr(0xD000, 0, 1, 5, 0x15, 0x015), "DRW V0, V1, 0x0005");
    assert_eq!(debug_instr(0x2000, 0, 1, 5, 0x15, 0x015), "");
    assert_eq!(debug_instr(0xF000, 0, 0, 7, 0x07, 0x007), "");
}

#[test]
fn debug_screen() {
    let mut registers = [0u8; 16];
    for (i, r) in registers.iter_mut().enumerate() {
        *r = (i as u8) * 16 + 1;
    }
    let text = debug(0x202, 0x6A05, 0x6000, 10, 0, 5, 0x05, 0xA05, registers, 0x0123);
    let expected = format!(
        "\nL{:03x}:  {}\ninstr:       0x{:04x}\n\
         V0: 0x{:04x}  V1: 0x{:04x}  V2: 0x{:04x}\n\
         V3: 0x{:04x}  V4: 0x{:04x}  V5: 0x{:04x}\n\
         V6: 0x{:04x}  V7: 0x{:04x}  V5: 0x{:08x}\n\
         V9: 0x{:04x}  VA: 0x{:04x}  VB: 0x{:08x}\n\
         VC: 0x{:04x}  VD: 0x{:04x}  VE: 0x{:08x}\n\
         VC: 0x{:04x}                I: 0x{:04x}\n",
        0x200,
        "LD V10, 0x0005",
        0x6A05,
        registers[0],
        registers[1],
        registers[2],
        registers[3],
        registers[4],
        registers[5],
        registers[6],
        registers[7],
        registers[8],
        registers[9],
        registers[10],
        registers[11],
        registers[12],
        registers[13],
        registers[14],
        registers[15],
        0x0123
    );
    assert_eq!(text, expected);
    assert!(text.starts_with("\nL200:  LD V10, 0x0005\ninstr:       0x6a05\nV0: 0x0001  V1: 0x0011"));
    assert!(text.ends_with("VC: 0x00f1                I: 0x0123\n"));
}

#[test]
fn key_layout() {
    let keys = [
        Key::X,
        Key::Num1,
        Key::Num2,
        Key::Num3,
        Key::Q,
        Key::W,
        Key::E,
        Key::A,
        Key::S,
        Key::D,
        Key::Z,
        Key::C,
        Key::Num4,
        Key::R,
        Key::F,
        Key::V,
    ];
    for code in 0u8..16 {
        assert_eq!(keyboard::map(code), keys[code as usize]);
        assert_eq!(unmap(keys[code as usize]), Some(code));
        assert_eq!(unmap(keyboard::map(code)), Some(code));
    }
}

#[test]
fn keys_outside_the_layout() {
    assert_eq!(keyboard::map(16), Key::Escape);
    assert_eq!(keyboard::map(255), Key::Escape);
    assert_eq!(unmap(Key::Escape), None);
    assert_eq!(unmap(Key::CapsLock), None);
    assert_eq!(unmap(Key::Other), None);
    assert!(terminates(Key::Escape));
    assert!(terminates(Key::CapsLock));
    assert!(!terminates(Key::Other));
    assert!(!terminates(Key::X));
}

#[test]
fn colours() {
    assert_eq!(hex_to_col("ABAECB"), Ok((0xAB, 0xAE, 0xCB)));
    assert_eq!(hex_to_col("101020"), Ok((16, 16, 32)));
    assert_eq!(hex_to_col("ffFF00"), Ok((255, 255, 0)));
    assert_eq!(hex_to_col("0a0B0c0d"), Ok((10, 11, 12)));
}

#[test]
fn malformed_colours() {
    for text in ["", "abc", "abcd", "abcde", "abcdeff", "abcdeg", "#abcdef", "ab cd ef", "\u{65e5}\u{672c}\u{8a9e}\u{65e5}\u{672c}\u{8a9e}"] {
        assert_eq!(
            hex_to_col(text),
            Err(format!("Error converting hex '{}' to decimal, using default", text))
        );
    }
}

#[test]
fn hex_bytes() {
    assert_eq!(hex_to_u8("00"), Ok(0));
    assert_eq!(hex_to_u8("7f"), Ok(0x7F));
    assert_eq!(hex_to_u8("Fe"), Ok(0xFE));
    assert_eq!(hex_to_u8("a9ff"), Ok(0xA9));
    assert_eq!(hex_to_u8("1"), Err(String::from("OddLength")));
    assert_eq!(
        hex_to_u8("0g"),
        Err(String::from("InvalidHexCharacter { c: 'g', index: 1 }"))
    );
    assert!(hex_to_u8("\u{e9}").is_err());
}

#[test]
fn clock_reads_after_1970() {
    let first = time_nanos().expect("the clock reads after 1970");
    let second = time_nanos().expect("the clock reads after 1970");
    assert!(first > 1_000_000_000u128 * 1_000_000_000u128);
    assert!(second + 1_000_000_000 > first);
}

#[test]
fn timestamp_of_a_duration() {
    assert_eq!(timestamp(Ok(Duration::new(1, 5))), Some(1_000_000_005));
    assert_eq!(timestamp(Ok(Duration::new(0, 0))), Some(0));
    assert_eq!(
        timestamp(Ok(Duration::new(1_700_000_000, 999_999_999))),
        Some(1_700_000_000_999_999_999)
    );
}

#[test]
fn timestamp_of_a_clock_before_1970() {
    let later = UNIX_EPOCH + Duration::from_secs(1);
    let reading = UNIX_EPOCH.duration_since(later);
    assert!(reading.is_err());
    assert_eq!(timestamp(reading), None);
    assert_eq!(
        timestamp(later.duration_since(UNIX_EPOCH)),
        Some(1_000_000_000)
    );
}
