//! The layout that pairs logical key ids with the physical keys of the host.
//!
//! The sixteen logical keys are laid out on the left of a keyboard:
//!
//! ```text
//! 1 2 3 C      1 2 3 4
//! 4 5 6 D      Q W E R
//! 7 8 9 E  =>  A S D F
//! A 0 B F      Z X C V
//! ```

use vstd::prelude::*;

verus! {

/// A physical key, as far as the machine tells keys apart.
#[derive(Clone, Copy, Debug, PartialEq, Eq, Structural)]
pub enum Key {
    Num1,
    Num2,
    Num3,
    Num4,
    Q,
    W,
    E,
    R,
    A,
    S,
    D,
    F,
    Z,
    X,
    C,
    V,
    Escape,
    CapsLock,
    /// Any key that is neither part of the layout nor a terminate key.
    Other,
}

/// The physical key of a logical key id; `Escape` for an id above 0xF.
pub open spec fn physical_key(code: u8) -> Key {
    match code {
        0x00 => Key::X,
        0x01 => Key::Num1,
        0x02 => Key::Num2,
        0x03 => Key::Num3,
        0x04 => Key::Q,
        0x05 => Key::W,
        0x06 => Key::E,
        0x07 => Key::A,
        0x08 => Key::S,
        0x09 => Key::D,
        0x0A => Key::Z,
        0x0B => Key::C,
        0x0C => Key::Num4,
        0x0D => Key::R,
        0x0E => Key::F,
        0x0F => Key::V,
        _ => Key::Escape,
    }
}

/// The logical key id of a physical key, if the key is part of the layout.
pub open spec fn logical_key(key: Key) -> Option<u8> {
    match key {
        Key::X => Some(0x00u8),
        Key::Num1 => Some(0x01u8),
        Key::Num2 => Some(0x02u8),
        Key::Num3 => Some(0x03u8),
        Key::Q => Some(0x04u8),
        Key::W => Some(0x05u8),
        Key::E => Some(0x06u8),
        Key::A => Some(0x07u8),
        Key::S => Some(0x08u8),
        Key::D => Some(0x09u8),
        Key::Z => Some(0x0Au8),
        Key::C => Some(0x0Bu8),
        Key::Num4 => Some(0x0Cu8),
        Key::R => Some(0x0Du8),
        Key::F => Some(0x0Eu8),
        Key::V => Some(0x0Fu8),
        _ => None,
    }
}

/// Whether the key asks the host to end the run.
pub open spec fn is_terminate_key(key: Key) -> bool {
    key == Key::Escape || key == Key::CapsLock
}

/// Converts a logical key id into its physical key.
pub fn map(code: u8) -> (key: Key)
    ensures
        key == physical_key(code),
{
    match code {
        0x00 => Key::X,
        0x01 => Key::Num1,
        0x02 => Key::Num2,
        0x03 => Key::Num3,
        0x04 => Key::Q,
        0x05 => Key::W,
        0x06 => Key::E,
        0x07 => Key::A,
        0x08 => Key::S,
        0x09 => Key::D,
        0x0A => Key::Z,
        0x0B => Key::C,
        0x0C => Key::Num4,
        0x0D => Key::R,
        0x0E => Key::F,
        0x0F => Key::V,
        _ => Key::Escape,
    }
}

/// Converts a physical key into its logical key id; `None` for a key outside
/// the layout.
pub fn unmap(key: Key) -> (code: Option<u8>)
    ensures
        code == logical_key(key),
{
    match key {
        Key::X => Some(0x00),
        Key::Num1 => Some(0x01),
        Key::Num2 => Some(0x02),
        Key::Num3 => Some(0x03),
        Key::Q => Some(0x04),
        Key::W => Some(0x05),
        Key::E => Some(0x06),
        Key::A => Some(0x07),
        Key::S => Some(0x08),
        Key::D => Some(0x09),
        Key::Z => Some(0x0A),
        Key::C => Some(0x0B),
        Key::Num4 => Some(0x0C),
        Key::R => Some(0x0D),
        Key::F => Some(0x0E),
        Key::V => Some(0x0F),
        _ => None,
    }
}

/// Whether the key is one of the two that end the run.
pub fn terminates(key: Key) -> (b: bool)
    ensures
        b == is_terminate_key(key),
{
    match key {
        Key::Escape => true,
        Key::CapsLock => true,
        _ => false,
    }
}

/// Every logical key id maps to a physical key that maps back to it.
pub proof fn lemma_unmap_map(code: u8)
    requires
        code < 16,
    ensures
        logical_key(physical_key(code)) == Some(code),
{
}

/// A physical key of the layout is the key of its own logical id, and that id
/// is below sixteen.
pub proof fn lemma_map_unmap(key: Key)
    requires
        logical_key(key) is Some,
    ensures
        logical_key(key).unwrap() < 16,
        physical_key(logical_key(key).unwrap()) == key,
{
}

/// No terminate key is part of the layout.
pub proof fn lemma_terminate_keys_unmapped(key: Key)
    requires
        is_terminate_key(key),
    ensures
        logical_key(key) is None,
{
}

} // verus!
