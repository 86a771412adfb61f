//! The native key-code table: a closed, static, bidirectional mapping
//! between canonical keys and the platform's virtual key codes.
use vstd::prelude::*;

use crate::event::Key;

verus! {

/// The native code of `k`, or `None` where the platform has no code for it.
pub open spec fn native_code(k: Key) -> Option<u16> {
    match k {
        Key::A => Some(0u16),
        Key::S => Some(1u16),
        Key::D => Some(2u16),
        Key::F => Some(3u16),
        Key::H => Some(4u16),
        Key::G => Some(5u16),
        Key::Z => Some(6u16),
        Key::X => Some(7u16),
        Key::C => Some(8u16),
        Key::V => Some(9u16),
        Key::B => Some(11u16),
        Key::Q => Some(12u16),
        Key::W => Some(13u16),
        Key::E => Some(14u16),
        Key::R => Some(15u16),
        Key::Y => Some(16u16),
        Key::T => Some(17u16),
        Key::Num1 => Some(18u16),
        Key::Num2 => Some(19u16),
        Key::Num3 => Some(20u16),
        Key::Num4 => Some(21u16),
        Key::Num6 => Some(22u16),
        Key::Num5 => Some(23u16),
        Key::Num9 => Some(25u16),
        Key::Num7 => Some(26u16),
        Key::Num8 => Some(28u16),
        Key::Num0 => Some(29u16),
        Key::O => Some(31u16),
        Key::U => Some(32u16),
        Key::I => Some(34u16),
        Key::P => Some(35u16),
        Key::Enter => Some(36u16),
        Key::L => Some(37u16),
        Key::J => Some(38u16),
        Key::K => Some(40u16),
        Key::N => Some(45u16),
        Key::M => Some(46u16),
        Key::Tab => Some(48u16),
        Key::Space => Some(49u16),
        Key::Backspace => Some(51u16),
        Key::Esc => Some(53u16),
        Key::RightMeta => Some(54u16),
        Key::LeftMeta => Some(55u16),
        Key::LeftShift => Some(56u16),
        Key::CapsLock => Some(57u16),
        Key::LeftAlt => Some(58u16),
        Key::Controlpanel => Some(59u16),
        Key::RightShift => Some(60u16),
        Key::RightAlt => Some(61u16),
        Key::Function => Some(63u16),
        Key::F5 => Some(96u16),
        Key::F6 => Some(97u16),
        Key::F7 => Some(98u16),
        Key::F3 => Some(99u16),
        Key::F8 => Some(100u16),
        Key::F9 => Some(101u16),
        Key::F11 => Some(103u16),
        Key::F10 => Some(109u16),
        Key::F12 => Some(111u16),
        Key::F4 => Some(118u16),
        Key::F2 => Some(120u16),
        Key::F1 => Some(122u16),
        Key::Left => Some(123u16),
        Key::Right => Some(124u16),
        Key::Down => Some(125u16),
        Key::Up => Some(126u16),
        _ => None,
    }
}

/// The key that the native code `c` stands for, or `None` for an undeclared code.
pub open spec fn key_for_code(c: u16) -> Option<Key> {
    match c {
        0u16 => Some(Key::A),
        1u16 => Some(Key::S),
        2u16 => Some(Key::D),
        3u16 => Some(Key::F),
        4u16 => Some(Key::H),
        5u16 => Some(Key::G),
        6u16 => Some(Key::Z),
        7u16 => Some(Key::X),
        8u16 => Some(Key::C),
        9u16 => Some(Key::V),
        11u16 => Some(Key::B),
        12u16 => Some(Key::Q),
        13u16 => Some(Key::W),
        14u16 => Some(Key::E),
        15u16 => Some(Key::R),
        16u16 => Some(Key::Y),
        17u16 => Some(Key::T),
        18u16 => Some(Key::Num1),
        19u16 => Some(Key::Num2),
        20u16 => Some(Key::Num3),
        21u16 => Some(Key::Num4),
        22u16 => Some(Key::Num6),
        23u16 => Some(Key::Num5),
        25u16 => Some(Key::Num9),
        26u16 => Some(Key::Num7),
        28u16 => Some(Key::Num8),
        29u16 => Some(Key::Num0),
        31u16 => Some(Key::O),
        32u16 => Some(Key::U),
        34u16 => Some(Key::I),
        35u16 => Some(Key::P),
        36u16 => Some(Key::Enter),
        37u16 => Some(Key::L),
        38u16 => Some(Key::J),
        40u16 => Some(Key::K),
        45u16 => Some(Key::N),
        46u16 => Some(Key::M),
        48u16 => Some(Key::Tab),
        49u16 => Some(Key::Space),
        51u16 => Some(Key::Backspace),
        53u16 => Some(Key::Esc),
        54u16 => Some(Key::RightMeta),
        55u16 => Some(Key::LeftMeta),
        56u16 => Some(Key::LeftShift),
        57u16 => Some(Key::CapsLock),
        58u16 => Some(Key::LeftAlt),
        59u16 => Some(Key::Controlpanel),
        60u16 => Some(Key::RightShift),
        61u16 => Some(Key::RightAlt),
        63u16 => Some(Key::Function),
        96u16 => Some(Key::F5),
        97u16 => Some(Key::F6),
        98u16 => Some(Key::F7),
        99u16 => Some(Key::F3),
        100u16 => Some(Key::F8),
        101u16 => Some(Key::F9),
        103u16 => Some(Key::F11),
        109u16 => Some(Key::F10),
        111u16 => Some(Key::F12),
        118u16 => Some(Key::F4),
        120u16 => Some(Key::F2),
        122u16 => Some(Key::F1),
        123u16 => Some(Key::Left),
        124u16 => Some(Key::Right),
        125u16 => Some(Key::Down),
        126u16 => Some(Key::Up),
        _ => None,
    }
}

impl Key {
    /// The native code of this key, if the table declares one.
    pub fn to_raw(&self) -> (r: Option<u16>)
        ensures
            r == native_code(*self),
    {
        match self {
            Key::A => Some(0u16),
            Key::S => Some(1u16),
            Key::D => Some(2u16),
            Key::F => Some(3u16),
            Key::H => Some(4u16),
            Key::G => Some(5u16),
            Key::Z => Some(6u16),
            Key::X => Some(7u16),
            Key::C => Some(8u16),
            Key::V => Some(9u16),
            Key::B => Some(11u16),
            Key::Q => Some(12u16),
            Key::W => Some(13u16),
            Key::E => Some(14u16),
            Key::R => Some(15u16),
            Key::Y => Some(16u16),
            Key::T => Some(17u16),
            Key::Num1 => Some(18u16),
            Key::Num2 => Some(19u16),
            Key::Num3 => Some(20u16),
            Key::Num4 => Some(21u16),
            Key::Num6 => Some(22u16),
            Key::Num5 => Some(23u16),
            Key::Num9 => Some(25u16),
            Key::Num7 => Some(26u16),
            Key::Num8 => Some(28u16),
            Key::Num0 => Some(29u16),
            Key::O => Some(31u16),
            Key::U => Some(32u16),
            Key::I => Some(34u16),
            Key::P => Some(35u16),
            Key::Enter => Some(36u16),
            Key::L => Some(37u16),
            Key::J => Some(38u16),
            Key::K => Some(40u16),
            Key::N => Some(45u16),
            Key::M => Some(46u16),
            Key::Tab => Some(48u16),
            Key::Space => Some(49u16),
            Key::Backspace => Some(51u16),
            Key::Esc => Some(53u16),
            Key::RightMeta => Some(54u16),
            Key::LeftMeta => Some(55u16),
            Key::LeftShift => Some(56u16),
            Key::CapsLock => Some(57u16),
            Key::LeftAlt => Some(58u16),
            Key::Controlpanel => Some(59u16),
            Key::RightShift => Some(60u16),
            Key::RightAlt => Some(61u16),
            Key::Function => Some(63u16),
            Key::F5 => Some(96u16),
            Key::F6 => Some(97u16),
            Key::F7 => Some(98u16),
            Key::F3 => Some(99u16),
            Key::F8 => Some(100u16),
            Key::F9 => Some(101u16),
            Key::F11 => Some(103u16),
            Key::F10 => Some(109u16),
            Key::F12 => Some(111u16),
            Key::F4 => Some(118u16),
            Key::F2 => Some(120u16),
            Key::F1 => Some(122u16),
            Key::Left => Some(123u16),
            Key::Right => Some(124u16),
            Key::Down => Some(125u16),
            Key::Up => Some(126u16),
            _ => None,
        }
    }

    /// The key that a native code stands for, if the table declares it.
    pub fn from_raw(code: u16) -> (r: Option<Key>)
        ensures
            r == key_for_code(code),
    {
        match code {
            0u16 => Some(Key::A),
            1u16 => Some(Key::S),
            2u16 => Some(Key::D),
            3u16 => Some(Key::F),
            4u16 => Some(Key::H),
            5u16 => Some(Key::G),
            6u16 => Some(Key::Z),
            7u16 => Some(Key::X),
            8u16 => Some(Key::C),
            9u16 => Some(Key::V),
            11u16 => Some(Key::B),
            12u16 => Some(Key::Q),
            13u16 => Some(Key::W),
            14u16 => Some(Key::E),
            15u16 => Some(Key::R),
            16u16 => Some(Key::Y),
            17u16 => Some(Key::T),
            18u16 => Some(Key::Num1),
            19u16 => Some(Key::Num2),
            20u16 => Some(Key::Num3),
            21u16 => Some(Key::Num4),
            22u16 => Some(Key::Num6),
            23u16 => Some(Key::Num5),
            25u16 => Some(Key::Num9),
            26u16 => Some(Key::Num7),
            28u16 => Some(Key::Num8),
            29u16 => Some(Key::Num0),
            31u16 => Some(Key::O),
            32u16 => Some(Key::U),
            34u16 => Some(Key::I),
            35u16 => Some(Key::P),
            36u16 => Some(Key::Enter),
            37u16 => Some(Key::L),
            38u16 => Some(Key::J),
            40u16 => Some(Key::K),
            45u16 => Some(Key::N),
            46u16 => Some(Key::M),
            48u16 => Some(Key::Tab),
            49u16 => Some(Key::Space),
            51u16 => Some(Key::Backspace),
            53u16 => Some(Key::Esc),
            54u16 => Some(Key::RightMeta),
            55u16 => Some(Key::LeftMeta),
            56u16 => Some(Key::LeftShift),
            57u16 => Some(Key::CapsLock),
            58u16 => Some(Key::LeftAlt),
            59u16 => Some(Key::Controlpanel),
            60u16 => Some(Key::RightShift),
            61u16 => Some(Key::RightAlt),
            63u16 => Some(Key::Function),
            96u16 => Some(Key::F5),
            97u16 => Some(Key::F6),
            98u16 => Some(Key::F7),
            99u16 => Some(Key::F3),
            100u16 => Some(Key::F8),
            101u16 => Some(Key::F9),
            103u16 => Some(Key::F11),
            109u16 => Some(Key::F10),
            111u16 => Some(Key::F12),
            118u16 => Some(Key::F4),
            120u16 => Some(Key::F2),
            122u16 => Some(Key::F1),
            123u16 => Some(Key::Left),
            124u16 => Some(Key::Right),
            125u16 => Some(Key::Down),
            126u16 => Some(Key::Up),
            _ => None,
        }
    }
}

/// Every key that has a native code comes back from that code unchanged.
pub proof fn lemma_code_round_trip(k: Key)
    requires
        native_code(k) is Some,
    ensures
        key_for_code(native_code(k)->0) == Some(k),
{
}

/// A code that the table does not declare stands for no key in either
/// direction: no key maps to it and it maps to no key.
pub proof fn lemma_undeclared_code(c: u16)
    requires
        forall|k: Key| native_code(k) != Some(c),
    ensures
        key_for_code(c) is None,
{
    match key_for_code(c) {
        Some(k) => {
            assert(native_code(k) == Some(c));
        }
        None => {}
    }
}

} // verus!
