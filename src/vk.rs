//! The key resolution table for Windows: virtual-key codes to canonical
//! keys, in two stages. The first stage matches the control, function,
//! numberpad and math keys by their virtual-key constants. Only where it
//! finds nothing is the code read as an ASCII character and matched against
//! the digits and capital letters, whose virtual-key codes coincide with
//! their ASCII codes.

use crate::keycode::Keycode;
use vstd::prelude::*;

verus! {

// Virtual-key codes, as Windows (and `winapi::um::winuser`) defines them.
pub const VK_F1: i32 = 0x70;
pub const VK_F2: i32 = 0x71;
pub const VK_F3: i32 = 0x72;
pub const VK_F4: i32 = 0x73;
pub const VK_F5: i32 = 0x74;
pub const VK_F6: i32 = 0x75;
pub const VK_F7: i32 = 0x76;
pub const VK_F8: i32 = 0x77;
pub const VK_F9: i32 = 0x78;
pub const VK_F10: i32 = 0x79;
pub const VK_F11: i32 = 0x7A;
pub const VK_F12: i32 = 0x7B;
pub const VK_F13: i32 = 0x7C;
pub const VK_F14: i32 = 0x7D;
pub const VK_F15: i32 = 0x7E;
pub const VK_F16: i32 = 0x7F;
pub const VK_F17: i32 = 0x80;
pub const VK_F18: i32 = 0x81;
pub const VK_F19: i32 = 0x82;
pub const VK_F20: i32 = 0x83;
pub const VK_F21: i32 = 0x84;
pub const VK_F22: i32 = 0x85;
pub const VK_F23: i32 = 0x86;
pub const VK_F24: i32 = 0x87;
pub const VK_SPACE: i32 = 0x20;
pub const VK_LCONTROL: i32 = 0xA2;
pub const VK_RCONTROL: i32 = 0xA3;
pub const VK_LSHIFT: i32 = 0xA0;
pub const VK_RSHIFT: i32 = 0xA1;
pub const VK_LMENU: i32 = 0xA4;
pub const VK_RMENU: i32 = 0xA5;
pub const VK_RETURN: i32 = 0x0D;
pub const VK_ESCAPE: i32 = 0x1B;
pub const VK_CAPITAL: i32 = 0x14;
pub const VK_DELETE: i32 = 0x2E;
pub const VK_INSERT: i32 = 0x2D;
pub const VK_TAB: i32 = 0x09;
pub const VK_NUMLOCK: i32 = 0x90;
pub const VK_NUMPAD0: i32 = 0x60;
pub const VK_NUMPAD1: i32 = 0x61;
pub const VK_NUMPAD2: i32 = 0x62;
pub const VK_NUMPAD3: i32 = 0x63;
pub const VK_NUMPAD4: i32 = 0x64;
pub const VK_NUMPAD5: i32 = 0x65;
pub const VK_NUMPAD6: i32 = 0x66;
pub const VK_NUMPAD7: i32 = 0x67;
pub const VK_NUMPAD8: i32 = 0x68;
pub const VK_NUMPAD9: i32 = 0x69;
pub const VK_ADD: i32 = 0x6B;
pub const VK_DECIMAL: i32 = 0x6E;
pub const VK_DIVIDE: i32 = 0x6F;
pub const VK_MULTIPLY: i32 = 0x6A;
pub const VK_SUBTRACT: i32 = 0x6D;

// Virtual-key codes of the mouse buttons.
pub const VK_LBUTTON: i32 = 0x01;
pub const VK_RBUTTON: i32 = 0x02;
pub const VK_MBUTTON: i32 = 0x04;
pub const VK_XBUTTON1: i32 = 0x05;
pub const VK_XBUTTON2: i32 = 0x06;

/// The virtual-key code of each canonical key that the first stage covers.
pub open spec fn control_vk_of(key: Keycode) -> Option<i32> {
    match key {
        // Function keys
        Keycode::F1 => Some(VK_F1),
        Keycode::F2 => Some(VK_F2),
        Keycode::F3 => Some(VK_F3),
        Keycode::F4 => Some(VK_F4),
        Keycode::F5 => Some(VK_F5),
        Keycode::F6 => Some(VK_F6),
        Keycode::F7 => Some(VK_F7),
        Keycode::F8 => Some(VK_F8),
        Keycode::F9 => Some(VK_F9),
        Keycode::F10 => Some(VK_F10),
        Keycode::F11 => Some(VK_F11),
        Keycode::F12 => Some(VK_F12),
        Keycode::F13 => Some(VK_F13),
        Keycode::F14 => Some(VK_F14),
        Keycode::F15 => Some(VK_F15),
        Keycode::F16 => Some(VK_F16),
        Keycode::F17 => Some(VK_F17),
        Keycode::F18 => Some(VK_F18),
        Keycode::F19 => Some(VK_F19),
        Keycode::F20 => Some(VK_F20),
        Keycode::F21 => Some(VK_F21),
        Keycode::F22 => Some(VK_F22),
        Keycode::F23 => Some(VK_F23),
        Keycode::F24 => Some(VK_F24),
        // Miscellaneous control keys
        Keycode::Space => Some(VK_SPACE),
        Keycode::LControl => Some(VK_LCONTROL),
        Keycode::RControl => Some(VK_RCONTROL),
        Keycode::LShift => Some(VK_LSHIFT),
        Keycode::RShift => Some(VK_RSHIFT),
        Keycode::LAlt => Some(VK_LMENU),
        Keycode::RAlt => Some(VK_RMENU),
        Keycode::Enter => Some(VK_RETURN),
        Keycode::Escape => Some(VK_ESCAPE),
        Keycode::Capital => Some(VK_CAPITAL),
        Keycode::Delete => Some(VK_DELETE),
        Keycode::Insert => Some(VK_INSERT),
        Keycode::Tab => Some(VK_TAB),
        // Numberpad keys
        Keycode::Numlock => Some(VK_NUMLOCK),
        Keycode::Numpad0 => Some(VK_NUMPAD0),
        Keycode::Numpad1 => Some(VK_NUMPAD1),
        Keycode::Numpad2 => Some(VK_NUMPAD2),
        Keycode::Numpad3 => Some(VK_NUMPAD3),
        Keycode::Numpad4 => Some(VK_NUMPAD4),
        Keycode::Numpad5 => Some(VK_NUMPAD5),
        Keycode::Numpad6 => Some(VK_NUMPAD6),
        Keycode::Numpad7 => Some(VK_NUMPAD7),
        Keycode::Numpad8 => Some(VK_NUMPAD8),
        Keycode::Numpad9 => Some(VK_NUMPAD9),
        // Math keys
        Keycode::Add => Some(VK_ADD),
        Keycode::Decimal => Some(VK_DECIMAL),
        Keycode::Divide => Some(VK_DIVIDE),
        Keycode::Multiply => Some(VK_MULTIPLY),
        Keycode::Subtract => Some(VK_SUBTRACT),
        _ => None,
    }
}

/// The ASCII character of each canonical key that the second stage covers.
pub open spec fn ascii_char_of(key: Keycode) -> Option<char> {
    match key {
        // Numeric keys
        Keycode::Key0 => Some('0'),
        Keycode::Key1 => Some('1'),
        Keycode::Key2 => Some('2'),
        Keycode::Key3 => Some('3'),
        Keycode::Key4 => Some('4'),
        Keycode::Key5 => Some('5'),
        Keycode::Key6 => Some('6'),
        Keycode::Key7 => Some('7'),
        Keycode::Key8 => Some('8'),
        Keycode::Key9 => Some('9'),
        // Letter keys
        Keycode::A => Some('A'),
        Keycode::B => Some('B'),
        Keycode::C => Some('C'),
        Keycode::D => Some('D'),
        Keycode::E => Some('E'),
        Keycode::F => Some('F'),
        Keycode::G => Some('G'),
        Keycode::H => Some('H'),
        Keycode::I => Some('I'),
        Keycode::J => Some('J'),
        Keycode::K => Some('K'),
        Keycode::L => Some('L'),
        Keycode::M => Some('M'),
        Keycode::N => Some('N'),
        Keycode::O => Some('O'),
        Keycode::P => Some('P'),
        Keycode::Q => Some('Q'),
        Keycode::R => Some('R'),
        Keycode::S => Some('S'),
        Keycode::T => Some('T'),
        Keycode::U => Some('U'),
        Keycode::V => Some('V'),
        Keycode::W => Some('W'),
        Keycode::X => Some('X'),
        Keycode::Y => Some('Y'),
        Keycode::Z => Some('Z'),
        _ => None,
    }
}

/// The canonical key that the first stage gives for a virtual-key code.
pub open spec fn control_key(keycode: i32) -> Option<Keycode> {
    if exists|k: Keycode| control_vk_of(k) == Some(keycode) {
        Some(choose|k: Keycode| control_vk_of(k) == Some(keycode))
    } else {
        None
    }
}

/// The canonical key that the second stage gives for a character code.
pub open spec fn char_key(c: u8) -> Option<Keycode> {
    if exists|k: Keycode| ascii_char_of(k) == Some(c as char) {
        Some(choose|k: Keycode| ascii_char_of(k) == Some(c as char))
    } else {
        None
    }
}

/// The canonical key for a virtual-key code: the first stage, and the
/// second on the code's low byte where the first finds nothing.
pub open spec fn vk_key(keycode: i32) -> Option<Keycode> {
    match control_key(keycode) {
        Some(k) => Some(k),
        None => char_key(keycode as u8),
    }
}

/// No two canonical keys share a virtual-key code in the first stage.
pub proof fn lemma_control_vk_of_injective(a: Keycode, b: Keycode)
    requires
        control_vk_of(a) is Some,
        control_vk_of(a) == control_vk_of(b),
    ensures
        a == b,
{
}

/// No two canonical keys share a character code in the second stage.
pub proof fn lemma_ascii_char_of_injective(a: Keycode, b: Keycode)
    requires
        ascii_char_of(a) is Some,
        ascii_char_of(a) == ascii_char_of(b),
    ensures
        a == b,
{
}

/// Every virtual-key code of the first stage resolves to the key that it is
/// documented for, and so does every character code of the second stage
/// that the first stage leaves free. A code in neither stage resolves to
/// nothing.
pub proof fn lemma_vk_table_round_trip(key: Keycode, keycode: i32)
    ensures
        control_vk_of(key) == Some(keycode) ==> vk_key(keycode) == Some(key),
        ascii_char_of(key) == Some(keycode as u8 as char)
            && (forall|k: Keycode| control_vk_of(k) != Some(keycode)) ==> vk_key(keycode) == Some(
            key,
        ),
        (forall|k: Keycode| control_vk_of(k) != Some(keycode))
            && (forall|k: Keycode| ascii_char_of(k) != Some(keycode as u8 as char)) ==> vk_key(keycode) is None,
{
    if control_vk_of(key) == Some(keycode) {
        let k = choose|k: Keycode| control_vk_of(k) == Some(keycode);
        lemma_control_vk_of_injective(key, k);
    }
    if ascii_char_of(key) == Some(keycode as u8 as char) {
        let k = choose|k: Keycode| ascii_char_of(k) == Some(keycode as u8 as char);
        lemma_ascii_char_of_injective(key, k);
    }
}

/// No canonical key is in both stages.
proof fn lemma_stages_disjoint(key: Keycode)
    ensures
        control_vk_of(key) is None || ascii_char_of(key) is None,
{
}

/// The character codes of the second stage are free in the first stage.
proof fn lemma_char_codes_not_control(key: Keycode, other: Keycode)
    requires
        ascii_char_of(key) is Some,
    ensures
        control_vk_of(other) != Some(ascii_char_of(key).unwrap() as u32 as i32),
{
}

/// On the codes 0 to 255 the table is one to one: two codes that resolve
/// to the same key are the same code.
pub proof fn lemma_vk_key_injective(a: i32, b: i32)
    requires
        0 <= a < 256,
        0 <= b < 256,
        vk_key(a) is Some,
        vk_key(a) == vk_key(b),
    ensures
        a == b,
{
    let key = vk_key(a).unwrap();
    lemma_stages_disjoint(key);
    if control_key(a) is Some {
        assert(control_vk_of(key) == Some(a));
        if control_key(b) is Some {
            assert(control_vk_of(key) == Some(b));
        } else {
            assert(ascii_char_of(key) == Some(b as u8 as char));
        }
    } else {
        assert(ascii_char_of(key) == Some(a as u8 as char));
        if control_key(b) is Some {
            assert(control_vk_of(key) == Some(b));
        } else {
            assert(ascii_char_of(key) == Some(b as u8 as char));
            assert((a as u8 as char) == (b as u8 as char));
            assert(a as u8 == b as u8);
        }
    }
}

/// Every canonical key that the table covers is reached by one of the codes
/// 0 to 255.
pub proof fn lemma_vk_key_onto(key: Keycode)
    requires
        control_vk_of(key) is Some || ascii_char_of(key) is Some,
    ensures
        exists|c: i32| 0 <= c < 256 && vk_key(c) == Some(key),
{
    if control_vk_of(key) is Some {
        let c = control_vk_of(key).unwrap();
        lemma_vk_table_round_trip(key, c);
        assert(0 <= c < 256 && vk_key(c) == Some(key));
    } else {
        let ch = ascii_char_of(key).unwrap();
        let c = ch as u32 as i32;
        assert(0 <= c < 256);
        assert(c as u8 as char == ch);
        assert forall|k: Keycode| control_vk_of(k) != Some(c) by {
            lemma_char_codes_not_control(key, k);
        }
        lemma_vk_table_round_trip(key, c);
        assert(vk_key(c) == Some(key));
    }
}

impl Keycode {
    /// The first stage: the control, function, numberpad or math key that a
    /// virtual-key code stands for, or `None`.
    pub fn control_keycode_to_key(keycode: i32) -> (r: Option<Keycode>)
        ensures
            forall|k: Keycode| r == Some(k) <==> control_vk_of(k) == Some(keycode),
            r == control_key(keycode),
    {
        let r = match keycode {
            // Function keys
            VK_F1 => Some(Keycode::F1),
            VK_F2 => Some(Keycode::F2),
            VK_F3 => Some(Keycode::F3),
            VK_F4 => Some(Keycode::F4),
            VK_F5 => Some(Keycode::F5),
            VK_F6 => Some(Keycode::F6),
            VK_F7 => Some(Keycode::F7),
            VK_F8 => Some(Keycode::F8),
            VK_F9 => Some(Keycode::F9),
            VK_F10 => Some(Keycode::F10),
            VK_F11 => Some(Keycode::F11),
            VK_F12 => Some(Keycode::F12),
            VK_F13 => Some(Keycode::F13),
            VK_F14 => Some(Keycode::F14),
            VK_F15 => Some(Keycode::F15),
            VK_F16 => Some(Keycode::F16),
            VK_F17 => Some(Keycode::F17),
            VK_F18 => Some(Keycode::F18),
            VK_F19 => Some(Keycode::F19),
            VK_F20 => Some(Keycode::F20),
            VK_F21 => Some(Keycode::F21),
            VK_F22 => Some(Keycode::F22),
            VK_F23 => Some(Keycode::F23),
            VK_F24 => Some(Keycode::F24),
            // Miscellaneous control keys
            VK_SPACE => Some(Keycode::Space),
            VK_LCONTROL => Some(Keycode::LControl),
            VK_RCONTROL => Some(Keycode::RControl),
            VK_LSHIFT => Some(Keycode::LShift),
            VK_RSHIFT => Some(Keycode::RShift),
            VK_LMENU => Some(Keycode::LAlt),
            VK_RMENU => Some(Keycode::RAlt),
            VK_RETURN => Some(Keycode::Enter),
            VK_ESCAPE => Some(Keycode::Escape),
            VK_CAPITAL => Some(Keycode::Capital),
            VK_DELETE => Some(Keycode::Delete),
            VK_INSERT => Some(Keycode::Insert),
            VK_TAB => Some(Keycode::Tab),
            // Numberpad keys
            VK_NUMLOCK => Some(Keycode::Numlock),
            VK_NUMPAD0 => Some(Keycode::Numpad0),
            VK_NUMPAD1 => Some(Keycode::Numpad1),
            VK_NUMPAD2 => Some(Keycode::Numpad2),
            VK_NUMPAD3 => Some(Keycode::Numpad3),
            VK_NUMPAD4 => Some(Keycode::Numpad4),
            VK_NUMPAD5 => Some(Keycode::Numpad5),
            VK_NUMPAD6 => Some(Keycode::Numpad6),
            VK_NUMPAD7 => Some(Keycode::Numpad7),
            VK_NUMPAD8 => Some(Keycode::Numpad8),
            VK_NUMPAD9 => Some(Keycode::Numpad9),
            // Math keys
            VK_ADD => Some(Keycode::Add),
            VK_DECIMAL => Some(Keycode::Decimal),
            VK_DIVIDE => Some(Keycode::Divide),
            VK_MULTIPLY => Some(Keycode::Multiply),
            VK_SUBTRACT => Some(Keycode::Subtract),
            _ => None,
        };
        proof {
            if let Some(key) = r {
                let k = choose|k: Keycode| control_vk_of(k) == Some(keycode);
                lemma_control_vk_of_injective(key, k);
            }
        }
        r
    }

    /// The second stage: the digit or capital-letter key whose ASCII code is
    /// `c`, or `None`.
    pub fn char_code_to_key(c: u8) -> (r: Option<Keycode>)
        ensures
            forall|k: Keycode| r == Some(k) <==> ascii_char_of(k) == Some(c as char),
            r == char_key(c),
    {
        let r = match c as char {
            // Numeric keys
            '0' => Some(Keycode::Key0),
            '1' => Some(Keycode::Key1),
            '2' => Some(Keycode::Key2),
            '3' => Some(Keycode::Key3),
            '4' => Some(Keycode::Key4),
            '5' => Some(Keycode::Key5),
            '6' => Some(Keycode::Key6),
            '7' => Some(Keycode::Key7),
            '8' => Some(Keycode::Key8),
            '9' => Some(Keycode::Key9),
            // Letter keys
            'A' => Some(Keycode::A),
            'B' => Some(Keycode::B),
            'C' => Some(Keycode::C),
            'D' => Some(Keycode::D),
            'E' => Some(Keycode::E),
            'F' => Some(Keycode::F),
            'G' => Some(Keycode::G),
            'H' => Some(Keycode::H),
            'I' => Some(Keycode::I),
            'J' => Some(Keycode::J),
            'K' => Some(Keycode::K),
            'L' => Some(Keycode::L),
            'M' => Some(Keycode::M),
            'N' => Some(Keycode::N),
            'O' => Some(Keycode::O),
            'P' => Some(Keycode::P),
            'Q' => Some(Keycode::Q),
            'R' => Some(Keycode::R),
            'S' => Some(Keycode::S),
            'T' => Some(Keycode::T),
            'U' => Some(Keycode::U),
            'V' => Some(Keycode::V),
            'W' => Some(Keycode::W),
            'X' => Some(Keycode::X),
            'Y' => Some(Keycode::Y),
            'Z' => Some(Keycode::Z),
            _ => None,
        };
        proof {
            if let Some(key) = r {
                let k = choose|k: Keycode| ascii_char_of(k) == Some(c as char);
                lemma_ascii_char_of_injective(key, k);
            }
        }
        r
    }

    /// The canonical key that a Windows virtual-key code stands for, or
    /// `None` when neither stage of the table has it.
    pub fn keycode_to_key(keycode: i32) -> (r: Option<Keycode>)
        ensures
            r == vk_key(keycode),
    {
        match Keycode::control_keycode_to_key(keycode) {
            Some(k) => Some(k),
            None => Keycode::char_code_to_key(keycode as u8),
        }
    }
}

} // verus!
