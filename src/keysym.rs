//! The key resolution table for X11: X keysyms to canonical keys.
#![allow(non_upper_case_globals)]

use crate::keycode::Keycode;
use vstd::prelude::*;

verus! {

// X keysym values, as the X11 protocol (and `x11::keysym`) defines them.
pub const XK_0: u32 = 0x030;
pub const XK_1: u32 = 0x031;
pub const XK_2: u32 = 0x032;
pub const XK_3: u32 = 0x033;
pub const XK_4: u32 = 0x034;
pub const XK_5: u32 = 0x035;
pub const XK_6: u32 = 0x036;
pub const XK_7: u32 = 0x037;
pub const XK_8: u32 = 0x038;
pub const XK_9: u32 = 0x039;
pub const XK_A: u32 = 0x041;
pub const XK_B: u32 = 0x042;
pub const XK_C: u32 = 0x043;
pub const XK_D: u32 = 0x044;
pub const XK_E: u32 = 0x045;
pub const XK_F: u32 = 0x046;
pub const XK_G: u32 = 0x047;
pub const XK_H: u32 = 0x048;
pub const XK_I: u32 = 0x049;
pub const XK_J: u32 = 0x04a;
pub const XK_K: u32 = 0x04b;
pub const XK_L: u32 = 0x04c;
pub const XK_M: u32 = 0x04d;
pub const XK_N: u32 = 0x04e;
pub const XK_O: u32 = 0x04f;
pub const XK_P: u32 = 0x050;
pub const XK_Q: u32 = 0x051;
pub const XK_R: u32 = 0x052;
pub const XK_S: u32 = 0x053;
pub const XK_T: u32 = 0x054;
pub const XK_U: u32 = 0x055;
pub const XK_V: u32 = 0x056;
pub const XK_W: u32 = 0x057;
pub const XK_X: u32 = 0x058;
pub const XK_Y: u32 = 0x059;
pub const XK_Z: u32 = 0x05a;
pub const XK_F1: u32 = 0xFFBE;
pub const XK_F2: u32 = 0xFFBF;
pub const XK_F3: u32 = 0xFFC0;
pub const XK_F4: u32 = 0xFFC1;
pub const XK_F5: u32 = 0xFFC2;
pub const XK_F6: u32 = 0xFFC3;
pub const XK_F7: u32 = 0xFFC4;
pub const XK_F8: u32 = 0xFFC5;
pub const XK_F9: u32 = 0xFFC6;
pub const XK_F10: u32 = 0xFFC7;
pub const XK_F11: u32 = 0xFFC8;
pub const XK_F12: u32 = 0xFFC9;
pub const XK_Escape: u32 = 0xFF1B;
pub const XK_space: u32 = 0x020;
pub const XK_Control_L: u32 = 0xFFE3;
pub const XK_Control_R: u32 = 0xFFE4;
pub const XK_Shift_L: u32 = 0xFFE1;
pub const XK_Shift_R: u32 = 0xFFE2;
pub const XK_Alt_L: u32 = 0xFFE9;
pub const XK_Alt_R: u32 = 0xFFEA;
pub const XK_Return: u32 = 0xFF0D;

/// The X keysym that reports each canonical key, for the keys that the X11
/// table covers.
pub open spec fn keysym_of(key: Keycode) -> Option<u32> {
    match key {
        // Numeric keys
        Keycode::Key0 => Some(XK_0),
        Keycode::Key1 => Some(XK_1),
        Keycode::Key2 => Some(XK_2),
        Keycode::Key3 => Some(XK_3),
        Keycode::Key4 => Some(XK_4),
        Keycode::Key5 => Some(XK_5),
        Keycode::Key6 => Some(XK_6),
        Keycode::Key7 => Some(XK_7),
        Keycode::Key8 => Some(XK_8),
        Keycode::Key9 => Some(XK_9),
        // Letter keys
        Keycode::A => Some(XK_A),
        Keycode::B => Some(XK_B),
        Keycode::C => Some(XK_C),
        Keycode::D => Some(XK_D),
        Keycode::E => Some(XK_E),
        Keycode::F => Some(XK_F),
        Keycode::G => Some(XK_G),
        Keycode::H => Some(XK_H),
        Keycode::I => Some(XK_I),
        Keycode::J => Some(XK_J),
        Keycode::K => Some(XK_K),
        Keycode::L => Some(XK_L),
        Keycode::M => Some(XK_M),
        Keycode::N => Some(XK_N),
        Keycode::O => Some(XK_O),
        Keycode::P => Some(XK_P),
        Keycode::Q => Some(XK_Q),
        Keycode::R => Some(XK_R),
        Keycode::S => Some(XK_S),
        Keycode::T => Some(XK_T),
        Keycode::U => Some(XK_U),
        Keycode::V => Some(XK_V),
        Keycode::W => Some(XK_W),
        Keycode::X => Some(XK_X),
        Keycode::Y => Some(XK_Y),
        Keycode::Z => Some(XK_Z),
        // Function keys
        Keycode::F1 => Some(XK_F1),
        Keycode::F2 => Some(XK_F2),
        Keycode::F3 => Some(XK_F3),
        Keycode::F4 => Some(XK_F4),
        Keycode::F5 => Some(XK_F5),
        Keycode::F6 => Some(XK_F6),
        Keycode::F7 => Some(XK_F7),
        Keycode::F8 => Some(XK_F8),
        Keycode::F9 => Some(XK_F9),
        Keycode::F10 => Some(XK_F10),
        Keycode::F11 => Some(XK_F11),
        Keycode::F12 => Some(XK_F12),
        // Miscellaneous control keys
        Keycode::Escape => Some(XK_Escape),
        Keycode::Space => Some(XK_space),
        Keycode::LControl => Some(XK_Control_L),
        Keycode::RControl => Some(XK_Control_R),
        Keycode::LShift => Some(XK_Shift_L),
        Keycode::RShift => Some(XK_Shift_R),
        Keycode::LAlt => Some(XK_Alt_L),
        Keycode::RAlt => Some(XK_Alt_R),
        Keycode::Enter => Some(XK_Return),
        _ => None,
    }
}

/// The canonical key that an X keysym reports, if the table has one.
pub open spec fn keysym_key(keysym: u32) -> Option<Keycode> {
    if exists|k: Keycode| keysym_of(k) == Some(keysym) {
        Some(choose|k: Keycode| keysym_of(k) == Some(keysym))
    } else {
        None
    }
}

/// No two canonical keys share an X keysym.
pub proof fn lemma_keysym_of_injective(a: Keycode, b: Keycode)
    requires
        keysym_of(a) is Some,
        keysym_of(a) == keysym_of(b),
    ensures
        a == b,
{
}

/// Every keysym of the table resolves to the key that it is documented
/// for, and a keysym outside the table resolves to nothing.
pub proof fn lemma_keysym_table_round_trip(key: Keycode, keysym: u32)
    ensures
        keysym_of(key) == Some(keysym) ==> keysym_key(keysym) == Some(key),
        (forall|k: Keycode| keysym_of(k) != Some(keysym)) ==> keysym_key(keysym) is None,
{
    if keysym_of(key) == Some(keysym) {
        let k = choose|k: Keycode| keysym_of(k) == Some(keysym);
        lemma_keysym_of_injective(key, k);
    }
}

impl Keycode {
    /// The canonical key that an X keysym reports, or `None` when the keysym
    /// is not in the table.
    pub fn keysym_to_key(keysym: u32) -> (r: Option<Keycode>)
        ensures
            forall|k: Keycode| r == Some(k) <==> keysym_of(k) == Some(keysym),
            r == keysym_key(keysym),
    {
        let r = match keysym {
        // Numeric keys
            XK_0 => Some(Keycode::Key0),
            XK_1 => Some(Keycode::Key1),
            XK_2 => Some(Keycode::Key2),
            XK_3 => Some(Keycode::Key3),
            XK_4 => Some(Keycode::Key4),
            XK_5 => Some(Keycode::Key5),
            XK_6 => Some(Keycode::Key6),
            XK_7 => Some(Keycode::Key7),
            XK_8 => Some(Keycode::Key8),
            XK_9 => Some(Keycode::Key9),
        // Letter keys
            XK_A => Some(Keycode::A),
            XK_B => Some(Keycode::B),
            XK_C => Some(Keycode::C),
            XK_D => Some(Keycode::D),
            XK_E => Some(Keycode::E),
            XK_F => Some(Keycode::F),
            XK_G => Some(Keycode::G),
            XK_H => Some(Keycode::H),
            XK_I => Some(Keycode::I),
            XK_J => Some(Keycode::J),
            XK_K => Some(Keycode::K),
            XK_L => Some(Keycode::L),
            XK_M => Some(Keycode::M),
            XK_N => Some(Keycode::N),
            XK_O => Some(Keycode::O),
            XK_P => Some(Keycode::P),
            XK_Q => Some(Keycode::Q),
            XK_R => Some(Keycode::R),
            XK_S => Some(Keycode::S),
            XK_T => Some(Keycode::T),
            XK_U => Some(Keycode::U),
            XK_V => Some(Keycode::V),
            XK_W => Some(Keycode::W),
            XK_X => Some(Keycode::X),
            XK_Y => Some(Keycode::Y),
            XK_Z => Some(Keycode::Z),
        // Function keys
            XK_F1 => Some(Keycode::F1),
            XK_F2 => Some(Keycode::F2),
            XK_F3 => Some(Keycode::F3),
            XK_F4 => Some(Keycode::F4),
            XK_F5 => Some(Keycode::F5),
            XK_F6 => Some(Keycode::F6),
            XK_F7 => Some(Keycode::F7),
            XK_F8 => Some(Keycode::F8),
            XK_F9 => Some(Keycode::F9),
            XK_F10 => Some(Keycode::F10),
            XK_F11 => Some(Keycode::F11),
            XK_F12 => Some(Keycode::F12),
        // Miscellaneous control keys
            XK_Escape => Some(Keycode::Escape),
            XK_space => Some(Keycode::Space),
            XK_Control_L => Some(Keycode::LControl),
            XK_Control_R => Some(Keycode::RControl),
            XK_Shift_L => Some(Keycode::LShift),
            XK_Shift_R => Some(Keycode::RShift),
            XK_Alt_L => Some(Keycode::LAlt),
            XK_Alt_R => Some(Keycode::RAlt),
            XK_Return => Some(Keycode::Enter),
            _ => None,
        };
        proof {
            if let Some(key) = r {
                lemma_keysym_table_round_trip(key, keysym);
            }
        }
        r
    }
}

} // verus!
