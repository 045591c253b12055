use device_query::keysym;
use device_query::vk;
use device_query::Keycode;

fn keysym_table() -> Vec<(u32, Keycode)> {
    vec![
        (keysym::XK_0, Keycode::Key0),
        (keysym::XK_1, Keycode::Key1),
        (keysym::XK_2, Keycode::Key2),
        (keysym::XK_3, Keycode::Key3),
        (keysym::XK_4, Keycode::Key4),
        (keysym::XK_5, Keycode::Key5),
        (keysym::XK_6, Keycode::Key6),
        (keysym::XK_7, Keycode::Key7),
        (keysym::XK_8, Keycode::Key8),
        (keysym::XK_9, Keycode::Key9),
        (keysym::XK_A, Keycode::A),
        (keysym::XK_B, Keycode::B),
        (keysym::XK_C, Keycode::C),
        (keysym::XK_D, Keycode::D),
        (keysym::XK_E, Keycode::E),
        (keysym::XK_F, Keycode::F),
        (keysym::XK_G, Keycode::G),
        (keysym::XK_H, Keycode::H),
        (keysym::XK_I, Keycode::I),
        (keysym::XK_J, Keycode::J),
        (keysym::XK_K, Keycode::K),
        (keysym::XK_L, Keycode::L),
        (keysym::XK_M, Keycode::M),
        (keysym::XK_N, Keycode::N),
        (keysym::XK_O, Keycode::O),
        (keysym::XK_P, Keycode::P),
        (keysym::XK_Q, Keycode::Q),
        (keysym::XK_R, Keycode::R),
        (keysym::XK_S, Keycode::S),
        (keysym::XK_T, Keycode::T),
        (keysym::XK_U, Keycode::U),
        (keysym::XK_V, Keycode::V),
        (keysym::XK_W, Keycode::W),
        (keysym::XK_X, Keycode::X),
        (keysym::XK_Y, Keycode::Y),
        (keysym::XK_Z, Keycode::Z),
        (keysym::XK_F1, Keycode::F1),
        (keysym::XK_F2, Keycode::F2),
        (keysym::XK_F3, Keycode::F3),
        (keysym::XK_F4, Keycode::F4),
        (keysym::XK_F5, Keycode::F5),
        (keysym::XK_F6, Keycode::F6),
        (keysym::XK_F7, Keycode::F7),
        (keysym::XK_F8, Keycode::F8),
        (keysym::XK_F9, Keycode::F9),
        (keysym::XK_F10, Keycode::F10),
        (keysym::XK_F11, Keycode::F11),
        (keysym::XK_F12, Keycode::F12),
        (keysym::XK_Escape, Keycode::Escape),
        (keysym::XK_space, Keycode::Space),
        (keysym::XK_Control_L, Keycode::LControl),
        (keysym::XK_Control_R, Keycode::RControl),
        (keysym::XK_Shift_L, Keycode::LShift),
        (keysym::XK_Shift_R, Keycode::RShift),
        (keysym::XK_Alt_L, Keycode::LAlt),
        (keysym::XK_Alt_R, Keycode::RAlt),
        (keysym::XK_Return, Keycode::Enter),
    ]
}

fn control_table() -> Vec<(i32, Keycode)> {
    vec![
        (0x70, Keycode::F1),
        (0x71, Keycode::F2),
        (0x72, Keycode::F3),
        (0x73, Keycode::F4),
        (0x74, Keycode::F5),
        (0x75, Keycode::F6),
        (0x76, Keycode::F7),
        (0x77, Keycode::F8),
        (0x78, Keycode::F9),
        (0x79, Keycode::F10),
        (0x7a, Keycode::F11),
        (0x7b, Keycode::F12),
        (0x7c, Keycode::F13),
        (0x7d, Keycode::F14),
        (0x7e, Keycode::F15),
        (0x7f, Keycode::F16),
        (0x80, Keycode::F17),
        (0x81, Keycode::F18),
        (0x82, Keycode::F19),
        (0x83, Keycode::F20),
        (0x84, Keycode::F21),
        (0x85, Keycode::F22),
        (0x86, Keycode::F23),
        (0x87, Keycode::F24),
        (0x20, Keycode::Space),
        (0xa2, Keycode::LControl),
        (0xa3, Keycode::RControl),
        (0xa0, Keycode::LShift),
        (0xa1, Keycode::RShift),
        (0xa4, Keycode::LAlt),
        (0xa5, Keycode::RAlt),
        (0x0d, Keycode::Enter),
        (0x1b, Keycode::Escape),
        (0x14, Keycode::Capital),
        (0x2e, Keycode::Delete),
        (0x2d, Keycode::Insert),
        (0x09, Keycode::Tab),
        (0x90, Keycode::Numlock),
        (0x60, Keycode::Numpad0),
        (0x61, Keycode::Numpad1),
        (0x62, Keycode::Numpad2),
        (0x63, Keycode::Numpad3),
        (0x64, Keycode::Numpad4),
        (0x65, Keycode::Numpad5),
        (0x66, Keycode::Numpad6),
        (0x67, Keycode::Numpad7),
        (0x68, Keycode::Numpad8),
        (0x69, Keycode::Numpad9),
        (0x6b, Keycode::Add),
        (0x6e, Keycode::Decimal),
        (0x6f, Keycode::Divide),
        (0x6a, Keycode::Multiply),
        (0x6d, Keycode::Subtract),
    ]
}

fn char_table() -> Vec<(char, Keycode)> {
    vec![
        ('0', Keycode::Key0),
        ('1', Keycode::Key1),
        ('2', Keycode::Key2),
        ('3', Keycode::Key3),
        ('4', Keycode::Key4),
        ('5', Keycode::Key5),
        ('6', Keycode::Key6),
        ('7', Keycode::Key7),
        ('8', Keycode::Key8),
        ('9', Keycode::Key9),
        ('A', Keycode::A),
        ('B', Keycode::B),
        ('C', Keycode::C),
        ('D', Keycode::D),
        ('E', Keycode::E),
        ('F', Keycode::F),
        ('G', Keycode::G),
        ('H', Keycode::H),
        ('I', Keycode::I),
        ('J', Keycode::J),
        ('K', Keycode::K),
        ('L', Keycode::L),
        ('M', Keycode::M),
        ('N', Keycode::N),
        ('O', Keycode::O),
        ('P', Keycode::P),
        ('Q', Keycode::Q),
        ('R', Keycode::R),
        ('S', Keycode::S),
        ('T', Keycode::T),
        ('U', Keycode::U),
        ('V', Keycode::V),
        ('W', Keycode::W),
        ('X', Keycode::X),
        ('Y', Keycode::Y),
        ('Z', Keycode::Z),
    ]
}

#[test]
fn keysym_constants_match_x11() {
    assert_eq!(keysym::XK_0, x11::keysym::XK_0);
    assert_eq!(keysym::XK_1, x11::keysym::XK_1);
    assert_eq!(keysym::XK_2, x11::keysym::XK_2);
    assert_eq!(keysym::XK_3, x11::keysym::XK_3);
    assert_eq!(keysym::XK_4, x11::keysym::XK_4);
    assert_eq!(keysym::XK_5, x11::keysym::XK_5);
    assert_eq!(keysym::XK_6, x11::keysym::XK_6);
    assert_eq!(keysym::XK_7, x11::keysym::XK_7);
    assert_eq!(keysym::XK_8, x11::keysym::XK_8);
    assert_eq!(keysym::XK_9, x11::keysym::XK_9);
    assert_eq!(keysym::XK_A, x11::keysym::XK_A);
    assert_eq!(keysym::XK_B, x11::keysym::XK_B);
    assert_eq!(keysym::XK_C, x11::keysym::XK_C);
    assert_eq!(keysym::XK_D, x11::keysym::XK_D);
    assert_eq!(keysym::XK_E, x11::keysym::XK_E);
    assert_eq!(keysym::XK_F, x11::keysym::XK_F);
    assert_eq!(keysym::XK_G, x11::keysym::XK_G);
    assert_eq!(keysym::XK_H, x11::keysym::XK_H);
    assert_eq!(keysym::XK_I, x11::keysym::XK_I);
    assert_eq!(keysym::XK_J, x11::keysym::XK_J);
    assert_eq!(keysym::XK_K, x11::keysym::XK_K);
    assert_eq!(keysym::XK_L, x11::keysym::XK_L);
    assert_eq!(keysym::XK_M, x11::keysym::XK_M);
    assert_eq!(keysym::XK_N, x11::keysym::XK_N);
    assert_eq!(keysym::XK_O, x11::keysym::XK_O);
    assert_eq!(keysym::XK_P, x11::keysym::XK_P);
    assert_eq!(keysym::XK_Q, x11::keysym::XK_Q);
    assert_eq!(keysym::XK_R, x11::keysym::XK_R);
    assert_eq!(keysym::XK_S, x11::keysym::XK_S);
    assert_eq!(keysym::XK_T, x11::keysym::XK_T);
    assert_eq!(keysym::XK_U, x11::keysym::XK_U);
    assert_eq!(keysym::XK_V, x11::keysym::XK_V);
    assert_eq!(keysym::XK_W, x11::keysym::XK_W);
    assert_eq!(keysym::XK_X, x11::keysym::XK_X);
    assert_eq!(keysym::XK_Y, x11::keysym::XK_Y);
    assert_eq!(keysym::XK_Z, x11::keysym::XK_Z);
    assert_eq!(keysym::XK_F1, x11::keysym::XK_F1);
    assert_eq!(keysym::XK_F2, x11::keysym::XK_F2);
    assert_eq!(keysym::XK_F3, x11::keysym::XK_F3);
    assert_eq!(keysym::XK_F4, x11::keysym::XK_F4);
    assert_eq!(keysym::XK_F5, x11::keysym::XK_F5);
    assert_eq!(keysym::XK_F6, x11::keysym::XK_F6);
    assert_eq!(keysym::XK_F7, x11::keysym::XK_F7);
    assert_eq!(keysym::XK_F8, x11::keysym::XK_F8);
    assert_eq!(keysym::XK_F9, x11::keysym::XK_F9);
    assert_eq!(keysym::XK_F10, x11::keysym::XK_F10);
    assert_eq!(keysym::XK_F11, x11::keysym::XK_F11);
    assert_eq!(keysym::XK_F12, x11::keysym::XK_F12);
    assert_eq!(keysym::XK_Escape, x11::keysym::XK_Escape);
    assert_eq!(keysym::XK_space, x11::keysym::XK_space);
    assert_eq!(keysym::XK_Control_L, x11::keysym::XK_Control_L);
    assert_eq!(keysym::XK_Control_R, x11::keysym::XK_Control_R);
    assert_eq!(keysym::XK_Shift_L, x11::keysym::XK_Shift_L);
    assert_eq!(keysym::XK_Shift_R, x11::keysym::XK_Shift_R);
    assert_eq!(keysym::XK_Alt_L, x11::keysym::XK_Alt_L);
    assert_eq!(keysym::XK_Alt_R, x11::keysym::XK_Alt_R);
    assert_eq!(keysym::XK_Return, x11::keysym::XK_Return);
}

#[test]
fn every_table_keysym_resolves_to_its_key() {
    let table = keysym_table();
    assert_eq!(table.len(), 57);
    for (sym, key) in table {
        assert_eq!(Keycode::keysym_to_key(sym), Some(key));
    }
}

#[test]
fn keysyms_outside_the_table_resolve_to_nothing() {
    let table = keysym_table();
    for sym in (0u32..0x300).chain(0xFF00..0x10000) {
        if !table.iter().any(|(s, _)| *s == sym) {
            assert_eq!(Keycode::keysym_to_key(sym), None, "keysym {:#x}", sym);
        }
    }
    // Lower-case letters, keypad digits and Caps Lock are not in the table.
    assert_eq!(Keycode::keysym_to_key(x11::keysym::XK_a), None);
    assert_eq!(Keycode::keysym_to_key(x11::keysym::XK_KP_0), None);
    assert_eq!(Keycode::keysym_to_key(x11::keysym::XK_Caps_Lock), None);
    assert_eq!(Keycode::keysym_to_key(u32::MAX), None);
}

#[test]
fn virtual_key_constants_have_windows_values() {
    assert_eq!(vk::VK_F1, 0x70);
    assert_eq!(vk::VK_F2, 0x71);
    assert_eq!(vk::VK_F3, 0x72);
    assert_eq!(vk::VK_F4, 0x73);
    assert_eq!(vk::VK_F5, 0x74);
    assert_eq!(vk::VK_F6, 0x75);
    assert_eq!(vk::VK_F7, 0x76);
    assert_eq!(vk::VK_F8, 0x77);
    assert_eq!(vk::VK_F9, 0x78);
    assert_eq!(vk::VK_F10, 0x79);
    assert_eq!(vk::VK_F11, 0x7a);
    assert_eq!(vk::VK_F12, 0x7b);
    assert_eq!(vk::VK_F13, 0x7c);
    assert_eq!(vk::VK_F14, 0x7d);
    assert_eq!(vk::VK_F15, 0x7e);
    assert_eq!(vk::VK_F16, 0x7f);
    assert_eq!(vk::VK_F17, 0x80);
    assert_eq!(vk::VK_F18, 0x81);
    assert_eq!(vk::VK_F19, 0x82);
    assert_eq!(vk::VK_F20, 0x83);
    assert_eq!(vk::VK_F21, 0x84);
    assert_eq!(vk::VK_F22, 0x85);
    assert_eq!(vk::VK_F23, 0x86);
    assert_eq!(vk::VK_F24, 0x87);
    assert_eq!(vk::VK_SPACE, 0x20);
    assert_eq!(vk::VK_LCONTROL, 0xa2);
    assert_eq!(vk::VK_RCONTROL, 0xa3);
    assert_eq!(vk::VK_LSHIFT, 0xa0);
    assert_eq!(vk::VK_RSHIFT, 0xa1);
    assert_eq!(vk::VK_LMENU, 0xa4);
    assert_eq!(vk::VK_RMENU, 0xa5);
    assert_eq!(vk::VK_RETURN, 0x0d);
    assert_eq!(vk::VK_ESCAPE, 0x1b);
    assert_eq!(vk::VK_CAPITAL, 0x14);
    assert_eq!(vk::VK_DELETE, 0x2e);
    assert_eq!(vk::VK_INSERT, 0x2d);
    assert_eq!(vk::VK_TAB, 0x09);
    assert_eq!(vk::VK_NUMLOCK, 0x90);
    assert_eq!(vk::VK_NUMPAD0, 0x60);
    assert_eq!(vk::VK_NUMPAD1, 0x61);
    assert_eq!(vk::VK_NUMPAD2, 0x62);
    assert_eq!(vk::VK_NUMPAD3, 0x63);
    assert_eq!(vk::VK_NUMPAD4, 0x64);
    assert_eq!(vk::VK_NUMPAD5, 0x65);
    assert_eq!(vk::VK_NUMPAD6, 0x66);
    assert_eq!(vk::VK_NUMPAD7, 0x67);
    assert_eq!(vk::VK_NUMPAD8, 0x68);
    assert_eq!(vk::VK_NUMPAD9, 0x69);
    assert_eq!(vk::VK_ADD, 0x6b);
    assert_eq!(vk::VK_DECIMAL, 0x6e);
    assert_eq!(vk::VK_DIVIDE, 0x6f);
    assert_eq!(vk::VK_MULTIPLY, 0x6a);
    assert_eq!(vk::VK_SUBTRACT, 0x6d);
    assert_eq!(vk::VK_LBUTTON, 0x01);
    assert_eq!(vk::VK_RBUTTON, 0x02);
    assert_eq!(vk::VK_MBUTTON, 0x04);
    assert_eq!(vk::VK_XBUTTON1, 0x05);
    assert_eq!(vk::VK_XBUTTON2, 0x06);
}

#[test]
fn every_control_code_resolves_to_its_key() {
    let table = control_table();
    assert_eq!(table.len(), 53);
    for (code, key) in table {
        assert_eq!(Keycode::control_keycode_to_key(code), Some(key));
        assert_eq!(Keycode::keycode_to_key(code), Some(key));
    }
}

#[test]
fn every_alphanumeric_code_resolves_to_its_key() {
    for (c, key) in char_table() {
        assert_eq!(Keycode::char_code_to_key(c as u8), Some(key));
        assert_eq!(Keycode::control_keycode_to_key(c as i32), None);
        assert_eq!(Keycode::keycode_to_key(c as i32), Some(key));
    }
    assert_eq!(Keycode::char_code_to_key(b'a'), None);
    assert_eq!(Keycode::char_code_to_key(b'/'), None);
    assert_eq!(Keycode::char_code_to_key(b':'), None);
    assert_eq!(Keycode::char_code_to_key(b'@'), None);
    assert_eq!(Keycode::char_code_to_key(b'['), None);
}

#[test]
fn control_stage_comes_before_character_stage() {
    // 0x70 is both VK_F1 and the ASCII code of 'p': the first stage wins.
    assert_eq!(Keycode::keycode_to_key(0x70), Some(Keycode::F1));
    // 0x6A is VK_MULTIPLY and 'j'.
    assert_eq!(Keycode::keycode_to_key(0x6A), Some(Keycode::Multiply));
    // The second stage reads the low byte of the code.
    assert_eq!(Keycode::keycode_to_key(0x141), Some(Keycode::A));
    assert_eq!(Keycode::keycode_to_key(0x130), Some(Keycode::Key0));
}

#[test]
fn virtual_keys_outside_the_tables_resolve_to_nothing() {
    let controls = control_table();
    let chars = char_table();
    for code in 0i32..256 {
        let known = controls.iter().any(|(c, _)| *c == code) || chars.iter().any(|(c, _)| *c as i32 == code);
        if !known {
            assert_eq!(Keycode::keycode_to_key(code), None, "code {:#x}", code);
        }
    }
    assert_eq!(Keycode::keycode_to_key(vk::VK_LBUTTON), None);
    assert_eq!(Keycode::keycode_to_key(-1), None);
}
