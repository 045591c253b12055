use device_query::{MouseButton, MouseState};

#[test]
fn coordinate_test() {
    let test_mouse = MouseState::from((100, 100), [false; 5]);

    assert!(
        test_mouse.coordinates == test_mouse.coordinates()
            && test_mouse.coordinates == (100, 100)
            && test_mouse.coordinates() == (100, 100)
    );
}

#[test]
fn button_test() {
    let test_mouse = MouseState::from((100, 100), [false; 5]);

    assert!(
        test_mouse.buttons == test_mouse.buttons()
            && test_mouse.buttons == [false; 5]
            && test_mouse.buttons() == [false; 5]
    );
}

#[test]
fn named_button_test() {
    let test_mouse = MouseState::from((100, 100), [true, false, true, false, true]);

    assert_eq!(test_mouse.get_button(MouseButton::Right), true);
    assert_eq!(test_mouse.get_button(MouseButton::Left), false);
    assert_eq!(test_mouse.get_button(MouseButton::Middle), true);
    assert_eq!(test_mouse.get_button(MouseButton::Four), false);
    assert_eq!(test_mouse.get_button(MouseButton::Five), true);
}

#[test]
fn get_buttons_test() {
    let test_mouse = MouseState::from((100, 100), [false; 5]);

    assert_eq!(test_mouse.get_buttons(), Vec::default());

    let test_mouse = MouseState::from((100, 100), [true, false, true, false, true]);

    assert_eq!(
        test_mouse.get_buttons(),
        vec![MouseButton::Right, MouseButton::Middle, MouseButton::Five]
    );
}

fn all_button_arrays() -> Vec<[bool; 5]> {
    let mut arrays = Vec::new();
    for bits in 0u32..32 {
        let mut b = [false; 5];
        for i in 0..5 {
            b[i] = bits & (1 << i) != 0;
        }
        arrays.push(b);
    }
    arrays
}

#[test]
fn get_button_agrees_with_indexing() {
    let names = [
        MouseButton::Right,
        MouseButton::Left,
        MouseButton::Middle,
        MouseButton::Four,
        MouseButton::Five,
    ];
    for b in all_button_arrays() {
        let m = MouseState::from((3, -4), b);
        for (i, name) in names.iter().enumerate() {
            assert_eq!(m.get_button(name.clone()), m.buttons[i]);
        }
    }
}

#[test]
fn get_buttons_lists_pressed_in_slot_order() {
    let names = [
        MouseButton::Right,
        MouseButton::Left,
        MouseButton::Middle,
        MouseButton::Four,
        MouseButton::Five,
    ];
    for b in all_button_arrays() {
        let m = MouseState::from((0, 0), b);
        let expected: Vec<MouseButton> = (0..5).filter(|&i| b[i]).map(|i| names[i].clone()).collect();
        assert_eq!(m.get_buttons(), expected);
    }
    let all = MouseState::from((0, 0), [true; 5]);
    assert_eq!(all.get_buttons(), names.to_vec());
}

#[test]
fn mouse_states_compare_by_value() {
    let a = MouseState::from((10, 20), [true, false, false, false, false]);
    let b = MouseState::from((10, 20), [true, false, false, false, false]);
    let c = MouseState::from((10, 20), [true, false, false, false, true]);
    let d = MouseState::from((10, 21), [true, false, false, false, false]);
    assert_eq!(a, b);
    assert_ne!(a, c);
    assert_ne!(a, d);
}
