use vstd::prelude::*;

verus! {

/// Allows access to mouse buttons in a named way via `MouseState::get_button`.
#[derive(Debug, Clone, Copy, PartialEq, Eq, Structural)]
pub enum MouseButton {
    Right,
    Left,
    Middle,
    /// Also known as XButton1.
    Four,
    /// Also known as XButton2.
    Five,
}

impl MouseButton {
    /// The slot of `MouseState::buttons` that this button names.
    pub open spec fn index(self) -> int {
        match self {
            MouseButton::Right => 0,
            MouseButton::Left => 1,
            MouseButton::Middle => 2,
            MouseButton::Four => 3,
            MouseButton::Five => 4,
        }
    }
}

/// The button that names slot `i` of `MouseState::buttons` (`0 <= i < 5`).
pub open spec fn button_at(i: int) -> MouseButton {
    if i == 0 {
        MouseButton::Right
    } else if i == 1 {
        MouseButton::Left
    } else if i == 2 {
        MouseButton::Middle
    } else if i == 3 {
        MouseButton::Four
    } else {
        MouseButton::Five
    }
}

/// The named buttons among the first `n` slots of `b` that are pressed,
/// in slot order.
pub open spec fn pressed_upto(b: Seq<bool>, n: int) -> Seq<MouseButton>
    decreases n,
{
    if n <= 0 {
        Seq::empty()
    } else if b[n - 1] {
        pressed_upto(b, n - 1).push(button_at(n - 1))
    } else {
        pressed_upto(b, n - 1)
    }
}

/// The named buttons that `b` marks as pressed, in slot order.
pub open spec fn pressed_buttons(b: [bool; 5]) -> Seq<MouseButton> {
    pressed_upto(b@, 5)
}

/// The first `n` slots list a button exactly when its slot is among them
/// and pressed.
proof fn lemma_pressed_upto_members(b: Seq<bool>, n: int, m: MouseButton)
    requires
        0 <= n <= 5,
        b.len() == 5,
    ensures
        pressed_upto(b, n).contains(m) <==> (m.index() < n && b[m.index()]),
    decreases n,
{
    if n > 0 {
        lemma_pressed_upto_members(b, n - 1, m);
        let prev = pressed_upto(b, n - 1);
        if b[n - 1] {
            let cur = prev.push(button_at(n - 1));
            if prev.contains(m) {
                let j = choose|j: int| 0 <= j < prev.len() && prev[j] == m;
                assert(cur[j] == m);
            }
            if m.index() == n - 1 {
                assert(cur[prev.len() as int] == m);
            }
            if cur.contains(m) && !prev.contains(m) {
                let j = choose|j: int| 0 <= j < cur.len() && cur[j] == m;
                assert(j == prev.len());
            }
        }
    }
}

/// `get_buttons` lists a button exactly when it is pressed.
pub proof fn lemma_pressed_buttons_members(b: [bool; 5], m: MouseButton)
    ensures
        pressed_buttons(b).contains(m) <==> b@[m.index()],
{
    lemma_pressed_upto_members(b@, 5, m);
}

/// A snapshot of the mouse: the cursor coordinates and the state of the
/// five standard buttons (`true` when pressed). Slot 0 is button 1,
/// slot 1 is button 2, and so on; `MouseButton` names the slots.
#[derive(Debug, Clone, Copy)]
pub struct MouseState {
    pub coordinates: (i32, i32),
    pub buttons: [bool; 5],
}

impl MouseState {
    /// The coordinates of the mouse cursor.
    pub fn coordinates(&self) -> (r: (i32, i32))
        ensures
            r == self.coordinates,
    {
        self.coordinates
    }

    /// The state of the five mouse buttons.
    pub fn buttons(&self) -> (r: [bool; 5])
        ensures
            r == self.buttons,
    {
        self.buttons
    }

    /// Whether the named button is pressed.
    pub fn get_button(&self, button: MouseButton) -> (r: bool)
        ensures
            r == self.buttons@[button.index()],
    {
        match button {
            MouseButton::Right => self.buttons[0],
            MouseButton::Left => self.buttons[1],
            MouseButton::Middle => self.buttons[2],
            MouseButton::Four => self.buttons[3],
            MouseButton::Five => self.buttons[4],
        }
    }

    /// The buttons that are pressed, in slot order.
    pub fn get_buttons(&self) -> (r: Vec<MouseButton>)
        ensures
            r@ == pressed_buttons(self.buttons),
    {
        let mut pressed: Vec<MouseButton> = Vec::with_capacity(5);
        let codes = [
            MouseButton::Right,
            MouseButton::Left,
            MouseButton::Middle,
            MouseButton::Four,
            MouseButton::Five,
        ];
        let mut i: usize = 0;
        while i < 5
            invariant
                0 <= i <= 5,
                pressed@ == pressed_upto(self.buttons@, i as int),
                forall|j: int| 0 <= j < 5 ==> codes@[j] == #[trigger] button_at(j),
            decreases 5 - i,
        {
            if self.buttons[i] {
                pressed.push(codes[i]);
            }
            i = i + 1;
        }
        pressed
    }

    /// A mouse state from a coordinate pair and a button array.
    pub fn from(coordinates: (i32, i32), buttons: [bool; 5]) -> (r: Self)
        ensures
            r.coordinates == coordinates,
            r.buttons == buttons,
    {
        Self { coordinates, buttons }
    }
}

/// Two snapshots are equal when their coordinates and all five button
/// states agree.
impl PartialEq for MouseState {
    fn eq(&self, other: &MouseState) -> (r: bool) {
        let same = self.coordinates.0 == other.coordinates.0
            && self.coordinates.1 == other.coordinates.1
            && self.buttons[0] == other.buttons[0]
            && self.buttons[1] == other.buttons[1]
            && self.buttons[2] == other.buttons[2]
            && self.buttons[3] == other.buttons[3]
            && self.buttons[4] == other.buttons[4];
        proof {
            if same {
                assert(self.buttons =~= other.buttons);
            }
        }
        same
    }
}

impl vstd::std_specs::cmp::PartialEqSpecImpl for MouseState {
    open spec fn obeys_eq_spec() -> bool {
        true
    }

    open spec fn eq_spec(&self, other: &MouseState) -> bool {
        self.coordinates == other.coordinates && self.buttons == other.buttons
    }
}

} // verus!
