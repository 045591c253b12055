use crate::keycode::Keycode;
use crate::mouse_state::MouseState;
use vstd::prelude::*;

verus! {

/// Fetching the mouse and keyboard state. A platform's query context
/// implements it by asking the system for a native report and decoding it
/// with `mouse_from_pointer` / `mouse_from_cursor` and `keys_from_keymap` /
/// `keys_from_key_states`.
pub trait DeviceQuery {
    /// The current mouse position and mouse button state.
    fn get_mouse(&self) -> MouseState;

    /// All keys that are currently held down.
    fn get_keys(&self) -> Vec<Keycode>;
}

} // verus!
