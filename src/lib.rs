//! Snapshot queries of the mouse and the keyboard, independent of window
//! focus. The platform's native reports (an X pointer mask and keymap
//! bitmap, or the Windows key states) are decoded here into one canonical
//! mouse state and one canonical, ordered list of keys.
mod device_query;
mod keycode;
pub mod keyboard;
pub mod keysym;
pub mod mouse;
mod mouse_state;
pub mod vk;

pub use crate::device_query::DeviceQuery;
pub use keyboard::{dedup_consecutive, keys_from_key_states, keys_from_keymap, pressed_keycodes};
pub use keycode::Keycode;
pub use mouse::{buttons_from_mask, mouse_from_cursor, mouse_from_pointer};
pub use mouse_state::{MouseButton, MouseState};
