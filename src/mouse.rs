//! The mouse query: decoding the native pointer and button reports into a
//! `MouseState`.
#![allow(non_upper_case_globals)]

use crate::keyboard::{key_is_down, key_state_down};
use crate::mouse_state::MouseState;
use vstd::prelude::*;

verus! {

// The X11 pointer button masks, as Xlib (and `x11::xlib`) defines them.
pub const Button1Mask: u32 = 0x100;
pub const Button2Mask: u32 = 0x200;
pub const Button3Mask: u32 = 0x400;
pub const Button4Mask: u32 = 0x800;
pub const Button5Mask: u32 = 0x1000;

/// The five button states that an X pointer mask reports, in slot order:
/// slot `i` is set when the mask has button `i + 1`'s bit. Other bits of
/// the mask (the modifier keys) are ignored.
pub open spec fn mask_buttons(mask: u32) -> Seq<bool> {
    seq![
        mask & Button1Mask != 0,
        mask & Button2Mask != 0,
        mask & Button3Mask != 0,
        mask & Button4Mask != 0,
        mask & Button5Mask != 0,
    ]
}

/// The X pointer mask that has exactly the buttons that `b` marks as
/// pressed.
pub open spec fn buttons_mask(b: Seq<bool>) -> u32 {
    (if b[0] { Button1Mask } else { 0 }) | (if b[1] { Button2Mask } else { 0 }) | (if b[2] {
        Button3Mask
    } else {
        0
    }) | (if b[3] { Button4Mask } else { 0 }) | (if b[4] { Button5Mask } else { 0 })
}

/// Decoding the mask of any five button states gives those states back.
pub proof fn lemma_mask_round_trip(b: Seq<bool>)
    requires
        b.len() == 5,
    ensures
        mask_buttons(buttons_mask(b)) == b,
{
    let (b0, b1, b2, b3, b4) = (b[0], b[1], b[2], b[3], b[4]);
    let m = buttons_mask(b);
    assert(m == (if b0 { 0x100u32 } else { 0 }) | (if b1 { 0x200u32 } else { 0 }) | (if b2 {
        0x400u32
    } else {
        0
    }) | (if b3 { 0x800u32 } else { 0 }) | (if b4 { 0x1000u32 } else { 0 }));
    assert({
        &&& (m & 0x100 != 0) == b0
        &&& (m & 0x200 != 0) == b1
        &&& (m & 0x400 != 0) == b2
        &&& (m & 0x800 != 0) == b3
        &&& (m & 0x1000 != 0) == b4
    }) by (bit_vector)
        requires
            m == (if b0 { 0x100u32 } else { 0 }) | (if b1 { 0x200u32 } else { 0 }) | (if b2 {
                0x400u32
            } else {
                0
            }) | (if b3 { 0x800u32 } else { 0 }) | (if b4 { 0x1000u32 } else { 0 }),
    ;
    assert(mask_buttons(m) =~= b);
}

/// The five button states that an X pointer mask reports.
pub fn buttons_from_mask(mask: u32) -> (r: [bool; 5])
    ensures
        r@ == mask_buttons(mask),
{
    let r = [
        mask & Button1Mask != 0,
        mask & Button2Mask != 0,
        mask & Button3Mask != 0,
        mask & Button4Mask != 0,
        mask & Button5Mask != 0,
    ];
    assert(r@ =~= mask_buttons(mask));
    r
}

/// The snapshot for a failed or impossible query: the cursor at `(0, 0)`
/// and no button pressed.
pub open spec fn is_empty_snapshot(m: MouseState) -> bool {
    m.coordinates == (0i32, 0i32) && m.buttons@ == seq![false, false, false, false, false]
}

/// The snapshot that an X pointer query reports: `report` holds the root
/// coordinates and the button mask, or is `None` when the query failed.
pub open spec fn is_pointer_snapshot(report: Option<(i32, i32, u32)>, m: MouseState) -> bool {
    match report {
        Some((x, y, mask)) => m.coordinates == (x, y) && m.buttons@ == mask_buttons(mask),
        None => is_empty_snapshot(m),
    }
}

/// The mouse state for an X pointer query: its coordinates and the buttons
/// of its mask, or the empty snapshot when the query failed (`None`).
pub fn mouse_from_pointer(report: Option<(i32, i32, u32)>) -> (r: MouseState)
    ensures
        is_pointer_snapshot(report, r),
{
    match report {
        Some((x, y, mask)) => MouseState::from((x, y), buttons_from_mask(mask)),
        None => {
            let r = MouseState::from((0, 0), [false; 5]);
            assert(r.buttons@ =~= seq![false, false, false, false, false]);
            r
        },
    }
}

/// The snapshot that a Windows query reports: `cursor` holds the cursor
/// position, or is `None` when it could not be read, and `states` the key
/// states of the five mouse buttons in slot order. A failed position read
/// gives the empty snapshot.
pub open spec fn is_cursor_snapshot(cursor: Option<(i32, i32)>, states: [i16; 5], m: MouseState) -> bool {
    match cursor {
        Some(c) => {
            &&& m.coordinates == c
            &&& forall|i: int| 0 <= i < 5 ==> m.buttons@[i] == key_state_down(#[trigger] states@[i])
        },
        None => is_empty_snapshot(m),
    }
}

/// The mouse state for a Windows query: the cursor position and the
/// buttons whose key state marks them as held down, or the empty snapshot
/// when the position could not be read (`None`).
pub fn mouse_from_cursor(cursor: Option<(i32, i32)>, states: [i16; 5]) -> (r: MouseState)
    ensures
        is_cursor_snapshot(cursor, states, r),
{
    match cursor {
        Some(c) => {
            let buttons = [
                key_is_down(states[0]),
                key_is_down(states[1]),
                key_is_down(states[2]),
                key_is_down(states[3]),
                key_is_down(states[4]),
            ];
            MouseState::from(c, buttons)
        },
        None => {
            let r = MouseState::from((0, 0), [false; 5]);
            assert(r.buttons@ =~= seq![false, false, false, false, false]);
            r
        },
    }
}

/// A pointer report determines its snapshot: decoding the same report twice
/// gives equal mouse states.
pub proof fn lemma_pointer_snapshot_unique(
    report: Option<(i32, i32, u32)>,
    a: MouseState,
    b: MouseState,
)
    requires
        is_pointer_snapshot(report, a),
        is_pointer_snapshot(report, b),
    ensures
        a == b,
{
    assert(a.buttons =~= b.buttons);
}

/// A Windows report determines its snapshot: decoding the same report twice
/// gives equal mouse states.
pub proof fn lemma_cursor_snapshot_unique(
    cursor: Option<(i32, i32)>,
    states: [i16; 5],
    a: MouseState,
    b: MouseState,
)
    requires
        is_cursor_snapshot(cursor, states, a),
        is_cursor_snapshot(cursor, states, b),
    ensures
        a == b,
{
    if cursor is Some {
        assert forall|i: int| 0 <= i < 5 implies a.buttons@[i] == b.buttons@[i] by {
            assert(a.buttons@[i] == key_state_down(states@[i]));
        }
    }
    assert(a.buttons =~= b.buttons);
}

/// A failed pointer query, or a failed cursor position read on Windows,
/// gives the cursor at the origin and no button pressed, whatever the
/// button states.
pub proof fn lemma_failed_pointer_query_is_empty(m: MouseState, states: [i16; 5])
    requires
        is_pointer_snapshot(None, m) || is_cursor_snapshot(None, states, m),
    ensures
        m.coordinates == (0i32, 0i32),
        forall|i: int| 0 <= i < 5 ==> !m.buttons@[i],
{
}

} // verus!
