//! The keyboard query: decoding the native bulk key-state reports into an
//! ordered list of canonical keys.

use crate::keycode::Keycode;
use crate::keysym::keysym_key;
use crate::vk::vk_key;
use vstd::prelude::*;

verus! {

/// Whether the X keymap bitmap marks `keycode` as held down: bit
/// `keycode % 8` of byte `keycode / 8`.
pub open spec fn keymap_bit(keymap: Seq<u8>, keycode: int) -> bool {
    keymap[keycode / 8] & (1u8 << ((keycode % 8) as u8)) != 0
}

/// The keycodes below `n` that the keymap bitmap marks as held down, in
/// ascending order.
pub open spec fn pressed_below(keymap: Seq<u8>, n: int) -> Seq<u8>
    decreases n,
{
    if n <= 0 {
        Seq::empty()
    } else if keymap_bit(keymap, n - 1) {
        pressed_below(keymap, n - 1).push((n - 1) as u8)
    } else {
        pressed_below(keymap, n - 1)
    }
}

/// The keycodes that an X keymap bitmap marks as held down, ascending.
pub open spec fn pressed_in_keymap(keymap: [u8; 32]) -> Seq<u8> {
    pressed_below(keymap@, 256)
}

/// The keycodes that an X keymap bitmap (32 bytes, one bit per keycode,
/// lowest bit first) marks as held down, in ascending order.
pub fn pressed_keycodes(keymap: &[u8; 32]) -> (r: Vec<u8>)
    ensures
        r@ == pressed_in_keymap(*keymap),
{
    let mut codes: Vec<u8> = Vec::new();
    let mut ix: usize = 0;
    while ix < 32
        invariant
            0 <= ix <= 32,
            codes@ == pressed_below(keymap@, ix as int * 8),
        decreases 32 - ix,
    {
        let byte = keymap[ix];
        let mut bit: u8 = 0;
        while bit < 8
            invariant
                0 <= ix < 32,
                0 <= bit <= 8,
                byte == keymap@[ix as int],
                codes@ == pressed_below(keymap@, ix as int * 8 + bit as int),
            decreases 8 - bit,
        {
            let keycode: u8 = ix as u8 * 8 + bit;
            assert((ix as int * 8 + bit as int) / 8 == ix as int);
            assert((ix as int * 8 + bit as int) % 8 == bit as int);
            if byte & (1u8 << bit) != 0 {
                codes.push(keycode);
            }
            bit = bit + 1;
        }
        ix = ix + 1;
    }
    codes
}

/// `s` with each run of equal adjacent elements collapsed to one element.
/// Equal elements that are not adjacent all stay.
pub open spec fn dedup_adjacent<A>(s: Seq<A>) -> Seq<A>
    decreases s.len(),
{
    if s.len() == 0 {
        Seq::empty()
    } else if s.len() >= 2 && s[s.len() - 2] == s.last() {
        dedup_adjacent(s.drop_last())
    } else {
        dedup_adjacent(s.drop_last()).push(s.last())
    }
}

/// The keys in `keys`, with consecutive repeats of a key removed.
pub fn dedup_consecutive(keys: &Vec<Keycode>) -> (r: Vec<Keycode>)
    ensures
        r@ == dedup_adjacent(keys@),
{
    let mut out: Vec<Keycode> = Vec::new();
    let mut i: usize = 0;
    while i < keys.len()
        invariant
            0 <= i <= keys.len(),
            out@ == dedup_adjacent(keys@.subrange(0, i as int)),
        decreases keys.len() - i,
    {
        let ghost prefix = keys@.subrange(0, i as int + 1);
        assert(prefix.drop_last() =~= keys@.subrange(0, i as int));
        if i == 0 || keys[i - 1] != keys[i] {
            out.push(keys[i]);
        }
        i = i + 1;
    }
    assert(keys@.subrange(0, keys@.len() as int) =~= keys@);
    out
}

/// The canonical keys that a list of X keysyms resolves to, in list order;
/// keysyms outside the table contribute nothing.
pub open spec fn resolve_keysyms(keysyms: Seq<u32>) -> Seq<Keycode>
    decreases keysyms.len(),
{
    if keysyms.len() == 0 {
        Seq::empty()
    } else {
        match keysym_key(keysyms.last()) {
            Some(k) => resolve_keysyms(keysyms.drop_last()).push(k),
            None => resolve_keysyms(keysyms.drop_last()),
        }
    }
}

/// Keysyms that the table does not cover contribute nothing to the keys.
pub proof fn lemma_unmapped_keysyms_resolve_to_nothing(keysyms: Seq<u32>)
    requires
        forall|i: int| 0 <= i < keysyms.len() ==> keysym_key(#[trigger] keysyms[i]) is None,
    ensures
        resolve_keysyms(keysyms) == Seq::<Keycode>::empty(),
    decreases keysyms.len(),
{
    if keysyms.len() > 0 {
        let rest = keysyms.drop_last();
        assert forall|i: int| 0 <= i < rest.len() implies keysym_key(#[trigger] rest[i]) is None by {
            assert(rest[i] == keysyms[i]);
        }
        lemma_unmapped_keysyms_resolve_to_nothing(rest);
        assert(keysym_key(keysyms[keysyms.len() - 1]) is None);
    }
}

/// The keysyms bound to `keycode` in a keyboard mapping indexed by keycode;
/// none where the mapping is shorter.
pub open spec fn keysyms_for(mapping: Seq<Seq<u32>>, keycode: u8) -> Seq<u32> {
    if (keycode as int) < mapping.len() {
        mapping[keycode as int]
    } else {
        Seq::empty()
    }
}

/// The canonical keys that a list of keycodes resolves to through a
/// keyboard mapping: the keys of each keycode's keysyms, keycode after
/// keycode.
pub open spec fn resolve_keycodes(codes: Seq<u8>, mapping: Seq<Seq<u32>>) -> Seq<Keycode>
    decreases codes.len(),
{
    if codes.len() == 0 {
        Seq::empty()
    } else {
        resolve_keycodes(codes.drop_last(), mapping) + resolve_keysyms(
            keysyms_for(mapping, codes.last()),
        )
    }
}

/// What the X11 keyboard query reports for a keymap bitmap and a keyboard
/// mapping: the resolved keys of the held keycodes in ascending keycode
/// order, consecutive repeats removed.
pub open spec fn keymap_keys(keymap: [u8; 32], mapping: Seq<Seq<u32>>) -> Seq<Keycode> {
    dedup_adjacent(resolve_keycodes(pressed_in_keymap(keymap), mapping))
}

/// Appends to `out` the canonical keys that `keysyms` resolve to, in order.
fn push_resolved_keysyms(out: &mut Vec<Keycode>, keysyms: &Vec<u32>)
    ensures
        final(out)@ == old(out)@ + resolve_keysyms(keysyms@),
{
    let mut i: usize = 0;
    while i < keysyms.len()
        invariant
            0 <= i <= keysyms.len(),
            out@ == old(out)@ + resolve_keysyms(keysyms@.subrange(0, i as int)),
        decreases keysyms.len() - i,
    {
        let ghost prefix = keysyms@.subrange(0, i as int + 1);
        assert(prefix.drop_last() =~= keysyms@.subrange(0, i as int));
        if let Some(k) = Keycode::keysym_to_key(keysyms[i]) {
            out.push(k);
        }
        i = i + 1;
    }
    assert(keysyms@.subrange(0, keysyms@.len() as int) =~= keysyms@);
}

/// The keys held down according to an X keymap bitmap, resolved through
/// `mapping`, which lists for each keycode (as index) the keysyms bound to
/// it. Keycodes past the end of `mapping` resolve to nothing. Keys come in
/// ascending keycode order, and within a keycode in the order of its
/// keysyms; consecutive repeats are removed.
pub fn keys_from_keymap(keymap: &[u8; 32], mapping: &Vec<Vec<u32>>) -> (r: Vec<Keycode>)
    ensures
        r@ == keymap_keys(*keymap, mapping.deep_view()),
{
    let codes = pressed_keycodes(keymap);
    let mut keys: Vec<Keycode> = Vec::new();
    let mut i: usize = 0;
    while i < codes.len()
        invariant
            0 <= i <= codes.len(),
            codes@ == pressed_in_keymap(*keymap),
            keys@ == resolve_keycodes(codes@.subrange(0, i as int), mapping.deep_view()),
        decreases codes.len() - i,
    {
        let ghost prefix = codes@.subrange(0, i as int + 1);
        assert(prefix.drop_last() =~= codes@.subrange(0, i as int));
        let code = codes[i];
        if (code as usize) < mapping.len() {
            assert(mapping.deep_view()[code as int] == mapping@[code as int]@);
            push_resolved_keysyms(&mut keys, &mapping[code as usize]);
        } else {
            assert(resolve_keysyms(Seq::empty()) =~= Seq::empty());
            assert(keys@ + Seq::<Keycode>::empty() =~= keys@);
        }
        i = i + 1;
    }
    assert(codes@.subrange(0, codes@.len() as int) =~= codes@);
    dedup_consecutive(&keys)
}

/// Whether a Windows key state marks its key as held down: its most
/// significant bit is set.
pub open spec fn key_state_down(state: i16) -> bool {
    (state as u16) & 0x8000 != 0
}

/// Whether a Windows key state (as `GetAsyncKeyState` reports it) marks its
/// key as held down.
pub fn key_is_down(state: i16) -> (r: bool)
    ensures
        r == key_state_down(state),
        r == (state < 0),
{
    let down = (state as u16) & 0x8000 != 0;
    assert(((state as u16) & 0x8000 != 0) == (state < 0)) by (bit_vector);
    down
}

/// The canonical keys of the virtual-key codes below `n` whose state marks
/// them as held down, in ascending code order.
pub open spec fn resolve_key_states(states: Seq<i16>, n: int) -> Seq<Keycode>
    decreases n,
{
    if n <= 0 {
        Seq::empty()
    } else if key_state_down(states[n - 1]) {
        match vk_key((n - 1) as i32) {
            Some(k) => resolve_key_states(states, n - 1).push(k),
            None => resolve_key_states(states, n - 1),
        }
    } else {
        resolve_key_states(states, n - 1)
    }
}

/// What the Windows keyboard query reports for the states of the 256
/// virtual-key codes: the resolved keys of the held codes in ascending code
/// order, consecutive repeats removed.
pub open spec fn key_states_keys(states: [i16; 256]) -> Seq<Keycode> {
    dedup_adjacent(resolve_key_states(states@, 256))
}

/// The keys held down according to the states of the 256 virtual-key codes
/// (index = code), in ascending code order, consecutive repeats removed.
/// Codes that the table does not cover are skipped.
pub fn keys_from_key_states(states: &[i16; 256]) -> (r: Vec<Keycode>)
    ensures
        r@ == key_states_keys(*states),
{
    let mut keys: Vec<Keycode> = Vec::new();
    let mut code: usize = 0;
    while code < 256
        invariant
            0 <= code <= 256,
            keys@ == resolve_key_states(states@, code as int),
        decreases 256 - code,
    {
        if key_is_down(states[code]) {
            if let Some(k) = Keycode::keycode_to_key(code as i32) {
                keys.push(k);
            }
        }
        code = code + 1;
    }
    dedup_consecutive(&keys)
}

/// A keymap bitmap with no bit set yields no keys, whatever the mapping.
pub proof fn lemma_empty_keymap_no_keys(keymap: [u8; 32], mapping: Seq<Seq<u32>>)
    requires
        forall|i: int| 0 <= i < 32 ==> keymap@[i] == 0,
    ensures
        keymap_keys(keymap, mapping) == Seq::<Keycode>::empty(),
{
    lemma_no_bits_pressed_below(keymap@, 256);
    assert(resolve_keycodes(Seq::<u8>::empty(), mapping) == Seq::<Keycode>::empty());
    assert(dedup_adjacent(Seq::<Keycode>::empty()) == Seq::<Keycode>::empty());
}

proof fn lemma_no_bits_pressed_below(keymap: Seq<u8>, n: int)
    requires
        keymap.len() == 32,
        0 <= n <= 256,
        forall|i: int| 0 <= i < 32 ==> keymap[i] == 0,
    ensures
        pressed_below(keymap, n) == Seq::<u8>::empty(),
    decreases n,
{
    if n > 0 {
        lemma_no_bits_pressed_below(keymap, n - 1);
        let byte = keymap[(n - 1) / 8];
        let shift = ((n - 1) % 8) as u8;
        assert(byte == 0);
        assert(byte == 0 ==> byte & (1u8 << shift) == 0) by (bit_vector);
    }
}

/// Key states of which none is held down yield no keys.
pub proof fn lemma_no_key_down_no_keys(states: [i16; 256])
    requires
        forall|i: int| 0 <= i < 256 ==> !key_state_down(#[trigger] states@[i]),
    ensures
        key_states_keys(states) == Seq::<Keycode>::empty(),
{
    lemma_no_key_down_below(states@, 256);
    assert(dedup_adjacent(Seq::<Keycode>::empty()) == Seq::<Keycode>::empty());
}

proof fn lemma_no_key_down_below(states: Seq<i16>, n: int)
    requires
        0 <= n <= states.len(),
        forall|i: int| 0 <= i < states.len() ==> !key_state_down(#[trigger] states[i]),
    ensures
        resolve_key_states(states, n) == Seq::<Keycode>::empty(),
    decreases n,
{
    if n > 0 {
        lemma_no_key_down_below(states, n - 1);
    }
}

} // verus!
