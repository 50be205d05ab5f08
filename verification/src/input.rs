//! Input handling.
//!
//! Currently provides keyboard support with [`is_key_pressed`], [`is_key_down`],
//! [`get_pressed_keys`] and [`get_held_keys`]

use std::collections::BTreeSet;
use vstd::prelude::*;
use vstd::std_specs::cmp::OrdSpec;
use vstd::std_specs::iter::IteratorSpec;

mod keycode;
pub use keycode::KeyCode;

verus! {

/// What an [`InputState`] stands for: the keys that are held down, and the
/// keys that went down since the state was last cleared.
pub struct InputView {
    /// Keys currently held down.
    pub pressed: Set<KeyCode>,
    /// Keys that went down since the last [`clear`].
    pub just_pressed: Set<KeyCode>,
}

impl InputView {
    /// The state in which no key is held and none was pressed.
    pub open spec fn empty() -> InputView {
        InputView { pressed: Set::empty(), just_pressed: Set::empty() }
    }

    /// The state after `key` went down: it is held, and was pressed within
    /// this frame.
    pub open spec fn press(self, key: KeyCode) -> InputView {
        InputView {
            pressed: self.pressed.insert(key),
            just_pressed: self.just_pressed.insert(key),
        }
    }

    /// The state after `key` was released: it is no longer held.
    pub open spec fn release(self, key: KeyCode) -> InputView {
        InputView { pressed: self.pressed.remove(key), just_pressed: self.just_pressed }
    }

    /// The state after a frame has ended: no key was pressed within the new
    /// frame, and the keys that are held stay held.
    pub open spec fn clear(self) -> InputView {
        InputView { pressed: self.pressed, just_pressed: Set::empty() }
    }
}

/// The keys whose scancodes are in `codes`.
spec fn keys_of(codes: Set<u32>) -> Set<KeyCode> {
    Set::new(|key: KeyCode| codes.contains(key.spec_scancode()))
}

/// Keyboard state, double-buffered: the keys held down and the keys pressed
/// within the current frame. Keys are stored by scancode.
#[derive(Debug)]
pub struct InputState {
    pressed: BTreeSet<u32>,
    just_pressed: BTreeSet<u32>,
}

impl View for InputState {
    type V = InputView;

    closed spec fn view(&self) -> InputView {
        InputView {
            pressed: keys_of(self.pressed@),
            just_pressed: keys_of(self.just_pressed@),
        }
    }
}

impl InputState {
    /// A state in which no key is held and none was pressed.
    pub fn new() -> (state: Self)
        ensures
            state@ == InputView::empty(),
    {
        let state = Self { pressed: BTreeSet::new(), just_pressed: BTreeSet::new() };
        assert(state@.pressed =~= Set::<KeyCode>::empty());
        assert(state@.just_pressed =~= Set::<KeyCode>::empty());
        state
    }
}

/// Was this key pressed this frame?
#[must_use]
pub fn is_key_pressed(state: &InputState, key: KeyCode) -> (pressed: bool)
    ensures
        pressed == state@.just_pressed.contains(key),
{
    let code = key.scancode();
    state.just_pressed.contains(&code)
}

/// Is this key being held down?
#[must_use]
pub fn is_key_down(state: &InputState, key: KeyCode) -> (down: bool)
    ensures
        down == state@.pressed.contains(key),
{
    let code = key.scancode();
    state.pressed.contains(&code)
}

/// Whether the keys of `keys` stand in the order of their scancodes, lowest
/// first. No key then stands twice.
pub open spec fn ascending(keys: Seq<KeyCode>) -> bool {
    forall|i: int, j: int|
        0 <= i < j < keys.len() ==> keys[i].spec_scancode() < keys[j].spec_scancode()
}

/// A set hands out its numbers from the lowest to the highest.
proof fn lemma_iteration_ascends(codes: &BTreeSet<u32>)
    ensures
        forall|i: int, j: int|
            0 <= i < j < codes.iter().remaining().len() ==> *codes.iter().remaining()[i]
                < *codes.iter().remaining()[j],
{
    broadcast use vstd::laws_cmp::lemma_ref_obeys_cmp_spec;

    let rest = codes.iter().remaining();
    vstd::std_specs::btree::axiom_increasing_seq_meaning::<&u32>(rest);
    assert forall|i: int, j: int| 0 <= i < j < rest.len() implies *rest[i] < *rest[j] by {
        assert(OrdSpec::cmp_spec(&rest[i], &rest[j]) is Less);
    }
}

/// The keys held in `codes`, in the order of their scancodes.
fn keys_in(codes: &BTreeSet<u32>) -> (keys: Vec<KeyCode>)
    ensures
        keys@.to_set() == keys_of(codes@),
        keys@.no_duplicates(),
        ascending(keys@),
{
    proof {
        lemma_iteration_ascends(codes);
    }
    let mut keys: Vec<KeyCode> = Vec::new();
    let ghost order: Seq<u32> = codes.iter().remaining().unref();
    let ghost mut done: int = 0;
    for code in iter: codes.iter()
        invariant
            iter.seq().unref() == order,
            done == iter.index(),
            order.to_set() == codes@,
            order.no_duplicates(),
            forall|i: int, j: int| 0 <= i < j < order.len() ==> order[i] < order[j],
            ascending(keys@),
            forall|j: int|
                0 <= j < keys.len() ==> exists|i: int|
                    0 <= i < done && order[i] == (#[trigger] keys@[j]).spec_scancode(),
            forall|i: int|
                0 <= i < done ==> (KeyCode::spec_from_scancode(#[trigger] order[i]) matches Some(
                    key,
                ) ==> keys@.contains(key)),
            keys@.no_duplicates(),
    {
        let ghost before = keys@;
        assert(*code == iter.seq().unref()[done]);
        if let Some(key) = KeyCode::from_scancode(*code) {
            proof {
                assert forall|j: int| 0 <= j < before.len() implies before[j].spec_scancode()
                    < key.spec_scancode() by {
                    let i = choose|i: int| 0 <= i < done && order[i] == before[j].spec_scancode();
                    assert(order[i] < order[done]);
                }
            }
            keys.push(key);
            proof {
                assert(keys@[before.len() as int] == key);
                assert forall|i: int| 0 <= i <= done implies (KeyCode::spec_from_scancode(
                    #[trigger] order[i],
                ) matches Some(k) ==> keys@.contains(k)) by {
                    if let Some(k) = KeyCode::spec_from_scancode(order[i]) {
                        if i < done {
                            assert(before.contains(k));
                            let j = choose|j: int| 0 <= j < before.len() && before[j] == k;
                            assert(keys@[j] == k);
                        }
                    }
                }
            }
        }
        proof {
            done = done + 1;
        }
    }
    proof {
        assert(done == order.len());
        assert forall|key: KeyCode| keys@.to_set().contains(key) <==> keys_of(codes@).contains(
            key,
        ) by {
            if keys@.contains(key) {
                let j = choose|j: int| 0 <= j < keys.len() && keys@[j] == key;
                let i = choose|i: int| 0 <= i < done && order[i] == keys@[j].spec_scancode();
                assert(order.to_set().contains(order[i]));
            }
            if codes@.contains(key.spec_scancode()) {
                assert(order.contains(key.spec_scancode()));
                let i = choose|i: int| 0 <= i < order.len() && order[i] == key.spec_scancode();
                KeyCode::lemma_scancode_injective(key);
            }
        }
        assert(keys@.to_set() =~= keys_of(codes@));
    }
    keys
}

/// Get a list of keys pressed within this frame, in the order of their
/// scancodes.
pub fn get_pressed_keys(state: &InputState) -> (keys: Vec<KeyCode>)
    ensures
        keys@.to_set() == state@.just_pressed,
        keys@.no_duplicates(),
        ascending(keys@),
{
    keys_in(&state.just_pressed)
}

/// Get a list of keys currently being held down, in the order of their
/// scancodes.
pub fn get_held_keys(state: &InputState) -> (keys: Vec<KeyCode>)
    ensures
        keys@.to_set() == state@.pressed,
        keys@.no_duplicates(),
        ascending(keys@),
{
    keys_in(&state.pressed)
}

/// Simulate pressing a key.
///
/// [`is_key_pressed`] will return `true` for this frame, and [`is_key_down`] will return `true` until you call [`release_key`].
pub fn press_key(state: &mut InputState, key: KeyCode)
    ensures
        final(state)@ == old(state)@.press(key),
{
    proof {
        KeyCode::lemma_scancode_injective(key);
    }
    let code = key.scancode();
    state.pressed.insert(code);
    state.just_pressed.insert(code);
    assert(state@.pressed =~= old(state)@.pressed.insert(key));
    assert(state@.just_pressed =~= old(state)@.just_pressed.insert(key));
}

/// Simulate releasing a key.
///
/// [`is_key_down`] will stop returning `true` for this key.
pub fn release_key(state: &mut InputState, key: KeyCode)
    ensures
        final(state)@ == old(state)@.release(key),
{
    proof {
        KeyCode::lemma_scancode_injective(key);
    }
    let code = key.scancode();
    state.pressed.remove(&code);
    assert(state@.pressed =~= old(state)@.pressed.remove(key));
}

/// Clears all keys pressed this frame.
///
/// Data for [`is_key_pressed`] will be cleared.
pub fn clear(state: &mut InputState)
    ensures
        final(state)@ == old(state)@.clear(),
{
    state.just_pressed.clear();
    assert(state@.just_pressed =~= Set::<KeyCode>::empty());
}

/// Pressing a key makes it both pressed within the frame and held. Clearing
/// then ends its being pressed within the frame while it stays held, and
/// releasing it after that ends its being held.
pub proof fn lemma_press_clear_release(input: InputView, key: KeyCode)
    ensures
        input.press(key).just_pressed.contains(key),
        input.press(key).pressed.contains(key),
        !input.press(key).clear().just_pressed.contains(key),
        input.press(key).clear().pressed.contains(key),
        !input.press(key).clear().release(key).pressed.contains(key),
{
}

/// A key other than the one pressed or released is held, and counts as
/// pressed within the frame, exactly as before.
pub proof fn lemma_other_keys_untouched(input: InputView, key: KeyCode, other: KeyCode)
    requires
        other != key,
    ensures
        input.press(key).pressed.contains(other) == input.pressed.contains(other),
        input.press(key).just_pressed.contains(other) == input.just_pressed.contains(other),
        input.release(key).pressed.contains(other) == input.pressed.contains(other),
        input.release(key).just_pressed.contains(other) == input.just_pressed.contains(other),
{
}

} // verus!
