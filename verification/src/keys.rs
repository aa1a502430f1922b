//! The keystrokes of a paste.

use vstd::prelude::*;

verus! {

/// A key that a paste presses or releases.
#[derive(Clone, Copy, Debug, PartialEq, Eq, Structural)]
pub enum Key {
    Shift,
    Control,
    Alt,
    LWin,
    RWin,
    LShift,
    Insert,
    Return,
}

/// A key whose state the system is asked for.
#[derive(Clone, Copy, Debug, PartialEq, Eq, Structural)]
pub enum VirtualKey {
    LShift,
    RShift,
    Control,
    Menu,
    LWin,
    RWin,
}

/// One step of a paste.
#[derive(Clone, Copy, Debug, PartialEq, Eq, Structural)]
pub enum KeyStep {
    /// Bring the window with this handle to the front.
    RestoreFocus(isize),
    /// Wait for so many milliseconds.
    Wait(u64),
    /// Release the modifier keys that are pressed.
    ReleaseModifiers,
    Press(Key),
    Click(Key),
    Release(Key),
}

/// The modifier keys to look at, each with the key that releases it.
pub open spec fn modifiers() -> Seq<(VirtualKey, Key)> {
    seq![
        (VirtualKey::LShift, Key::Shift),
        (VirtualKey::RShift, Key::Shift),
        (VirtualKey::Control, Key::Control),
        (VirtualKey::Menu, Key::Alt),
        (VirtualKey::LWin, Key::LWin),
        (VirtualKey::RWin, Key::RWin),
    ]
}

/// The steps of a paste into the window that has the focus.
pub open spec fn paste_steps() -> Seq<KeyStep> {
    seq![
        KeyStep::ReleaseModifiers,
        KeyStep::Press(Key::LShift),
        KeyStep::Click(Key::Insert),
        KeyStep::Release(Key::LShift),
        KeyStep::Wait(5),
    ]
}

/// The steps of a paste into the window that had the focus last, if one is known.
pub open spec fn focus_paste_steps(window: Option<isize>) -> Seq<KeyStep> {
    let focus = match window {
        Some(handle) => seq![KeyStep::RestoreFocus(handle)],
        None => Seq::empty(),
    };
    focus + seq![
        KeyStep::Wait(50),
        KeyStep::ReleaseModifiers,
        KeyStep::Wait(20),
        KeyStep::Press(Key::LShift),
        KeyStep::Wait(20),
        KeyStep::Click(Key::Insert),
        KeyStep::Wait(20),
        KeyStep::Release(Key::LShift),
        KeyStep::Wait(20),
    ]
}

/// The modifier keys to look at, each with the key that releases it, in this order.
pub fn modifier_keys() -> (r: Vec<(VirtualKey, Key)>)
    ensures
        r@ == modifiers(),
{
    vec![
        (VirtualKey::LShift, Key::Shift),
        (VirtualKey::RShift, Key::Shift),
        (VirtualKey::Control, Key::Control),
        (VirtualKey::Menu, Key::Alt),
        (VirtualKey::LWin, Key::LWin),
        (VirtualKey::RWin, Key::RWin),
    ]
}

/// Whether the state that the system gives of a key says that it is pressed: its highest bit is
/// set.
pub fn is_pressed(state: i16) -> (r: bool)
    ensures
        r == (state < 0),
{
    assert((state & -0x8000i16) != 0 <==> state < 0) by (bit_vector);
    (state & -0x8000i16) != 0
}

/// The key to release, where the state of the modifier key at this place among them says that it
/// is pressed.
pub fn release_all_modifier_keys(place: usize, state: i16) -> (r: Option<Key>)
    ensures
        r == if place < modifiers().len() && state < 0 {
            Some(modifiers()[place as int].1)
        } else {
            None
        },
{
    let keys = modifier_keys();
    if place < keys.len() && is_pressed(state) {
        Some(keys[place].1)
    } else {
        None
    }
}

/// The steps of a paste into the window that has the focus.
pub fn paste() -> (r: Vec<KeyStep>)
    ensures
        r@ == paste_steps(),
{
    vec![
        KeyStep::ReleaseModifiers,
        KeyStep::Press(Key::LShift),
        KeyStep::Click(Key::Insert),
        KeyStep::Release(Key::LShift),
        KeyStep::Wait(5),
    ]
}

/// The steps of a paste into the window that had the focus last, if one is known.
pub fn paste_with_focus(window: Option<isize>) -> (r: Vec<KeyStep>)
    ensures
        r@ == focus_paste_steps(window),
{
    let mut steps: Vec<KeyStep> = Vec::new();
    if let Some(handle) = window {
        steps.push(KeyStep::RestoreFocus(handle));
    }
    steps.push(KeyStep::Wait(50));
    steps.push(KeyStep::ReleaseModifiers);
    steps.push(KeyStep::Wait(20));
    steps.push(KeyStep::Press(Key::LShift));
    steps.push(KeyStep::Wait(20));
    steps.push(KeyStep::Click(Key::Insert));
    steps.push(KeyStep::Wait(20));
    steps.push(KeyStep::Release(Key::LShift));
    steps.push(KeyStep::Wait(20));
    assert(steps@ =~= focus_paste_steps(window));
    steps
}

/// The keys that are held down once the first `n` of these steps have been taken, where `held`
/// were before.
pub open spec fn held_after(steps: Seq<KeyStep>, n: nat, held: Set<Key>) -> Set<Key>
    decreases n,
{
    if n == 0 {
        held
    } else {
        let before = held_after(steps, (n - 1) as nat, held);
        match steps[n - 1] {
            KeyStep::Press(key) => before.insert(key),
            KeyStep::Release(key) => before.remove(key),
            _ => before,
        }
    }
}

/// A paste leaves no key pressed that was not pressed before, whichever window it goes to.
pub proof fn law_paste_leaves_no_key_pressed(window: Option<isize>, held: Set<Key>)
    ensures
        held_after(paste_steps(), paste_steps().len(), held) == held.remove(Key::LShift),
        held_after(focus_paste_steps(window), focus_paste_steps(window).len(), held)
            == held.remove(Key::LShift),
{
    reveal_with_fuel(held_after, 11);
    assert(held.insert(Key::LShift).remove(Key::LShift) =~= held.remove(Key::LShift));
}

/// The modifier keys that are looked at are both Shift keys, Control, Alt and both Windows keys,
/// each released by the key of its name, and no other.
pub proof fn law_modifiers()
    ensures
        modifiers().len() == 6,
        forall|i: int|
            0 <= i < 6 ==> (#[trigger] modifiers()[i]).1 == match modifiers()[i].0 {
                VirtualKey::LShift => Key::Shift,
                VirtualKey::RShift => Key::Shift,
                VirtualKey::Control => Key::Control,
                VirtualKey::Menu => Key::Alt,
                VirtualKey::LWin => Key::LWin,
                VirtualKey::RWin => Key::RWin,
            },
        modifiers().no_duplicates(),
{
}

/// A paste releases the modifier keys, then presses the left Shift key, clicks Insert while it is
/// held, and releases it; the paste into another window first brings that window to the front.
pub proof fn law_paste_is_shift_insert(handle: isize)
    ensures
        paste_steps() == seq![
            KeyStep::ReleaseModifiers,
            KeyStep::Press(Key::LShift),
            KeyStep::Click(Key::Insert),
            KeyStep::Release(Key::LShift),
            KeyStep::Wait(5),
        ],
        focus_paste_steps(Some(handle)) == seq![KeyStep::RestoreFocus(handle)]
            + focus_paste_steps(None),
        without_waits(focus_paste_steps(None)) == without_waits(paste_steps()),
        waits(focus_paste_steps(None)) == seq![50u64, 20, 20, 20, 20],
{
    reveal_with_fuel(without_waits, 11);
    reveal_with_fuel(waits, 11);
    assert(without_waits(focus_paste_steps(None)) =~= seq![
        KeyStep::ReleaseModifiers,
        KeyStep::Press(Key::LShift),
        KeyStep::Click(Key::Insert),
        KeyStep::Release(Key::LShift),
    ]);
    assert(without_waits(paste_steps()) =~= seq![
        KeyStep::ReleaseModifiers,
        KeyStep::Press(Key::LShift),
        KeyStep::Click(Key::Insert),
        KeyStep::Release(Key::LShift),
    ]);
    assert(focus_paste_steps(Some(handle)) =~= seq![KeyStep::RestoreFocus(handle)]
        + focus_paste_steps(None));
}

/// Steps without the waits among them.
pub open spec fn without_waits(steps: Seq<KeyStep>) -> Seq<KeyStep>
    decreases steps.len(),
{
    if steps.len() == 0 {
        steps
    } else {
        let before = without_waits(steps.drop_last());
        match steps.last() {
            KeyStep::Wait(_) => before,
            step => before.push(step),
        }
    }
}

/// The waits among steps.
pub open spec fn waits(steps: Seq<KeyStep>) -> Seq<u64>
    decreases steps.len(),
{
    if steps.len() == 0 {
        Seq::empty()
    } else {
        let before = waits(steps.drop_last());
        match steps.last() {
            KeyStep::Wait(millis) => before.push(millis),
            _ => before,
        }
    }
}

} // verus!
