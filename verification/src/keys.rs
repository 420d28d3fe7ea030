//! Keyboard chords of the window, read from the raw modifier bits and key value
//! of a key press as GDK reports them.

use vstd::prelude::*;

verus! {

/// Modifier bit of the Control key.
pub const CONTROL_MASK: u32 = 4;

/// Modifier bit of the first modifier key, commonly Alt.
pub const MOD1_MASK: u32 = 8;

/// Key value of the lower-case letter `o`.
pub const KEY_O: u32 = 0x6f;

/// Key value of the left arrow.
pub const KEY_LEFT: u32 = 0xff51;

/// Key value of the right arrow.
pub const KEY_RIGHT: u32 = 0xff53;

/// What a recognized chord asks for.
#[derive(Clone, Copy, Debug, PartialEq, Eq, Structural)]
pub enum Shortcut {
    /// Control+O: put the input focus on the address field and select its text.
    FocusAddress,
    /// Alt+Left: go one entry back.
    Back,
    /// Alt+Right: go one entry forward.
    Forward,
}

/// Whether every bit of `mask` is set in `state`.
pub open spec fn holds(state: u32, mask: u32) -> bool {
    state & mask == mask
}

/// The chord that a key press makes, if any. Control+O is looked for first,
/// then Alt+Left, then Alt+Right; other modifiers held with them do not matter.
pub open spec fn shortcut_of(state: u32, keyval: u32) -> Option<Shortcut> {
    if holds(state, CONTROL_MASK) && keyval == KEY_O {
        Some(Shortcut::FocusAddress)
    } else if holds(state, MOD1_MASK) && keyval == KEY_LEFT {
        Some(Shortcut::Back)
    } else if holds(state, MOD1_MASK) && keyval == KEY_RIGHT {
        Some(Shortcut::Forward)
    } else {
        None
    }
}

/// Whether every bit of `mask` is set in `state`.
pub fn contains(state: u32, mask: u32) -> (b: bool)
    ensures
        b == holds(state, mask),
{
    state & mask == mask
}

/// Maps a key press to the chord it makes, if any.
pub fn recognize(state: u32, keyval: u32) -> (shortcut: Option<Shortcut>)
    ensures
        shortcut == shortcut_of(state, keyval),
{
    if contains(state, CONTROL_MASK) && keyval == KEY_O {
        Some(Shortcut::FocusAddress)
    } else if contains(state, MOD1_MASK) && keyval == KEY_LEFT {
        Some(Shortcut::Back)
    } else if contains(state, MOD1_MASK) && keyval == KEY_RIGHT {
        Some(Shortcut::Forward)
    } else {
        None
    }
}

} // verus!
