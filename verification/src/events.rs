//! The events the interaction core consumes.

use vstd::prelude::*;

verus! {

/// A key press, reduced to the distinctions the core reacts to.
#[derive(Clone, Copy, PartialEq, Eq, Structural, Debug)]
pub enum Key {
    /// A printable character.
    Char(char),
    Up,
    Down,
    Left,
    Right,
    Enter,
    Esc,
    Backspace,
    /// Any key the core ignores.
    Other,
}

/// One occurrence on the channel from the input producer to the core:
/// either the periodic timer fired, or a key was pressed.
#[derive(Clone, Copy, PartialEq, Eq, Structural, Debug)]
pub enum Event {
    Tick,
    Input(Key),
}

} // verus!
