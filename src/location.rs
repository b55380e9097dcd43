use vstd::prelude::*;

verus! {

/// Tells apart keys that exist in more than one place on a keyboard.
#[derive(Clone, Copy, Debug, PartialEq, Eq, Hash, Structural)]
pub enum Location {
    /// The key has only one position, or the position is not known.
    Standard,
    /// The left one of a pair, such as the left Shift.
    Left,
    /// The right one of a pair, such as the right Shift.
    Right,
    /// The key on the numeric keypad.
    Numpad,
}

} // verus!
