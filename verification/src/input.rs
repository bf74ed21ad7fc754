//! Keys as the game reads them, independent of the terminal library that
//! delivers them.
use vstd::prelude::*;

verus! {

/// A key press.
#[derive(Debug, Clone, Copy, PartialEq, Eq, Structural)]
pub enum Key {
    Char(char),
    Enter,
    Backspace,
    Left,
    Right,
    Up,
    Down,
    /// Any key the game gives no meaning to.
    Other,
}

} // verus!
