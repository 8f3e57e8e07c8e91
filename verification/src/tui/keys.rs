//! Keys as the dashboard sees them.
use vstd::prelude::*;

verus! {

/// A key press, by the key that was pressed.
#[derive(Debug, Clone, Copy, PartialEq, Eq, Structural)]
pub enum Key {
    Char(char),
    Enter,
    Esc,
    Backspace,
    Delete,
    Left,
    Right,
    Up,
    Down,
    Home,
    End,
    Tab,
    BackTab,
    PageUp,
    PageDown,
    /// Any key the dashboard gives no meaning to.
    Other,
}

} // verus!
