//! What the user does: keys, modifiers, and places on the screen.

use vstd::prelude::*;

verus! {

/// A key press, as far as the application tells keys apart.
#[derive(Clone, Copy, Debug, PartialEq, Eq, Structural)]
pub enum KeyCode {
    Char(char),
    Enter,
    Esc,
    Backspace,
    Tab,
    Left,
    Right,
    Up,
    Down,
    PageUp,
    PageDown,
    /// Any other key.
    Other,
}

/// The modifiers held during a key press, as far as they matter.
#[derive(Clone, Copy, Debug, PartialEq, Eq, Structural)]
pub struct KeyModifiers {
    pub control: bool,
}

impl KeyModifiers {
    /// No modifier held.
    pub fn none() -> (r: KeyModifiers)
        ensures
            !r.control,
    {
        KeyModifiers { control: false }
    }

    /// Control held.
    pub fn control() -> (r: KeyModifiers)
        ensures
            r.control,
    {
        KeyModifiers { control: true }
    }
}

/// A rectangle of terminal cells.
#[derive(Clone, Copy, Debug, PartialEq, Eq, Structural)]
pub struct Rect {
    pub x: u16,
    pub y: u16,
    pub width: u16,
    pub height: u16,
}

/// The lower of an unbounded edge and the last edge a screen can have.
pub open spec fn edge(from: u16, length: u16) -> int {
    if from + length > u16::MAX {
        u16::MAX as int
    } else {
        from + length
    }
}

impl Rect {
    /// The cell at column `col` and row `row` lies inside.
    pub open spec fn covers(self, col: u16, row: u16) -> bool {
        &&& self.x <= col < edge(self.x, self.width)
        &&& self.y <= row < edge(self.y, self.height)
    }

    /// The rectangle with the given corner and size.
    pub fn new(x: u16, y: u16, width: u16, height: u16) -> (r: Rect)
        ensures
            r == (Rect { x, y, width, height }),
    {
        Rect { x, y, width, height }
    }

    /// Whether the cell at column `col` and row `row` lies inside. The right
    /// and the bottom edge stay on the screen and are not part of it.
    pub fn contains(&self, col: u16, row: u16) -> (r: bool)
        ensures
            r == self.covers(col, row),
    {
        self.x <= col && col < self.x.saturating_add(self.width) && self.y <= row && row
            < self.y.saturating_add(self.height)
    }
}

} // verus!
