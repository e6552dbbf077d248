use vstd::prelude::*;

verus! {

/// A cell coordinate: a column `x` and a row `y`, both counted from zero.
#[derive(Clone, Copy, Debug, Default, PartialEq, Eq, Structural)]
pub struct Position {
    pub x: usize,
    pub y: usize,
}

/// The kinds of caret movement and of viewport scrolling.
#[derive(Clone, Copy, Debug, PartialEq, Eq, Structural)]
pub enum MovementDirection {
    Left,
    /// Stops at the end of the caret's line.
    Right,
    Up,
    /// Stops at the last line: the caret never stands past it.
    Down,
    /// Snap the caret to the first visible row (page up).
    Top,
    /// Snap the caret to the last visible row that holds a line (page down).
    Bottom,
    /// Caret to column zero, scrolled fully left (home).
    FullLeft,
    /// Caret to the end of its line (end).
    FullRight,
}

impl Position {
    pub fn new(x: usize, y: usize) -> (r: Position)
        ensures
            r.x == x,
            r.y == y,
    {
        Position { x, y }
    }
}

} // verus!
