//! Board geometry: the outer wall ring and the playable interior.
use vstd::prelude::*;

verus! {

/// Number of columns of the board, wall included.
pub const WIDTH: u16 = 40;

/// Number of rows of the board, wall included.
pub const HEIGHT: u16 = 20;

/// One square of the board.
#[derive(Clone, Copy, Debug, PartialEq, Eq, Structural)]
pub struct Cell {
    pub x: u16,
    pub y: u16,
}

impl Cell {
    pub fn new(x: u16, y: u16) -> (r: Cell)
        ensures
            r.x == x,
            r.y == y,
    {
        Cell { x, y }
    }
}

/// The cell lies on the wall ring or beyond it.
pub open spec fn on_wall(c: Cell) -> bool {
    c.x == 0 || c.x >= WIDTH - 1 || c.y == 0 || c.y >= HEIGHT - 1
}

/// The cell lies strictly inside the wall ring.
pub open spec fn in_interior(c: Cell) -> bool {
    1 <= c.x <= WIDTH - 2 && 1 <= c.y <= HEIGHT - 2
}

} // verus!
