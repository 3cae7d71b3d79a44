//! What the screen shows: the glyph of each board cell, and whether the
//! wall ring still has to be drawn.
use vstd::prelude::*;

use crate::game::{Game, GameView};
use crate::grid::{on_wall, Cell, HEIGHT, WIDTH};

verus! {

pub open spec fn wall_glyph(c: Cell) -> char {
    if c.x == 0 && c.y == 0 {
        '┌'
    } else if c.x == WIDTH - 1 && c.y == 0 {
        '┐'
    } else if c.x == 0 && c.y == HEIGHT - 1 {
        '└'
    } else if c.x == WIDTH - 1 && c.y == HEIGHT - 1 {
        '┘'
    } else if c.y == 0 || c.y == HEIGHT - 1 {
        '─'
    } else {
        '│'
    }
}

/// The glyph of a board cell: the wall ring, then the pellet, then the body,
/// else blank.
pub open spec fn glyph(g: GameView, c: Cell) -> char {
    if on_wall(c) {
        wall_glyph(c)
    } else if c == g.food {
        '@'
    } else if g.snake.body.contains(c) {
        '█'
    } else {
        ' '
    }
}

/// The glyph of a cell of the wall ring.
pub fn border_glyph(c: Cell) -> (r: char)
    requires
        on_wall(c),
    ensures
        r == wall_glyph(c),
{
    if c.x == 0 && c.y == 0 {
        '┌'
    } else if c.x == WIDTH - 1 && c.y == 0 {
        '┐'
    } else if c.x == 0 && c.y == HEIGHT - 1 {
        '└'
    } else if c.x == WIDTH - 1 && c.y == HEIGHT - 1 {
        '┘'
    } else if c.y == 0 || c.y == HEIGHT - 1 {
        '─'
    } else {
        '│'
    }
}

/// The glyph that `c` shows for the state of `game`.
pub fn cell_glyph(game: &Game, c: Cell) -> (r: char)
    ensures
        r == glyph(game@, c),
{
    let snake = game.snake();
    if snake.check_wall_collision(c) {
        border_glyph(c)
    } else if c == game.food().position() {
        '@'
    } else if snake.check_self_collision(c) {
        '█'
    } else {
        ' '
    }
}

/// Screen state: whether the wall ring is already on screen.
pub struct Output {
    pub border_printed: bool,
}

impl Output {
    pub fn new() -> (r: Output)
        ensures
            !r.border_printed,
    {
        Output { border_printed: false }
    }

    /// Whether the wall ring has to be drawn now; from then on it counts as
    /// drawn.
    pub fn border_due(&mut self) -> (r: bool)
        ensures
            r == !old(self).border_printed,
            final(self).border_printed,
    {
        let due = !self.border_printed;
        self.border_printed = true;
        due
    }
}

} // verus!
