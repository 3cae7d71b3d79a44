//! Key events as the game sees them, and what each one asks for.
use vstd::prelude::*;

use crate::direction::Direction;

verus! {

/// A key, as far as the game tells keys apart.
#[derive(Clone, Copy, Debug, PartialEq, Eq, Structural)]
pub enum Key {
    Up,
    Down,
    Left,
    Right,
    Char(char),
    Other,
}

/// A key press with the state of the Control modifier.
#[derive(Clone, Copy, Debug, PartialEq, Eq, Structural)]
pub struct KeyPress {
    pub code: Key,
    pub control: bool,
}

pub open spec fn key_heading(k: Key) -> Option<Direction> {
    match k {
        Key::Up => Some(Direction::Up),
        Key::Down => Some(Direction::Down),
        Key::Left => Some(Direction::Left),
        Key::Right => Some(Direction::Right),
        _ => None,
    }
}

pub open spec fn quits(k: KeyPress) -> bool {
    k.code == Key::Char('q') && k.control
}

/// The heading that an arrow key asks for; any other key asks for none.
pub fn map_key_to_heading(k: Key) -> (r: Option<Direction>)
    ensures
        r == key_heading(k),
{
    match k {
        Key::Up => Some(Direction::Up),
        Key::Down => Some(Direction::Down),
        Key::Left => Some(Direction::Left),
        Key::Right => Some(Direction::Right),
        _ => None,
    }
}

/// Control+q ends the game.
pub fn is_quit(k: KeyPress) -> (r: bool)
    ensures
        r == quits(k),
{
    match k.code {
        Key::Char(c) => c == 'q' && k.control,
        _ => false,
    }
}

} // verus!
