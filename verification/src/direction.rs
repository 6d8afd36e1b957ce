//! Directions of travel and the mapping from raw key input.

use vstd::prelude::*;

verus! {

/// One of the four ways the snake can travel across the grid.
#[derive(Clone, Copy, Debug, PartialEq, Eq, Structural)]
pub enum Direction {
    Up,
    Down,
    Left,
    Right,
}

/// A key press as the core sees it. `Other` stands for every key that is not
/// an arrow key; such presses are ignored rather than treated as errors.
#[derive(Clone, Copy, Debug, PartialEq, Eq, Structural)]
pub enum KeyCode {
    Up,
    Down,
    Left,
    Right,
    Other,
}

impl Direction {
    /// The opposite direction: Up and Down swap, Left and Right swap.
    pub open spec fn inverse_spec(self) -> Direction {
        match self {
            Direction::Up => Direction::Down,
            Direction::Down => Direction::Up,
            Direction::Left => Direction::Right,
            Direction::Right => Direction::Left,
        }
    }

    /// Which direction, if any, the given key asks for. Arrow keys map to
    /// their direction; every other key maps to nothing.
    pub open spec fn from_keycode_spec(key: KeyCode) -> Option<Direction> {
        match key {
            KeyCode::Up => Some(Direction::Up),
            KeyCode::Down => Some(Direction::Down),
            KeyCode::Left => Some(Direction::Left),
            KeyCode::Right => Some(Direction::Right),
            KeyCode::Other => None,
        }
    }

    /// Returns the opposite direction.
    pub fn inverse(self) -> (r: Self)
        ensures
            r == self.inverse_spec(),
    {
        match self {
            Direction::Up => Direction::Down,
            Direction::Down => Direction::Up,
            Direction::Left => Direction::Right,
            Direction::Right => Direction::Left,
        }
    }

    /// Maps a key press to the direction it asks for, or to `None` for a key
    /// the game does not react to.
    pub fn from_keycode(key: KeyCode) -> (r: Option<Direction>)
        ensures
            r == Self::from_keycode_spec(key),
    {
        match key {
            KeyCode::Up => Some(Direction::Up),
            KeyCode::Down => Some(Direction::Down),
            KeyCode::Left => Some(Direction::Left),
            KeyCode::Right => Some(Direction::Right),
            KeyCode::Other => None,
        }
    }
}

} // verus!
