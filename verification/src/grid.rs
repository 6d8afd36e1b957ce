//! Grid geometry: positions on the toroidal playing field and wraparound
//! movement.

use vstd::prelude::*;
use oorandom::Rand32;
use crate::direction::Direction;
use crate::rng::rand_range_from_zero;

verus! {

/// Number of columns of the playing field.
pub const GRID_WIDTH: i16 = 40;

/// Number of rows of the playing field.
pub const GRID_HEIGHT: i16 = 30;

/// Euclidean remainder: the representative of `v` modulo `m` in `[0, m)`
/// (for `m > 0`). Movement can step one cell below zero, and this brings
/// such a coordinate back onto the grid.
pub open spec fn wrap(v: int, m: int) -> int {
    v % m
}

/// A cell of the playing field, identified by its column `x` and row `y`.
/// A position on the grid keeps both coordinates in range; movement wraps
/// around the edges, so no position is ever out of bounds.
#[derive(Clone, Copy, PartialEq, Eq, Debug, Structural)]
pub struct GridPosition {
    pub x: i16,
    pub y: i16,
}

impl GridPosition {
    /// The position lies on the grid.
    pub open spec fn in_bounds(self) -> bool {
        &&& 0 <= self.x < GRID_WIDTH
        &&& 0 <= self.y < GRID_HEIGHT
    }

    /// The cell one step from `pos` in direction `dir`, each coordinate
    /// wrapped back into range.
    pub open spec fn moved_spec(pos: GridPosition, dir: Direction) -> GridPosition {
        match dir {
            Direction::Up => GridPosition {
                x: pos.x,
                y: wrap(pos.y - 1, GRID_HEIGHT as int) as i16,
            },
            Direction::Down => GridPosition {
                x: pos.x,
                y: wrap(pos.y + 1, GRID_HEIGHT as int) as i16,
            },
            Direction::Left => GridPosition {
                x: wrap(pos.x - 1, GRID_WIDTH as int) as i16,
                y: pos.y,
            },
            Direction::Right => GridPosition {
                x: wrap(pos.x + 1, GRID_WIDTH as int) as i16,
                y: pos.y,
            },
        }
    }

    /// Pairs the two coordinates into a position.
    pub fn new(x: i16, y: i16) -> (r: Self)
        ensures
            r == (GridPosition { x, y }),
    {
        GridPosition { x, y }
    }

    /// Draws a position with `x` in `[0, max_x)` and `y` in `[0, max_y)`
    /// from the supplied generator. Every cell of that rectangle can come
    /// back, including cells currently occupied by the snake.
    pub fn random(rng: &mut Rand32, max_x: i16, max_y: i16) -> (r: Self)
        requires
            1 <= max_x,
            1 <= max_y,
        ensures
            0 <= r.x < max_x,
            0 <= r.y < max_y,
    {
        let x = rand_range_from_zero(rng, max_x as u32);
        let y = rand_range_from_zero(rng, max_y as u32);
        GridPosition { x: x as i16, y: y as i16 }
    }

    /// The position one step from `pos` in direction `dir`, wrapping around
    /// the edge of the grid.
    pub fn new_from_move(pos: GridPosition, dir: Direction) -> (r: Self)
        requires
            pos.in_bounds(),
        ensures
            r == Self::moved_spec(pos, dir),
            r.in_bounds(),
    {
        match dir {
            Direction::Up => GridPosition { x: pos.x, y: wrap_dec(pos.y, GRID_HEIGHT) },
            Direction::Down => GridPosition { x: pos.x, y: wrap_inc(pos.y, GRID_HEIGHT) },
            Direction::Left => GridPosition { x: wrap_dec(pos.x, GRID_WIDTH), y: pos.y },
            Direction::Right => GridPosition { x: wrap_inc(pos.x, GRID_WIDTH), y: pos.y },
        }
    }
}

impl From<(i16, i16)> for GridPosition {
    /// Pairs a tuple of coordinates into a position.
    fn from(pos: (i16, i16)) -> (r: Self) {
        GridPosition { x: pos.0, y: pos.1 }
    }
}

impl vstd::std_specs::convert::FromSpecImpl<(i16, i16)> for GridPosition {
    open spec fn obeys_from_spec() -> bool {
        true
    }

    open spec fn from_spec(pos: (i16, i16)) -> GridPosition {
        GridPosition { x: pos.0, y: pos.1 }
    }
}

/// One step downward modulo `m`: the in-range coordinate below `v`.
fn wrap_dec(v: i16, m: i16) -> (r: i16)
    requires
        0 <= v < m,
    ensures
        r == wrap(v - 1, m as int),
{
    if v == 0 {
        proof {
            vstd::arithmetic::div_mod::lemma_fundamental_div_mod_converse(
                -1, m as int, -1, m - 1);
        }
        m - 1
    } else {
        proof {
            vstd::arithmetic::div_mod::lemma_fundamental_div_mod_converse(
                v - 1, m as int, 0, v - 1);
        }
        v - 1
    }
}

/// One step upward modulo `m`: the in-range coordinate above `v`.
fn wrap_inc(v: i16, m: i16) -> (r: i16)
    requires
        0 <= v < m,
    ensures
        r == wrap(v + 1, m as int),
{
    if v == m - 1 {
        proof {
            vstd::arithmetic::div_mod::lemma_fundamental_div_mod_converse(
                m as int, m as int, 1, 0);
        }
        0
    } else {
        proof {
            vstd::arithmetic::div_mod::lemma_fundamental_div_mod_converse(
                v + 1, m as int, 0, v + 1);
        }
        v + 1
    }
}

/// Law: one step in any direction followed by one step in the opposite
/// direction returns to the starting position, for every position on the
/// grid and every direction.
pub proof fn lemma_move_then_inverse(p: GridPosition, d: Direction)
    requires
        p.in_bounds(),
    ensures
        GridPosition::moved_spec(GridPosition::moved_spec(p, d), d.inverse_spec()) == p,
{
}

} // verus!
