//! The food entity: a single position on the grid, relocated by the game
//! loop whenever the snake eats it.

use vstd::prelude::*;
use crate::grid::GridPosition;

verus! {

/// The one piece of food on the field. A pure data holder: the game loop
/// reads it during the snake's tick and moves it after a consumption.
pub struct Food {
    pub pos: GridPosition,
}

impl Food {
    /// Places food at the given position.
    pub fn new(pos: GridPosition) -> (r: Self)
        ensures
            r.pos == pos,
    {
        Food { pos }
    }
}

} // verus!
