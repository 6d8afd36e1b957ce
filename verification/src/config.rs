//! The configuration surface of the core: grid dimensions and the logical
//! tick rate. In this design they are fixed constants, not runtime
//! settings; the structure names them for the surrounding program.

use vstd::prelude::*;
use crate::grid::{GRID_HEIGHT, GRID_WIDTH};

verus! {

/// Logical simulation updates per second of the fixed-tick loop.
pub const TICK_RATE: u32 = 8;

/// What the core can be configured with: `width` grid columns, `height`
/// grid rows and `tick_rate` logical updates per second. Cell pixel size is
/// render-only and belongs to the surrounding program.
pub struct Config {
    pub width: i16,
    pub height: i16,
    pub tick_rate: u32,
}

impl Default for Config {
    /// The constants the game runs with.
    fn default() -> (r: Self)
        ensures
            r.width == GRID_WIDTH,
            r.height == GRID_HEIGHT,
            r.tick_rate == TICK_RATE,
    {
        Config { width: GRID_WIDTH, height: GRID_HEIGHT, tick_rate: TICK_RATE }
    }
}

} // verus!
