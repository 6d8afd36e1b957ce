//! Core of a single-player snake game on a fixed toroidal grid.
//!
//! The library owns the whole simulation: grid geometry with wraparound,
//! direction and key-input mapping with two-slot input buffering, the snake's
//! per-tick movement/growth/collision algorithm, the food entity, and the
//! per-tick game-state transition. Rendering and windowing are left to the
//! surrounding program, which drives the core through `GameState::advance`,
//! `GameState::on_direction_input` and the read-only state fields.

pub mod config;
pub mod direction;
pub mod food;
pub mod game;
pub mod grid;
mod rng;
pub mod snake;
