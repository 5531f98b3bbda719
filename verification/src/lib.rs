//! Core of a side-scrolling obstacle-avoidance arcade game.
//!
//! A player-controlled actor falls under gravity, can flap to counteract it,
//! and must pass through gaps in a stream of recycled obstacles. The crate
//! holds the fixed-timestep physics, the obstacle generation and recycling
//! policy, the collision test, the ordered top-five score table, and the
//! mode-transition state machine. Rendering, key decoding and file handling
//! live with the host program, which drives [`state::State::tick`] once per
//! frame.

use vstd::prelude::*;

pub mod obstacle;
pub mod player;
pub mod rng;
pub mod scores;
pub mod state;

verus! {

/// Column the actor occupies on screen; also its spawn column in the world.
/// An obstacle's trigger column is its world column minus this offset.
pub const PLAYER_X_OFFSET: i32 = 5;

/// Row the actor spawns at.
pub const PLAYER_INIT_Y: i32 = 25;

/// Width of the visible play field in cells.
pub const SCREEN_WIDTH: i32 = 80;

/// Height of the visible play field in cells; rows past it are a loss.
pub const SCREEN_HEIGHT: i32 = 50;

/// Length of one simulation tick, in milliseconds.
pub const TICK_MS: u64 = 75;

/// Half the spacing added past the most recently recycled obstacle.
pub const MIN_OBSTACLE_OFFSET: i32 = 20;

} // verus!
