//! Core logic of a small side-scrolling arcade game: a player avatar falls
//! under gravity, a flap command counteracts the fall, and the avatar must
//! pass through randomized gaps in vertical obstacles without colliding.
//!
//! This crate holds the verified game model: the physics body, the obstacle
//! geometry with its collision predicate, and the mode-dispatching state
//! machine. Drawing, window setup and keyboard polling live outside, in the
//! unverified shell around the library.

pub mod obstacle;
pub mod player;
pub mod rng;
pub mod state;

use vstd::prelude::*;

verus! {

/// Width of the visible play field, in cells.
pub const SCREEN_WIDTH: i32 = 80;

/// Height of the visible play field, in cells.
pub const SCREEN_HEIGHT: i32 = 50;

/// Real time that must accumulate before one logical physics tick runs,
/// in microseconds.
pub const TICK_BUDGET_MICROS: u64 = 30;

} // verus!
