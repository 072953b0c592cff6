//! Rules of a small two-dimensional arcade game: a player avatar roams a
//! window, collects stars and dodges bouncing enemies. The host game engine
//! owns rendering, audio, input polling and the float-valued kinematics;
//! this crate holds the game's decisions over plain values — scoring, the
//! high-score table, the pause and menu state machines, collision outcomes
//! and key handling — each stated in a contract and verified.

use vstd::prelude::*;

pub mod components;
pub mod enemy;
pub mod player;
pub mod score;
pub mod state;

verus! {

/// How many enemies roam the arena when a run begins.
pub const NUMBER_OF_ENEMIES: usize = 6;

/// How many stars are scattered over the arena when a run begins.
pub const NUMBER_OF_STARS: usize = 10;

} // verus!
