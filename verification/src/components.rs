//! Markers for the entities the game's rules speak of. The engine-facing
//! shell attaches them, together with its own sprite and transform data,
//! to the entities it spawns.

use vstd::prelude::*;

verus! {

/// Marks the player's avatar.
pub struct Player {}

/// Marks a collectible star.
pub struct Star {}

} // verus!
