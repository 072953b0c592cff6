//! Decisions made for the bouncing enemies each frame.
//!
//! An enemy's direction vector and its reflection off the arena's bounds
//! are float work of the engine-facing shell. The shell reports, for each
//! enemy, whether it touched a vertical bound and whether it touched a
//! horizontal one this frame; this module decides what follows.

use vstd::prelude::*;
use vstd::string::StringExecFns;

verus! {

/// Which bounds one enemy touched this frame: a touch of a vertical bound
/// reverses the enemy's horizontal motion, a touch of a horizontal bound
/// its vertical motion.
#[derive(Clone, Copy, Debug, PartialEq, Eq, Structural)]
pub struct EnemyBounce {
    pub hit_vertical_bound: bool,
    pub hit_horizontal_bound: bool,
}

/// True when the enemy bounced at all this frame.
pub open spec fn bounced(b: EnemyBounce) -> bool {
    b.hit_vertical_bound || b.hit_horizontal_bound
}

/// Decides whether the bump sound plays this frame: it does exactly when
/// some enemy's direction was reversed against a bound.
pub fn bounce_sound_needed(bounces: &Vec<EnemyBounce>) -> (play_sound: bool)
    ensures
        play_sound == exists|i: int| 0 <= i < bounces@.len() && bounced(bounces@[i]),
{
    let mut is_updated = false;
    let mut i: usize = 0;
    while i < bounces.len()
        invariant
            i <= bounces@.len(),
            is_updated == exists|j: int| 0 <= j < i && bounced(bounces@[j]),
        decreases bounces@.len() - i,
    {
        let bounce = bounces[i];
        if bounce.hit_vertical_bound {
            is_updated = true;
        }
        if bounce.hit_horizontal_bound {
            is_updated = true;
        }
        i = i + 1;
    }
    is_updated
}

/// Path of the effect played when an enemy bounces. Two pluck sounds take
/// turns at random; the caller draws the coin.
pub fn bump_sound_path(first: bool) -> (p: String)
    ensures
        first ==> p@ == "audio/pluck_001.ogg"@,
        !first ==> p@ == "audio/pluck_002.ogg"@,
{
    if first {
        String::from_str("audio/pluck_001.ogg")
    } else {
        String::from_str("audio/pluck_002.ogg")
    }
}

} // verus!
