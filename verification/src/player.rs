//! Decisions made on the player's behalf each frame: which keys move the
//! avatar, what an overlap with a star does to the score, and when an
//! overlap with an enemy ends the run.
//!
//! The engine-facing shell measures the float geometry; it hands these
//! functions one overlap flag per star or enemy, true where the avatar and
//! that entity stand closer than the sum of their radii.

use vstd::prelude::*;
use crate::score::{GameOver, Score};

verus! {

/// True when either key of a two-key binding is held down.
pub fn key_from_pair_pressed(pressed: [bool; 2]) -> (r: bool)
    ensures
        r == (pressed[0] || pressed[1]),
{
    let mut is_pressed = false;
    let mut i: usize = 0;
    while i < 2
        invariant
            i <= 2,
            is_pressed == exists|j: int| 0 <= j < i && pressed[j],
        decreases 2 - i,
    {
        if pressed[i] {
            is_pressed = true;
        }
        i = i + 1;
    }
    is_pressed
}

/// Sign of the avatar's horizontal motion. The left key's check runs
/// before the right key's and each assigns its sign, so the right key
/// wins when both are held.
pub fn player_movement_x(left_pressed: bool, right_pressed: bool) -> (d: i8)
    ensures
        d == if right_pressed {
            1i8
        } else if left_pressed {
            -1i8
        } else {
            0i8
        },
{
    let mut x: i8 = 0;
    if left_pressed {
        x = -1;
    }
    if right_pressed {
        x = 1;
    }
    x
}

/// Sign of the avatar's vertical motion. The up key's check runs before
/// the down key's and each assigns its sign, so the down key wins when
/// both are held.
pub fn player_movement_y(up_pressed: bool, down_pressed: bool) -> (d: i8)
    ensures
        d == if down_pressed {
            -1i8
        } else if up_pressed {
            1i8
        } else {
            0i8
        },
{
    let mut y: i8 = 0;
    if up_pressed {
        y = 1;
    }
    if down_pressed {
        y = -1;
    }
    y
}

/// How many of the per-star overlap flags are set.
pub open spec fn count_true(s: Seq<bool>) -> nat
    decreases s.len(),
{
    if s.len() == 0 {
        0
    } else {
        count_true(s.drop_last()) + if s.last() {
            1nat
        } else {
            0nat
        }
    }
}

proof fn lemma_count_true_step(s: Seq<bool>, i: int)
    requires
        0 <= i < s.len(),
    ensures
        count_true(s.subrange(0, i + 1)) == count_true(s.subrange(0, i)) + if s[i] {
            1nat
        } else {
            0nat
        },
{
    assert(s.subrange(0, i + 1).drop_last() =~= s.subrange(0, i));
}

proof fn lemma_count_true_prefix_le(s: Seq<bool>, i: int)
    requires
        0 <= i <= s.len(),
    ensures
        count_true(s.subrange(0, i)) <= count_true(s),
    decreases s.len() - i,
{
    if i == s.len() {
        assert(s.subrange(0, i) =~= s);
    } else {
        lemma_count_true_step(s, i);
        lemma_count_true_prefix_le(s, i + 1);
    }
}

/// Settles the frame's star pickups: the score grows by one for each star
/// whose overlap flag is set. The caller despawns exactly the flagged
/// stars, so the flags' count is also the number of stars that leave.
pub fn player_hit_star(score: &mut Score, hits: &Vec<bool>)
    requires
        old(score).value + count_true(hits@) <= u32::MAX,
    ensures
        final(score).value == old(score).value + count_true(hits@),
{
    let mut i: usize = 0;
    while i < hits.len()
        invariant
            i <= hits@.len(),
            score.value == old(score).value + count_true(hits@.subrange(0, i as int)),
            old(score).value + count_true(hits@) <= u32::MAX,
        decreases hits@.len() - i,
    {
        proof {
            lemma_count_true_step(hits@, i as int);
            lemma_count_true_prefix_le(hits@, i as int + 1);
        }
        if hits[i] {
            score.value = score.value + 1;
        }
        i = i + 1;
    }
    proof {
        assert(hits@.subrange(0, hits@.len() as int) =~= hits@);
    }
}

/// Settles the frame's enemy contacts: the run ends as soon as any enemy's
/// overlap flag is set, and the raised event carries the score the run
/// ended with; with no flag set the run goes on.
pub fn enemy_hit_player(hits: &Vec<bool>, score: &Score) -> (r: Option<GameOver>)
    ensures
        r matches Some(event) ==> event.score == score.value && exists|i: int|
            0 <= i < hits@.len() && hits@[i],
        r is None ==> forall|i: int| 0 <= i < hits@.len() ==> !hits@[i],
{
    let mut is_collision = false;
    let mut i: usize = 0;
    while i < hits.len()
        invariant_except_break
            i <= hits@.len(),
            !is_collision,
            forall|j: int| 0 <= j < i ==> !hits@[j],
        ensures
            is_collision ==> exists|j: int| 0 <= j < hits@.len() && hits@[j],
            !is_collision ==> forall|j: int| 0 <= j < hits@.len() ==> !hits@[j],
        decreases hits@.len() - i,
    {
        is_collision = hits[i];
        if is_collision {
            break ;
        }
        i = i + 1;
    }
    if is_collision {
        Some(GameOver { score: score.value })
    } else {
        None
    }
}

} // verus!
