//! The score of the current run and the table of finished runs.

use vstd::prelude::*;
use vstd::string::StringExecFns;

verus! {

/// Number of stars the player has collected in the current run.
pub struct Score {
    pub value: u32,
}

impl Default for Score {
    /// A fresh run starts with no stars collected.
    fn default() -> (s: Self)
        ensures
            s.value == 0,
    {
        Score { value: 0 }
    }
}

/// Raised when an enemy reaches the player; carries the score the run
/// ended with.
pub struct GameOver {
    pub score: u32,
}

/// Results of finished runs, in the order the runs ended.
pub struct HighScores {
    pub scores: Vec<(String, u32)>,
}

impl Default for HighScores {
    /// The table starts empty.
    fn default() -> (h: Self)
        ensures
            h.scores@.len() == 0,
    {
        HighScores { scores: Vec::new() }
    }
}

/// Records a finished run: the player's name and the score the run ended
/// with go to the end of the table; earlier entries keep their places.
pub fn update_highscores(high_scores: &mut HighScores, event: &GameOver)
    ensures
        final(high_scores).scores@.len() == old(high_scores).scores@.len() + 1,
        final(high_scores).scores@[old(high_scores).scores@.len() as int].0@ == "Player 1"@,
        final(high_scores).scores@[old(high_scores).scores@.len() as int].1 == event.score,
        forall|i: int|
            0 <= i < old(high_scores).scores@.len() ==> final(high_scores).scores@[i]
                == old(high_scores).scores@[i],
{
    let name = String::from_str("Player 1");
    high_scores.scores.push((name, event.score));
}

} // verus!
