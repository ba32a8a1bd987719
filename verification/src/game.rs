use vstd::prelude::*;

use crate::config::LevelModifiers;
use crate::time::Time;

verus! {

/// Where the game goes when the level ends.
#[derive(Debug, Clone, Copy, PartialEq, Eq, Structural)]
pub enum Transition {
    LoadLeaderboard { submit_score: bool },
    Exit,
}

/// The phase of a level being played.
#[derive(Debug, Clone, Copy, PartialEq, Eq, Structural)]
pub enum GamePhase {
    /// Wait for the player to hover the light; then play music from `music_start_time`.
    Starting { music_start_time: Time },
    Playing,
    Lost {
        /// The time of death.
        death_exact_time: Time,
    },
    Finished,
}

/// What happens to a level in play after one update.
#[derive(Debug, Clone, Copy, PartialEq, Eq, Structural)]
pub enum PlayOutcome {
    Continue,
    Finish,
    Lose,
}

/// The outcome of an update while playing: the level finishes once it has nothing left
/// to show; otherwise the player loses when the health is depleted, unless the level
/// plays itself or cannot be failed.
pub fn playing_outcome(level_finished: bool, modifiers: &LevelModifiers, health_depleted: bool) -> (res:
    PlayOutcome)
    ensures
        res == (if level_finished {
            PlayOutcome::Finish
        } else if !modifiers.clean_auto && !modifiers.nofail && health_depleted {
            PlayOutcome::Lose
        } else {
            PlayOutcome::Continue
        }),
{
    if level_finished {
        PlayOutcome::Finish
    } else if !modifiers.clean_auto && !modifiers.nofail && health_depleted {
        PlayOutcome::Lose
    } else {
        PlayOutcome::Continue
    }
}

impl GamePhase {
    /// Start playing.
    pub fn start(&mut self)
        ensures
            *final(self) == GamePhase::Playing,
    {
        *self = GamePhase::Playing;
    }

    /// The level is completed: the score is submitted to the leaderboard.
    pub fn finish(&mut self) -> (transition: Transition)
        ensures
            *final(self) == GamePhase::Finished,
            transition == (Transition::LoadLeaderboard { submit_score: true }),
    {
        *self = GamePhase::Finished;
        Transition::LoadLeaderboard { submit_score: true }
    }

    /// The player lost at `exact_time`: the leaderboard is shown without submitting.
    pub fn lose(&mut self, exact_time: Time) -> (transition: Transition)
        ensures
            *final(self) == (GamePhase::Lost { death_exact_time: exact_time }),
            transition == (Transition::LoadLeaderboard { submit_score: false }),
    {
        *self = GamePhase::Lost { death_exact_time: exact_time };
        Transition::LoadLeaderboard { submit_score: false }
    }

    /// Events after this time are not rendered: after a loss, those after the death.
    pub fn ignore_time(&self) -> (res: Option<Time>)
        ensures
            res == (match self {
                GamePhase::Lost { death_exact_time } => Some(*death_exact_time),
                _ => None,
            }),
    {
        match self {
            GamePhase::Lost { death_exact_time } => Some(*death_exact_time),
            _ => None,
        }
    }

    /// Whether the game clock advances (it waits while starting).
    pub fn clock_runs(&self) -> (res: bool)
        ensures
            res == !(self is Starting),
    {
        match self {
            GamePhase::Starting { .. } => false,
            _ => true,
        }
    }
}

} // verus!
