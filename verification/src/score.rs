//! The score: one count of goals for each player, and the win.

use vstd::prelude::*;
use crate::ball::GoalEvent;
use crate::paddle::PaddleSide;

verus! {

/// The number of goals that wins a game.
pub const SCORE_TO_WIN: u32 = 5;

/// The goals of the two players in the game that is being played.
#[derive(Clone, Copy, Debug, PartialEq, Eq, Structural)]
pub struct Score {
    pub left_score: u32,
    pub right_score: u32,
}

/// A game has ended; `final_score` holds the goals of the left and of the
/// right player at that moment.
#[derive(Clone, Copy, Debug)]
pub struct GameEndEvent {
    pub final_score: (u32, u32),
}

impl Score {
    /// Nobody has scored.
    pub open spec fn zero() -> Score {
        Score { left_score: 0, right_score: 0 }
    }

    /// The score with one goal more for the player who scored.
    pub open spec fn after_goal(self, goal: GoalEvent) -> Score {
        if goal.left_scored {
            Score { left_score: (self.left_score + 1) as u32, right_score: self.right_score }
        } else {
            Score { left_score: self.left_score, right_score: (self.right_score + 1) as u32 }
        }
    }

    /// One of the players has exactly the goals that win.
    pub open spec fn has_winner(self) -> bool {
        self.left_score == SCORE_TO_WIN || self.right_score == SCORE_TO_WIN
    }

    /// Both players are short of the goals that win, as they are throughout
    /// a game.
    pub open spec fn undecided(self) -> bool {
        self.left_score < SCORE_TO_WIN && self.right_score < SCORE_TO_WIN
    }

    /// The score at the start of a game.
    pub fn new() -> (score: Score)
        ensures
            score == Score::zero(),
    {
        Score { left_score: 0, right_score: 0 }
    }

    /// Counts a goal: one more for the player who scored, and the other
    /// count as it was. The count that grows is below the limit of `u32`.
    pub fn record_goal(&mut self, goal: GoalEvent)
        requires
            goal.left_scored ==> old(self).left_score < u32::MAX,
            !goal.left_scored ==> old(self).right_score < u32::MAX,
        ensures
            *final(self) == old(self).after_goal(goal),
            final(self).left_score + final(self).right_score == old(self).left_score + old(
                self,
            ).right_score + 1,
    {
        if goal.left_scored {
            self.left_score += 1;
        } else {
            self.right_score += 1;
        }
    }

    /// Sets both counts to zero.
    pub fn reset(&mut self)
        ensures
            *final(self) == Score::zero(),
    {
        self.left_score = 0;
        self.right_score = 0;
    }

    /// If a player has the goals that win, reports the end of the game with
    /// the score as it stands and sets both counts to zero. Otherwise
    /// nothing changes.
    pub fn check_for_winner(&mut self) -> (event: Option<GameEndEvent>)
        ensures
            event == if old(self).has_winner() {
                Some(GameEndEvent { final_score: (old(self).left_score, old(self).right_score) })
            } else {
                None
            },
            *final(self) == if old(self).has_winner() {
                Score::zero()
            } else {
                *old(self)
            },
    {
        if self.left_score == SCORE_TO_WIN || self.right_score == SCORE_TO_WIN {
            let event = GameEndEvent { final_score: (self.left_score, self.right_score) };
            self.reset();
            Some(event)
        } else {
            None
        }
    }
}

impl Default for Score {
    fn default() -> (score: Score)
        ensures
            score == Score::zero(),
    {
        Score::new()
    }
}

impl GameEndEvent {
    /// The player who won: the left one if the left count is the one that
    /// wins, else the right one.
    pub open spec fn winning_side(self) -> PaddleSide {
        if self.final_score.0 == SCORE_TO_WIN {
            PaddleSide::Left
        } else {
            PaddleSide::Right
        }
    }

    /// The player who won.
    pub fn winner(&self) -> (side: PaddleSide)
        ensures
            side == self.winning_side(),
    {
        if self.final_score.0 == SCORE_TO_WIN {
            PaddleSide::Left
        } else {
            PaddleSide::Right
        }
    }
}

/// The score after the events of one frame: a goal, if there was one, is
/// counted first, and a restart then sets both counts to zero.
pub open spec fn score_after(score: Score, goal: Option<GoalEvent>, restarted: bool) -> Score {
    if restarted {
        Score::zero()
    } else {
        match goal {
            Some(event) => score.after_goal(event),
            None => score,
        }
    }
}

/// Brings the score up to date with the events of one frame.
pub fn update_score(score: &mut Score, goal: Option<GoalEvent>, restarted: bool)
    requires
        old(score).left_score < u32::MAX,
        old(score).right_score < u32::MAX,
    ensures
        *final(score) == score_after(*old(score), goal, restarted),
{
    // If a player scores, increment that player's score by one.
    match goal {
        Some(event) => {
            score.record_goal(event);
        },
        None => {},
    }
    // If the game is restarted, reset all scores to 0.
    if restarted {
        score.reset();
    }
}

} // verus!
