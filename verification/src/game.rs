//! The game as a whole: its two states, and the frame that takes the held
//! keys and the time since the last frame through every stage in a fixed
//! order.

use vstd::prelude::*;
use crate::ball::{is_launch_heading, move_ball, Ball, GoalEvent};
use crate::paddle::{
    clamped_y, handle_paddle_speed, lemma_clamp_keeps_paddle_in_arena, ramped_speed,
    spawn_paddles, Paddle, PaddleDirection, PaddleSide, PADDLE_MIN_SPEED,
};
use crate::score::{score_after, update_score, GameEndEvent, Score};
use crate::timers::{FreezeBallTimer, PaddleSpeedTimer};
use crate::trig::{is_unit, lemma_direction_unit};

verus! {

/// Whether a game is being played or has been won.
#[derive(Clone, Copy, Debug, PartialEq, Eq, Hash, Structural)]
pub enum GameState {
    Ongoing,
    End,
}

/// What the players hold down during one frame.
#[derive(Clone, Copy, Debug, PartialEq, Eq, Structural)]
pub struct FrameInput {
    pub left_up: bool,
    pub left_down: bool,
    pub right_up: bool,
    pub right_down: bool,
    /// The restart control was pressed in this frame.
    pub restart: bool,
}

/// What happened in one frame.
#[derive(Clone, Copy, Debug)]
pub struct FrameEvents {
    pub goal: Option<GoalEvent>,
    pub game_end: Option<GameEndEvent>,
    pub restarted: bool,
}

/// Everything that a game holds.
pub struct Game {
    pub state: GameState,
    pub left: Paddle,
    pub right: Paddle,
    pub ball: Ball,
    pub freeze_timer: FreezeBallTimer,
    pub speed_timer: PaddleSpeedTimer,
    pub score: Score,
}

impl Default for GameState {
    fn default() -> (state: GameState)
        ensures
            state == GameState::Ongoing,
    {
        GameState::Ongoing
    }
}

/// A restart is asked for when the restart control is pressed after a game
/// has ended; during a game the control does nothing.
pub open spec fn restart_wanted(state: GameState, restart_pressed: bool) -> bool {
    state == GameState::End && restart_pressed
}

/// The state after the events of a frame: a restart starts a game, the end
/// of a game ends it, and otherwise the state stays.
pub open spec fn state_after(state: GameState, game_ended: bool, restarted: bool) -> GameState {
    if restarted {
        GameState::Ongoing
    } else if game_ended {
        GameState::End
    } else {
        state
    }
}

/// A paddle after one frame of a game: it takes its direction from its
/// keys, takes a step of the speed ramp if the speed timer fired, moves, and
/// stops at the walls.
pub open spec fn paddle_after_frame(
    paddle: Paddle,
    up_held: bool,
    down_held: bool,
    ramp: bool,
    dt_micros: int,
) -> Paddle {
    let direction = PaddleDirection::of_keys(up_held, down_held);
    let speed = if ramp {
        ramped_speed(paddle.speed as int, direction)
    } else {
        paddle.speed as int
    };
    Paddle {
        side: paddle.side,
        y: clamped_y(paddle.y + direction.sign() * speed * dt_micros) as i64,
        speed: speed as i64,
        direction,
    }
}

/// Tells whether a restart is asked for.
pub fn restart_requested(state: GameState, restart_pressed: bool) -> (wanted: bool)
    ensures
        wanted == restart_wanted(state, restart_pressed),
{
    state == GameState::End && restart_pressed
}

/// The state that follows `state` after the events of a frame.
pub fn next_game_state(state: GameState, game_ended: bool, restarted: bool) -> (next: GameState)
    ensures
        next == state_after(state, game_ended, restarted),
{
    let mut next = state;
    if game_ended {
        next = GameState::End;
    }
    if restarted {
        next = GameState::Ongoing;
    }
    next
}

impl Game {
    /// Between frames the paddles stand within the arena, each on its side,
    /// the ball is in play and overlaps neither paddle, the timers are in
    /// order and neither player has the goals that win.
    pub open spec fn wf(&self) -> bool {
        &&& self.left.wf()
        &&& self.left.in_arena()
        &&& self.left.side == PaddleSide::Left
        &&& self.right.wf()
        &&& self.right.in_arena()
        &&& self.right.side == PaddleSide::Right
        &&& self.ball.wf()
        &&& self.ball.in_play()
        &&& !self.ball.rect().overlaps(self.left.rect())
        &&& !self.ball.rect().overlaps(self.right.rect())
        &&& self.freeze_timer.wf()
        &&& self.speed_timer.wf()
        &&& self.score.undecided()
    }

    /// The speed timer fires in a frame of `dt_micros`.
    pub open spec fn ramps(&self, dt_micros: int) -> bool {
        self.speed_timer.elapsed() + dt_micros * 1000 >= PaddleSpeedTimer::interval()
    }

    /// The ball of a game in play after the motion and the collisions of a
    /// frame in which the paddles end as `left` and `right`, before the goal
    /// check.
    pub open spec fn ball_struck(&self, left: Paddle, right: Paddle, dt_micros: int) -> Ball {
        let moved = if self.freeze_timer.frozen() {
            self.ball
        } else {
            self.ball.moved(dt_micros)
        };
        moved.after_collisions(left, right)
    }

    /// A game at its start: paddles at rest in the middle of their sides,
    /// the ball in the centre with a heading drawn at random and held by the
    /// freeze timer, no goals.
    pub fn new() -> (game: Game)
        ensures
            game.wf(),
            game.state == GameState::Ongoing,
            game.left == (Paddle {
                side: PaddleSide::Left,
                y: 0,
                speed: PADDLE_MIN_SPEED,
                direction: PaddleDirection::Still,
            }),
            game.right == (Paddle {
                side: PaddleSide::Right,
                y: 0,
                speed: PADDLE_MIN_SPEED,
                direction: PaddleDirection::Still,
            }),
            game.ball.x == 0,
            game.ball.y == 0,
            is_launch_heading(game.ball.heading as int),
            game.freeze_timer.frozen(),
            game.freeze_timer.elapsed() == 0,
            game.speed_timer.elapsed() == 0,
            game.score == Score::zero(),
    {
        let (left, right) = spawn_paddles();
        Game {
            state: GameState::Ongoing,
            left,
            right,
            ball: Ball::spawn(),
            freeze_timer: FreezeBallTimer::new(),
            speed_timer: PaddleSpeedTimer::new(),
            score: Score::new(),
        }
    }

    /// Advances the game by one frame of `dt_micros`.
    ///
    /// After a game has ended only the restart control is heeded: pressed,
    /// it starts a new game with no goals and the freeze timer armed, and
    /// nothing else changes.
    ///
    /// During a game the stages run in this order: each paddle takes its
    /// direction from its keys; the speed timer counts the frame and, if it
    /// fired, both paddles take a step of the speed ramp; the paddles move
    /// and stop at the walls; the ball moves unless the freeze timer holds
    /// it; the ball bounces off walls and paddles; a ball past a goal line
    /// gives a goal, goes back to the centre with a new heading and arms the
    /// freeze timer; the freeze timer counts the frame; the goal is counted;
    /// a player who has the goals that win ends the game, and the score
    /// starts over.
    pub fn step(&mut self, input: FrameInput, dt_micros: u32) -> (events: FrameEvents)
        requires
            old(self).wf(),
        ensures
            final(self).wf(),
            is_unit(final(self).ball.direction().0, final(self).ball.direction().1),
            old(self).state == GameState::End ==> {
                &&& events.goal is None
                &&& events.game_end is None
                &&& events.restarted == input.restart
                &&& final(self).state == state_after(GameState::End, false, input.restart)
                &&& final(self).score == score_after(old(self).score, None, input.restart)
                &&& final(self).left == old(self).left
                &&& final(self).right == old(self).right
                &&& final(self).ball == old(self).ball
                &&& final(self).speed_timer == old(self).speed_timer
                &&& if input.restart {
                    final(self).freeze_timer.frozen() && final(self).freeze_timer.elapsed() == 0
                } else {
                    final(self).freeze_timer == old(self).freeze_timer
                }
            },
            old(self).state == GameState::Ongoing ==> {
                let ramp = old(self).ramps(dt_micros as int);
                let struck = old(self).ball_struck(
                    final(self).left,
                    final(self).right,
                    dt_micros as int,
                );
                let counted = if events.goal is Some {
                    0
                } else {
                    old(self).freeze_timer.elapsed() as int
                } + dt_micros * 1000;
                let held = events.goal is Some || old(self).freeze_timer.frozen();
                let tally = score_after(old(self).score, events.goal, false);
                &&& !events.restarted
                &&& final(self).speed_timer.elapsed() == (old(self).speed_timer.elapsed()
                    + dt_micros * 1000) % (PaddleSpeedTimer::interval() as int)
                &&& final(self).left == paddle_after_frame(
                    old(self).left,
                    input.left_up,
                    input.left_down,
                    ramp,
                    dt_micros as int,
                )
                &&& final(self).right == paddle_after_frame(
                    old(self).right,
                    input.right_up,
                    input.right_down,
                    ramp,
                    dt_micros as int,
                )
                &&& events.goal == struck.goal()
                &&& events.goal is None ==> final(self).ball == struck
                &&& events.goal is Some ==> {
                    &&& final(self).ball.x == 0
                    &&& final(self).ball.y == 0
                    &&& is_launch_heading(final(self).ball.heading as int)
                }
                &&& final(self).freeze_timer.frozen() == (held && counted
                    < FreezeBallTimer::duration())
                &&& final(self).freeze_timer.elapsed() == if final(self).freeze_timer.frozen() {
                    counted
                } else {
                    0
                }
                &&& events.game_end == if tally.has_winner() {
                    Some(GameEndEvent { final_score: (tally.left_score, tally.right_score) })
                } else {
                    None
                }
                &&& final(self).score == if tally.has_winner() {
                    Score::zero()
                } else {
                    tally
                }
                &&& final(self).state == state_after(
                    GameState::Ongoing,
                    tally.has_winner(),
                    false,
                )
            },
    {
        proof {
            lemma_direction_unit(self.ball.heading as int);
        }
        match self.state {
            GameState::End => {
                let restarted = restart_requested(self.state, input.restart);
                update_score(&mut self.score, None, restarted);
                if restarted {
                    self.freeze_timer.arm();
                }
                self.state = next_game_state(self.state, false, restarted);
                FrameEvents { goal: None, game_end: None, restarted }
            },
            GameState::Ongoing => {
                self.left.handle_direction(input.left_up, input.left_down);
                self.right.handle_direction(input.right_up, input.right_down);
                handle_paddle_speed(
                    &mut self.speed_timer,
                    &mut self.left,
                    &mut self.right,
                    dt_micros,
                );
                self.left.advance(dt_micros);
                self.right.advance(dt_micros);
                self.left.handle_collision();
                self.right.handle_collision();
                move_ball(&mut self.ball, &self.freeze_timer, dt_micros);
                self.ball.handle_collisions(&self.left, &self.right);
                let goal = self.ball.handle_score(&mut self.freeze_timer);
                self.freeze_timer.tick(dt_micros);
                update_score(&mut self.score, goal, false);
                let game_end = self.score.check_for_winner();
                self.state = next_game_state(self.state, game_end.is_some(), false);
                proof {
                    lemma_direction_unit(self.ball.heading as int);
                }
                FrameEvents { goal, game_end, restarted: false }
            },
        }
    }
}

/// At the end of a frame a paddle's box lies within the arena's top and
/// bottom bounds, wherever the paddle stood, whatever was held and however
/// long the frame was.
pub proof fn lemma_paddle_stays_in_arena(
    paddle: Paddle,
    up_held: bool,
    down_held: bool,
    ramp: bool,
    dt_micros: int,
)
    ensures
        paddle_after_frame(paddle, up_held, down_held, ramp, dt_micros).in_arena(),
{
    let direction = PaddleDirection::of_keys(up_held, down_held);
    let speed = if ramp {
        ramped_speed(paddle.speed as int, direction)
    } else {
        paddle.speed as int
    };
    lemma_clamp_keeps_paddle_in_arena(paddle.y + direction.sign() * speed * dt_micros);
}

/// A paddle whose keys are both held, or both released, ends the frame
/// where it stood, if it stood within the arena.
pub proof fn lemma_conflicting_keys_cancel(paddle: Paddle, held: bool, ramp: bool, dt_micros: int)
    requires
        paddle.in_arena(),
    ensures
        paddle_after_frame(paddle, held, held, ramp, dt_micros).y == paddle.y,
        paddle_after_frame(paddle, held, held, ramp, dt_micros).direction
            == PaddleDirection::Still,
{
    let speed = if ramp {
        ramped_speed(paddle.speed as int, PaddleDirection::Still)
    } else {
        paddle.speed as int
    };
    assert(0 * speed * dt_micros == 0) by (nonlinear_arith);
}

/// The game is always in exactly one of its two states, and a frame changes
/// the state only by a win or by a restart.
pub proof fn lemma_state_transitions(state: GameState, game_ended: bool, restarted: bool)
    ensures
        (state == GameState::Ongoing) != (state == GameState::End),
        !game_ended && !restarted ==> state_after(state, game_ended, restarted) == state,
        state_after(state, game_ended, restarted) == GameState::End ==> game_ended
            || state == GameState::End,
        state_after(state, game_ended, restarted) == GameState::Ongoing ==> restarted
            || state == GameState::Ongoing,
        !restart_wanted(GameState::Ongoing, restarted),
{
}

} // verus!
