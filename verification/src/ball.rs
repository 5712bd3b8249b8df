//! The ball: launch, motion, bounces off walls and paddles, and goals.
//!
//! The ball's speed is in units of length per second, a frame's duration in
//! microseconds and a direction's parts in millionths, so speed times
//! duration times part, divided by a million, is a distance in micro-units.

use vstd::prelude::*;
use crate::chance::{random_bool, random_in_range};
use crate::geometry::{
    collide, ARENA_HALF_HEIGHT, ARENA_HALF_WIDTH, Collision, POSITION_LIMIT, Rect,
};
use crate::paddle::{Paddle, PaddleSide, PADDLE_HEIGHT_HALF, PADDLE_WIDTH_HALF};
use crate::timers::FreezeBallTimer;
use crate::trig::{
    cos_degrees, cosine, is_heading, is_unit, lemma_direction_unit, normalize_degrees,
    normalized, reflect_horizontal, reflect_vertical, sin_degrees, sine, TRIG_ONE,
};

verus! {

/// Width and height of the ball (30 units).
pub const BALL_SIZE: i64 = 30_000_000;

pub const BALL_SIZE_HALF: i64 = 15_000_000;

/// Speed of the ball, in units per second.
pub const BALL_SPEED: i64 = 300;

/// A launch points at most this many degrees away from straight at a paddle.
pub const LAUNCH_SPREAD: i32 = 45;

/// The heading of a ball that has not been launched at random, and the one
/// taken when a draw is not a launch angle.
pub const DEFAULT_LAUNCH_ANGLE: i32 = 45;

/// The ball: where its centre is, in micro-units, and the heading along
/// which it travels, in degrees.
#[derive(Clone, Copy, Debug, PartialEq, Eq, Structural)]
pub struct Ball {
    pub x: i64,
    pub y: i64,
    pub heading: i32,
}

/// If left_scored is false, then right player scored.
#[derive(Clone, Copy, Debug, PartialEq, Eq, Structural)]
pub struct GoalEvent {
    pub left_scored: bool,
}

/// The distance covered in `dt_micros` at `speed` along an axis on which the
/// direction has the part `part`: the exact product with what is less than a
/// micro-unit cut off, so that opposite parts give opposite distances.
pub open spec fn travel(speed: int, dt_micros: int, part: int) -> int {
    if part >= 0 {
        (speed * dt_micros * part) / (TRIG_ONE as int)
    } else {
        -((speed * dt_micros * (-part)) / (TRIG_ONE as int))
    }
}

/// Whether an angle drawn for a launch points towards the right paddle
/// (within `LAUNCH_SPREAD` of 0 degrees) or towards the left one (within
/// `LAUNCH_SPREAD` of 180 degrees).
pub open spec fn is_launch_angle(drawn: int) -> bool {
    -LAUNCH_SPREAD <= drawn <= LAUNCH_SPREAD || 180 - LAUNCH_SPREAD <= drawn <= 180
        + LAUNCH_SPREAD
}

/// Whether a heading is one that a launch can give.
pub open spec fn is_launch_heading(heading: int) -> bool {
    ||| -LAUNCH_SPREAD <= heading <= LAUNCH_SPREAD
    ||| 180 - LAUNCH_SPREAD <= heading <= 180
    ||| -180 < heading <= -180 + LAUNCH_SPREAD
}

/// The heading that a drawn angle stands for: the angle itself, brought
/// into the range of headings, or `DEFAULT_LAUNCH_ANGLE` where the draw is
/// not a launch angle.
pub open spec fn launch_heading_of(drawn: int) -> int {
    if is_launch_angle(drawn) {
        normalized(drawn)
    } else {
        DEFAULT_LAUNCH_ANGLE as int
    }
}

/// Turns a drawn angle into the heading of a launch.
pub fn launch_heading(drawn: i32) -> (heading: i32)
    ensures
        heading == launch_heading_of(drawn as int),
        is_launch_heading(heading as int),
{
    if (-LAUNCH_SPREAD <= drawn && drawn <= LAUNCH_SPREAD) || (180 - LAUNCH_SPREAD <= drawn
        && drawn <= 180 + LAUNCH_SPREAD) {
        normalize_degrees(drawn)
    } else {
        DEFAULT_LAUNCH_ANGLE
    }
}

/// The distance that the ball covers in `dt_micros` along an axis on which
/// its direction has the part `part`.
pub fn ball_travel(dt_micros: u32, part: i64) -> (distance: i64)
    requires
        -TRIG_ONE <= part <= TRIG_ONE,
    ensures
        distance == travel(BALL_SPEED as int, dt_micros as int, part as int),
        -BALL_SPEED * dt_micros <= distance <= BALL_SPEED * dt_micros,
{
    let speed: u64 = BALL_SPEED as u64;
    let dt: u64 = dt_micros as u64;
    let size: u64 = if part >= 0 {
        part as u64
    } else {
        (-part) as u64
    };
    assert(speed * dt == BALL_SPEED * dt_micros <= 1_288_490_188_500) by (nonlinear_arith)
        requires
            speed == BALL_SPEED == 300,
            0 <= dt == dt_micros <= 0xffff_ffff,
    ;
    let reach: u64 = speed * dt;
    assert(0 <= reach * size <= reach * 1_000_000 <= 1_288_490_188_500_000_000
        && reach * size / 1_000_000 <= reach && BALL_SPEED * dt_micros * size == reach * size)
        by (nonlinear_arith)
        requires
            0 <= size <= 1_000_000,
            0 <= reach <= 1_288_490_188_500,
            reach == BALL_SPEED * dt_micros,
    ;
    let covered: u64 = reach * size / 1_000_000;
    if part >= 0 {
        covered as i64
    } else {
        -(covered as i64)
    }
}

impl Ball {
    /// The position is within `POSITION_LIMIT` and the heading is in its
    /// range.
    pub open spec fn wf(self) -> bool {
        &&& -POSITION_LIMIT <= self.x <= POSITION_LIMIT
        &&& -POSITION_LIMIT <= self.y <= POSITION_LIMIT
        &&& is_heading(self.heading as int)
    }

    /// The ball's box touches the arena or lies in it: the ball is not past
    /// a goal line, nor wholly above or below the arena.
    pub open spec fn in_play(self) -> bool {
        &&& -ARENA_HALF_WIDTH - BALL_SIZE_HALF <= self.x <= ARENA_HALF_WIDTH + BALL_SIZE_HALF
        &&& -ARENA_HALF_HEIGHT - BALL_SIZE_HALF <= self.y <= ARENA_HALF_HEIGHT + BALL_SIZE_HALF
    }

    /// The box that the ball fills.
    pub open spec fn rect(self) -> Rect {
        Rect { x: self.x, y: self.y, half_width: BALL_SIZE_HALF, half_height: BALL_SIZE_HALF }
    }

    /// The direction of travel, in millionths: the cosine and the sine of
    /// the heading.
    pub open spec fn direction(self) -> (int, int) {
        (cosine(self.heading as int), sine(self.heading as int))
    }

    /// The ball after moving for `dt_micros` along its direction.
    pub open spec fn moved(self, dt_micros: int) -> Ball {
        Ball {
            x: (self.x + travel(BALL_SPEED as int, dt_micros, self.direction().0)) as i64,
            y: (self.y + travel(BALL_SPEED as int, dt_micros, self.direction().1)) as i64,
            heading: self.heading,
        }
    }

    /// The ball after its bounce off the top or the bottom wall, if it lies
    /// beyond one: the heading is negated and the ball is put with its edge
    /// on the wall.
    pub open spec fn after_walls(self) -> Ball {
        if self.y + BALL_SIZE_HALF > ARENA_HALF_HEIGHT {
            Ball {
                x: self.x,
                y: (ARENA_HALF_HEIGHT - BALL_SIZE_HALF) as i64,
                heading: normalized(-self.heading) as i32,
            }
        } else if self.y - BALL_SIZE_HALF < -ARENA_HALF_HEIGHT {
            Ball {
                x: self.x,
                y: (-ARENA_HALF_HEIGHT + BALL_SIZE_HALF) as i64,
                heading: normalized(-self.heading) as i32,
            }
        } else {
            self
        }
    }

    /// The ball after its response to `paddle`, if it has run into it.
    ///
    /// Off the top or bottom of the paddle the heading is negated, off its
    /// left or right it is taken from 180 degrees, and the ball is put just
    /// outside the side it struck. A ball that struck no single side goes to
    /// the nearer of the paddle's left and right sides, at the height of the
    /// arena's centre, heading 180 degrees.
    pub open spec fn after_paddle(self, paddle: Paddle) -> Ball {
        let target = paddle.rect();
        match self.rect().collision_with(target) {
            None => self,
            Some(Collision::Top) => Ball {
                x: self.x,
                y: (target.top() + BALL_SIZE_HALF) as i64,
                heading: normalized(-self.heading) as i32,
            },
            Some(Collision::Bottom) => Ball {
                x: self.x,
                y: (target.bottom() - BALL_SIZE_HALF) as i64,
                heading: normalized(-self.heading) as i32,
            },
            Some(Collision::Left) => Ball {
                x: (target.left() - BALL_SIZE_HALF) as i64,
                y: self.y,
                heading: normalized(180 - self.heading) as i32,
            },
            Some(Collision::Right) => Ball {
                x: (target.right() + BALL_SIZE_HALF) as i64,
                y: self.y,
                heading: normalized(180 - self.heading) as i32,
            },
            Some(Collision::Inside) => Ball {
                x: if self.x < target.x {
                    (target.left() - BALL_SIZE_HALF) as i64
                } else {
                    (target.right() + BALL_SIZE_HALF) as i64
                },
                y: 0,
                heading: 180,
            },
        }
    }

    /// The ball after the collisions of one frame: the walls first, then the
    /// left paddle, then the right one.
    pub open spec fn after_collisions(self, left: Paddle, right: Paddle) -> Ball {
        self.after_walls().after_paddle(left).after_paddle(right)
    }

    /// The goal that the ball's position means, if any: the right player's
    /// when the whole ball is past the left bound, the left player's when it
    /// is past the right bound.
    pub open spec fn goal(self) -> Option<GoalEvent> {
        if self.x + BALL_SIZE_HALF < -ARENA_HALF_WIDTH {
            Some(GoalEvent { left_scored: false })
        } else if self.x - BALL_SIZE_HALF > ARENA_HALF_WIDTH {
            Some(GoalEvent { left_scored: true })
        } else {
            None
        }
    }

    /// A ball at the centre of the arena with the default heading.
    pub fn new() -> (ball: Ball)
        ensures
            ball == (Ball { x: 0, y: 0, heading: DEFAULT_LAUNCH_ANGLE }),
            ball.wf(),
            ball.in_play(),
    {
        Ball { x: 0, y: 0, heading: DEFAULT_LAUNCH_ANGLE }
    }

    /// A ball at the centre of the arena, launched at random towards one of
    /// the paddles.
    pub fn spawn() -> (ball: Ball)
        ensures
            ball.x == 0,
            ball.y == 0,
            is_launch_heading(ball.heading as int),
            ball.wf(),
            ball.in_play(),
            is_unit(ball.direction().0, ball.direction().1),
    {
        let mut ball = Ball::new();
        ball.set_dir_to_random();
        ball
    }

    /// Gives the ball a heading drawn at random: with equal chance towards
    /// the right paddle or the left one, and then any whole angle within
    /// `LAUNCH_SPREAD` degrees of that. The position stays.
    pub fn set_dir_to_random(&mut self)
        ensures
            final(self).x == old(self).x,
            final(self).y == old(self).y,
            is_launch_heading(final(self).heading as int),
            is_heading(final(self).heading as int),
            is_unit(final(self).direction().0, final(self).direction().1),
    {
        let drawn: i32 = if random_bool() {
            // Will point to the right paddle
            random_in_range(-LAUNCH_SPREAD, LAUNCH_SPREAD)
        } else {
            // Will point to the left paddle
            random_in_range(180 - LAUNCH_SPREAD, 180 + LAUNCH_SPREAD)
        };
        self.heading = launch_heading(drawn);
        proof {
            lemma_direction_unit(self.heading as int);
        }
    }

    /// The box that the ball fills.
    pub fn bounding_box(&self) -> (rect: Rect)
        requires
            self.wf(),
        ensures
            rect == self.rect(),
            rect.wf(),
    {
        Rect { x: self.x, y: self.y, half_width: BALL_SIZE_HALF, half_height: BALL_SIZE_HALF }
    }

    /// Moves the ball for `dt_micros` along its direction at `BALL_SPEED`.
    /// The ball starts in play, where a frame leaves it, and may end beyond
    /// a wall, in a paddle or past a goal line.
    pub fn advance(&mut self, dt_micros: u32)
        requires
            old(self).wf(),
            old(self).in_play(),
        ensures
            *final(self) == old(self).moved(dt_micros as int),
            final(self).x == old(self).x + travel(
                BALL_SPEED as int,
                dt_micros as int,
                old(self).direction().0,
            ),
            final(self).y == old(self).y + travel(
                BALL_SPEED as int,
                dt_micros as int,
                old(self).direction().1,
            ),
            final(self).wf(),
    {
        let along_x: i64 = ball_travel(dt_micros, cos_degrees(self.heading));
        let along_y: i64 = ball_travel(dt_micros, sin_degrees(self.heading));
        self.x = self.x + along_x;
        self.y = self.y + along_y;
    }

    /// Puts the ball at `(x, y)` and sets it on the heading that `angle`
    /// stands for.
    pub fn update_due_to_collision(&mut self, x: i64, y: i64, angle: i32)
        requires
            -POSITION_LIMIT <= x <= POSITION_LIMIT,
            -POSITION_LIMIT <= y <= POSITION_LIMIT,
        ensures
            *final(self) == (Ball { x, y, heading: normalized(angle as int) as i32 }),
            final(self).wf(),
            is_unit(final(self).direction().0, final(self).direction().1),
    {
        self.x = x;
        self.y = y;
        self.heading = normalize_degrees(angle);
        proof {
            lemma_direction_unit(self.heading as int);
        }
    }

    /// Bounces the ball off the top or the bottom wall, if it lies beyond
    /// one.
    pub fn bounce_off_walls(&mut self)
        requires
            old(self).wf(),
        ensures
            *final(self) == old(self).after_walls(),
            final(self).wf(),
            final(self).y + BALL_SIZE_HALF <= ARENA_HALF_HEIGHT,
            final(self).y - BALL_SIZE_HALF >= -ARENA_HALF_HEIGHT,
    {
        let top: i64 = self.y + BALL_SIZE_HALF;
        let bottom: i64 = self.y - BALL_SIZE_HALF;
        if top > ARENA_HALF_HEIGHT {
            let x: i64 = self.x;
            let angle: i32 = reflect_vertical(self.heading);
            self.update_due_to_collision(x, ARENA_HALF_HEIGHT - BALL_SIZE_HALF, angle);
        } else if bottom < -ARENA_HALF_HEIGHT {
            let x: i64 = self.x;
            let angle: i32 = reflect_vertical(self.heading);
            self.update_due_to_collision(x, -ARENA_HALF_HEIGHT + BALL_SIZE_HALF, angle);
        }
    }

    /// Lets the ball respond to `paddle`, if it has run into it.
    pub fn bounce_off_paddle(&mut self, paddle: &Paddle)
        requires
            old(self).wf(),
            paddle.wf(),
            paddle.in_arena(),
        ensures
            *final(self) == old(self).after_paddle(*paddle),
            final(self).wf(),
            !final(self).rect().overlaps(paddle.rect()),
    {
        let target: Rect = paddle.bounding_box();
        let x: i64 = self.x;
        let y: i64 = self.y;
        match collide(self.bounding_box(), target) {
            None => {},
            Some(Collision::Top) => {
                let angle: i32 = reflect_vertical(self.heading);
                self.update_due_to_collision(x, target.y + PADDLE_HEIGHT_HALF + BALL_SIZE_HALF, angle);
            },
            Some(Collision::Bottom) => {
                let angle: i32 = reflect_vertical(self.heading);
                self.update_due_to_collision(x, target.y - PADDLE_HEIGHT_HALF - BALL_SIZE_HALF, angle);
            },
            Some(Collision::Left) => {
                let angle: i32 = reflect_horizontal(self.heading);
                self.update_due_to_collision(target.x - PADDLE_WIDTH_HALF - BALL_SIZE_HALF, y, angle);
            },
            Some(Collision::Right) => {
                let angle: i32 = reflect_horizontal(self.heading);
                self.update_due_to_collision(target.x + PADDLE_WIDTH_HALF + BALL_SIZE_HALF, y, angle);
            },
            Some(Collision::Inside) => {
                let beside: i64 = if x < target.x {
                    target.x - PADDLE_WIDTH_HALF - BALL_SIZE_HALF
                } else {
                    target.x + PADDLE_WIDTH_HALF + BALL_SIZE_HALF
                };
                self.update_due_to_collision(beside, 0, 180);
            },
        }
    }

    /// Resolves the collisions of one frame: the walls first, then each
    /// paddle. Afterwards the ball overlaps neither paddle.
    pub fn handle_collisions(&mut self, left: &Paddle, right: &Paddle)
        requires
            old(self).wf(),
            left.wf(),
            left.in_arena(),
            left.side == PaddleSide::Left,
            right.wf(),
            right.in_arena(),
            right.side == PaddleSide::Right,
        ensures
            *final(self) == old(self).after_collisions(*left, *right),
            final(self).wf(),
            !final(self).rect().overlaps(left.rect()),
            !final(self).rect().overlaps(right.rect()),
            -ARENA_HALF_HEIGHT - BALL_SIZE_HALF <= final(self).y <= ARENA_HALF_HEIGHT
                + BALL_SIZE_HALF,
            is_unit(final(self).direction().0, final(self).direction().1),
    {
        self.bounce_off_walls();
        self.bounce_off_paddle(left);
        self.bounce_off_paddle(right);
        proof {
            lemma_direction_unit(self.heading as int);
        }
    }

    /// Tells whether the ball has left the arena past a goal line, and who
    /// scored by it.
    pub fn scored(&self) -> (event: Option<GoalEvent>)
        requires
            self.wf(),
        ensures
            event == self.goal(),
    {
        let ball_left: i64 = self.x - BALL_SIZE_HALF;
        let ball_right: i64 = self.x + BALL_SIZE_HALF;
        if ball_right < -ARENA_HALF_WIDTH {
            Some(GoalEvent { left_scored: false })
        } else if ball_left > ARENA_HALF_WIDTH {
            Some(GoalEvent { left_scored: true })
        } else {
            None
        }
    }

    /// Handles a goal, if the ball's position means one: the ball goes back
    /// to the centre with a new heading drawn at random, the freeze timer is
    /// armed, and the goal is reported. Without a goal nothing changes.
    pub fn handle_score(&mut self, freeze_timer: &mut FreezeBallTimer) -> (event: Option<
        GoalEvent,
    >)
        requires
            old(self).wf(),
            old(freeze_timer).wf(),
        ensures
            event == old(self).goal(),
            final(self).wf(),
            final(freeze_timer).wf(),
            event is None ==> *final(self) == *old(self) && *final(freeze_timer) == *old(
                freeze_timer,
            ),
            event is Some ==> {
                &&& final(self).x == 0
                &&& final(self).y == 0
                &&& is_launch_heading(final(self).heading as int)
                &&& final(freeze_timer).frozen()
                &&& final(freeze_timer).elapsed() == 0
            },
            -ARENA_HALF_WIDTH - BALL_SIZE_HALF <= final(self).x <= ARENA_HALF_WIDTH
                + BALL_SIZE_HALF,
    {
        let event = self.scored();
        if event.is_some() {
            self.x = 0;
            self.y = 0;
            self.set_dir_to_random();
            freeze_timer.arm();
        }
        event
    }
}

/// Moves the ball for one frame unless the freeze timer holds it.
pub fn move_ball(ball: &mut Ball, freeze_timer: &FreezeBallTimer, dt_micros: u32)
    requires
        old(ball).wf(),
        old(ball).in_play(),
        freeze_timer.wf(),
    ensures
        *final(ball) == if freeze_timer.frozen() {
            *old(ball)
        } else {
            old(ball).moved(dt_micros as int)
        },
        final(ball).wf(),
{
    if !freeze_timer.is_frozen() {
        ball.advance(dt_micros);
    }
}

/// The direction of a ball is a vector of length 1, whatever its heading.
pub proof fn lemma_ball_direction_unit(ball: Ball)
    requires
        ball.wf(),
    ensures
        is_unit(ball.direction().0, ball.direction().1),
{
    lemma_direction_unit(ball.heading as int);
}

/// A bounce keeps the ball's direction a vector of length 1: off a wall or
/// a paddle, and out of a paddle that the ball had got into.
pub proof fn lemma_collisions_keep_direction_unit(ball: Ball, left: Paddle, right: Paddle)
    requires
        ball.wf(),
    ensures
        is_unit(ball.after_walls().direction().0, ball.after_walls().direction().1),
        is_unit(ball.after_paddle(left).direction().0, ball.after_paddle(left).direction().1),
        is_unit(
            ball.after_collisions(left, right).direction().0,
            ball.after_collisions(left, right).direction().1,
        ),
{
    lemma_direction_unit(ball.after_walls().heading as int);
    lemma_direction_unit(ball.after_paddle(left).heading as int);
    lemma_direction_unit(ball.after_walls().after_paddle(left).heading as int);
    lemma_direction_unit(ball.after_collisions(left, right).heading as int);
}

/// After the ball's response to a paddle it does not overlap that paddle,
/// whichever side it had struck.
pub proof fn lemma_response_clears_paddle(ball: Ball, paddle: Paddle)
    requires
        ball.wf(),
        paddle.wf(),
        paddle.in_arena(),
    ensures
        !ball.after_paddle(paddle).rect().overlaps(paddle.rect()),
{
}

/// A ball that has got into a paddle without striking a single side comes
/// out beside the paddle at the height of the arena's centre, heading 180
/// degrees, and no longer overlaps the paddle.
pub proof fn lemma_inside_returns_to_centre(ball: Ball, paddle: Paddle)
    requires
        ball.wf(),
        paddle.wf(),
        paddle.in_arena(),
        ball.rect().collision_with(paddle.rect()) == Some(Collision::Inside),
    ensures
        ball.after_paddle(paddle).y == 0,
        ball.after_paddle(paddle).heading == 180,
        ball.after_paddle(paddle).x == paddle.rect().left() - BALL_SIZE_HALF
            || ball.after_paddle(paddle).x == paddle.rect().right() + BALL_SIZE_HALF,
        !ball.after_paddle(paddle).rect().overlaps(paddle.rect()),
{
}

/// After the collisions of a frame the ball overlaps neither paddle, and
/// its box touches the arena or lies in it from top to bottom.
pub proof fn lemma_collisions_leave_no_overlap(ball: Ball, left: Paddle, right: Paddle)
    requires
        ball.wf(),
        left.wf(),
        left.in_arena(),
        left.side == PaddleSide::Left,
        right.wf(),
        right.in_arena(),
        right.side == PaddleSide::Right,
    ensures
        !ball.after_collisions(left, right).rect().overlaps(left.rect()),
        !ball.after_collisions(left, right).rect().overlaps(right.rect()),
        -ARENA_HALF_HEIGHT - BALL_SIZE_HALF <= ball.after_collisions(left, right).y
            <= ARENA_HALF_HEIGHT + BALL_SIZE_HALF,
{
}

} // verus!
