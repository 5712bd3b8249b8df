//! The paddles: what the held keys ask for, the speed ramp, the motion of
//! one frame and the stop at the arena's top and bottom.
//!
//! A paddle's speed is in units of length per second, a frame's duration in
//! microseconds, so their product is a distance in micro-units.

use vstd::prelude::*;
use crate::geometry::{ARENA_HALF_HEIGHT, ARENA_HALF_WIDTH, POSITION_LIMIT, Rect};
use crate::timers::PaddleSpeedTimer;

verus! {

/// Width of a paddle (20 units).
pub const PADDLE_WIDTH: i64 = 20_000_000;

/// Height of a paddle (80 units).
pub const PADDLE_HEIGHT: i64 = 80_000_000;

pub const PADDLE_WIDTH_HALF: i64 = 10_000_000;

pub const PADDLE_HEIGHT_HALF: i64 = 40_000_000;

/// Distance between a paddle's centre and the goal line behind it (40 units).
pub const PADDLE_GOAL_DISTANCE: i64 = 40_000_000;

/// Speed of a paddle at rest and the least it ever has, in units per second.
pub const PADDLE_MIN_SPEED: i64 = 300;

/// The most speed a paddle gathers, in units per second.
pub const PADDLE_MAX_SPEED: i64 = 800;

/// Change of speed at each firing of the speed timer, in units per second.
pub const PADDLE_ACCELERATION: i64 = 50;

/// Where a paddle is asked to go.
#[derive(Clone, Copy, Debug, PartialEq, Eq, Structural)]
pub enum PaddleDirection {
    Up,
    Down,
    /// Not moving
    Still,
}

/// The player a paddle belongs to, and the side of the arena it guards.
#[derive(Clone, Copy, Debug, PartialEq, Eq, Structural)]
pub enum PaddleSide {
    Left,
    Right,
}

/// One paddle. It moves along `y` only; its `x` follows from its side.
#[derive(Clone, Copy, Debug, PartialEq, Eq, Structural)]
pub struct Paddle {
    pub side: PaddleSide,
    /// Vertical position of the centre, in micro-units.
    pub y: i64,
    /// Current speed, in units per second.
    pub speed: i64,
    pub direction: PaddleDirection,
}

impl PaddleDirection {
    /// What two held keys ask for: up or down if one of them is held, and no
    /// motion if neither or both are.
    pub open spec fn of_keys(up_held: bool, down_held: bool) -> PaddleDirection {
        if up_held && !down_held {
            PaddleDirection::Up
        } else if down_held && !up_held {
            PaddleDirection::Down
        } else {
            PaddleDirection::Still
        }
    }

    /// +1 for up, -1 for down, 0 for no motion.
    pub open spec fn sign(self) -> int {
        match self {
            PaddleDirection::Up => 1,
            PaddleDirection::Down => -1,
            PaddleDirection::Still => 0,
        }
    }

    /// The direction that the two keys of a paddle ask for.
    pub fn from_keys(up_held: bool, down_held: bool) -> (direction: PaddleDirection)
        ensures
            direction == Self::of_keys(up_held, down_held),
    {
        if up_held && down_held {
            PaddleDirection::Still
        } else if up_held {
            PaddleDirection::Up
        } else if down_held {
            PaddleDirection::Down
        } else {
            PaddleDirection::Still
        }
    }
}

impl PaddleSide {
    /// Horizontal position of the centre of this side's paddle.
    pub open spec fn paddle_x(self) -> int {
        match self {
            PaddleSide::Left => -ARENA_HALF_WIDTH + PADDLE_GOAL_DISTANCE,
            PaddleSide::Right => ARENA_HALF_WIDTH - PADDLE_GOAL_DISTANCE,
        }
    }
}

/// The speed after one step of the ramp: `PADDLE_ACCELERATION` more while the
/// paddle is asked to move, as much less while it is not, and never outside
/// the range from `PADDLE_MIN_SPEED` to `PADDLE_MAX_SPEED`.
pub open spec fn ramped_speed(speed: int, direction: PaddleDirection) -> int {
    if direction == PaddleDirection::Still {
        if speed - PADDLE_ACCELERATION < PADDLE_MIN_SPEED {
            PADDLE_MIN_SPEED as int
        } else {
            speed - PADDLE_ACCELERATION
        }
    } else {
        if speed + PADDLE_ACCELERATION > PADDLE_MAX_SPEED {
            PADDLE_MAX_SPEED as int
        } else {
            speed + PADDLE_ACCELERATION
        }
    }
}

/// The position nearest to `y` at which a paddle lies within the arena.
pub open spec fn clamped_y(y: int) -> int {
    if y + PADDLE_HEIGHT_HALF > ARENA_HALF_HEIGHT {
        ARENA_HALF_HEIGHT - PADDLE_HEIGHT_HALF
    } else if y - PADDLE_HEIGHT_HALF < -ARENA_HALF_HEIGHT {
        -ARENA_HALF_HEIGHT + PADDLE_HEIGHT_HALF
    } else {
        y
    }
}

impl Paddle {
    /// The speed is within its range and the position within
    /// `POSITION_LIMIT`.
    pub open spec fn wf(self) -> bool {
        &&& PADDLE_MIN_SPEED <= self.speed <= PADDLE_MAX_SPEED
        &&& -POSITION_LIMIT <= self.y <= POSITION_LIMIT
    }

    /// The paddle's box lies within the arena's top and bottom bounds.
    pub open spec fn in_arena(self) -> bool {
        &&& self.y + PADDLE_HEIGHT_HALF <= ARENA_HALF_HEIGHT
        &&& self.y - PADDLE_HEIGHT_HALF >= -ARENA_HALF_HEIGHT
    }

    /// The box that the paddle fills.
    pub open spec fn rect(self) -> Rect {
        Rect {
            x: self.side.paddle_x() as i64,
            y: self.y,
            half_width: PADDLE_WIDTH_HALF,
            half_height: PADDLE_HEIGHT_HALF,
        }
    }

    /// Where the paddle stands after moving for `dt_micros` without regard
    /// to the walls.
    pub open spec fn moved_y(self, dt_micros: int) -> int {
        self.y + self.direction.sign() * self.speed * dt_micros
    }

    /// A paddle at rest in the middle of its side, as at the start of a game.
    pub fn new(side: PaddleSide) -> (paddle: Paddle)
        ensures
            paddle == (Paddle {
                side,
                y: 0,
                speed: PADDLE_MIN_SPEED,
                direction: PaddleDirection::Still,
            }),
            paddle.wf(),
            paddle.in_arena(),
    {
        Paddle { side, y: 0, speed: PADDLE_MIN_SPEED, direction: PaddleDirection::Still }
    }

    /// Horizontal position of the paddle's centre.
    pub fn x(&self) -> (x: i64)
        ensures
            x == self.side.paddle_x(),
    {
        match self.side {
            PaddleSide::Left => -ARENA_HALF_WIDTH + PADDLE_GOAL_DISTANCE,
            PaddleSide::Right => ARENA_HALF_WIDTH - PADDLE_GOAL_DISTANCE,
        }
    }

    /// The box that the paddle fills.
    pub fn bounding_box(&self) -> (rect: Rect)
        requires
            self.wf(),
        ensures
            rect == self.rect(),
            rect.wf(),
    {
        Rect {
            x: self.x(),
            y: self.y,
            half_width: PADDLE_WIDTH_HALF,
            half_height: PADDLE_HEIGHT_HALF,
        }
    }

    /// Takes the direction from the paddle's two keys.
    pub fn handle_direction(&mut self, up_held: bool, down_held: bool)
        ensures
            *final(self) == (Paddle {
                direction: PaddleDirection::of_keys(up_held, down_held),
                ..*old(self)
            }),
    {
        self.direction = PaddleDirection::from_keys(up_held, down_held);
    }

    /// Takes one step of the speed ramp.
    pub fn handle_speed(&mut self)
        requires
            old(self).wf(),
        ensures
            *final(self) == (Paddle {
                speed: ramped_speed(old(self).speed as int, old(self).direction) as i64,
                ..*old(self)
            }),
            final(self).wf(),
    {
        if self.direction == PaddleDirection::Still {
            let slower: i64 = self.speed - PADDLE_ACCELERATION;
            self.speed = if slower < PADDLE_MIN_SPEED {
                PADDLE_MIN_SPEED
            } else {
                slower
            };
        } else {
            let faster: i64 = self.speed + PADDLE_ACCELERATION;
            self.speed = if faster > PADDLE_MAX_SPEED {
                PADDLE_MAX_SPEED
            } else {
                faster
            };
        }
    }

    /// Moves the paddle for `dt_micros` in its direction at its speed. The
    /// paddle starts within the arena, where `handle_collision` leaves it,
    /// and may end beyond a wall.
    pub fn advance(&mut self, dt_micros: u32)
        requires
            old(self).wf(),
            old(self).in_arena(),
        ensures
            *final(self) == (Paddle {
                y: old(self).moved_y(dt_micros as int) as i64,
                ..*old(self)
            }),
            final(self).y == old(self).moved_y(dt_micros as int),
            final(self).wf(),
    {
        let dt: i64 = dt_micros as i64;
        assert(0 <= self.speed * dt <= 800 * 0xffff_ffff) by (nonlinear_arith)
            requires
                0 <= self.speed <= 800,
                0 <= dt <= 0xffff_ffff,
        ;
        let distance: i64 = self.speed * dt;
        match self.direction {
            PaddleDirection::Up => {
                assert(self.direction.sign() * self.speed * dt_micros == distance)
                    by (nonlinear_arith)
                    requires
                        self.direction.sign() == 1,
                        distance == self.speed * dt,
                        dt == dt_micros,
                ;
                self.y = self.y + distance;
            },
            PaddleDirection::Down => {
                assert(self.direction.sign() * self.speed * dt_micros == -distance)
                    by (nonlinear_arith)
                    requires
                        self.direction.sign() == -1,
                        distance == self.speed * dt,
                        dt == dt_micros,
                ;
                self.y = self.y - distance;
            },
            PaddleDirection::Still => {
                assert(self.direction.sign() * self.speed * dt_micros == 0) by (nonlinear_arith)
                    requires
                        self.direction.sign() == 0,
                ;
            },
        }
    }

    /// Stops the paddle at the walls: a paddle whose top edge lies beyond the
    /// arena's top bound is put with that edge on the bound, and likewise at
    /// the bottom.
    pub fn handle_collision(&mut self)
        requires
            old(self).wf(),
        ensures
            *final(self) == (Paddle { y: clamped_y(old(self).y as int) as i64, ..*old(self) }),
            final(self).y == clamped_y(old(self).y as int),
            final(self).wf(),
            final(self).in_arena(),
    {
        let top: i64 = self.y + PADDLE_HEIGHT_HALF;
        let bottom: i64 = self.y - PADDLE_HEIGHT_HALF;
        if top > ARENA_HALF_HEIGHT {
            self.y = ARENA_HALF_HEIGHT - PADDLE_HEIGHT_HALF;
        } else if bottom < -ARENA_HALF_HEIGHT {
            self.y = -ARENA_HALF_HEIGHT + PADDLE_HEIGHT_HALF;
        }
    }
}

/// The two paddles as a game starts: left and right, each at rest in the
/// middle of its side.
pub fn spawn_paddles() -> (paddles: (Paddle, Paddle))
    ensures
        paddles.0 == (Paddle {
            side: PaddleSide::Left,
            y: 0,
            speed: PADDLE_MIN_SPEED,
            direction: PaddleDirection::Still,
        }),
        paddles.1 == (Paddle {
            side: PaddleSide::Right,
            y: 0,
            speed: PADDLE_MIN_SPEED,
            direction: PaddleDirection::Still,
        }),
{
    (Paddle::new(PaddleSide::Left), Paddle::new(PaddleSide::Right))
}

/// Counts a frame on the speed timer and, if the timer fired, takes both
/// paddles one step along the speed ramp: one step for a frame, however many
/// intervals the frame spans.
pub fn handle_paddle_speed(
    timer: &mut PaddleSpeedTimer,
    left: &mut Paddle,
    right: &mut Paddle,
    dt_micros: u32,
) -> (fired: bool)
    requires
        old(timer).wf(),
        old(left).wf(),
        old(right).wf(),
    ensures
        final(timer).wf(),
        final(left).wf(),
        final(right).wf(),
        fired == (old(timer).elapsed() + dt_micros * 1000 >= PaddleSpeedTimer::interval()),
        final(timer).elapsed() == (old(timer).elapsed() + dt_micros * 1000) % (
        PaddleSpeedTimer::interval() as int),
        *final(left) == if fired {
            Paddle {
                speed: ramped_speed(old(left).speed as int, old(left).direction) as i64,
                ..*old(left)
            }
        } else {
            *old(left)
        },
        *final(right) == if fired {
            Paddle {
                speed: ramped_speed(old(right).speed as int, old(right).direction) as i64,
                ..*old(right)
            }
        } else {
            *old(right)
        },
{
    let fired = timer.tick(dt_micros);
    if fired {
        left.handle_speed();
        right.handle_speed();
    }
    fired
}

/// However a paddle has moved, `handle_collision` leaves its box within the
/// arena's top and bottom bounds, and leaves a paddle that is within them
/// where it is.
pub proof fn lemma_clamp_keeps_paddle_in_arena(y: int)
    ensures
        clamped_y(y) + PADDLE_HEIGHT_HALF <= ARENA_HALF_HEIGHT,
        clamped_y(y) - PADDLE_HEIGHT_HALF >= -ARENA_HALF_HEIGHT,
        (y + PADDLE_HEIGHT_HALF <= ARENA_HALF_HEIGHT && y - PADDLE_HEIGHT_HALF
            >= -ARENA_HALF_HEIGHT) ==> clamped_y(y) == y,
{
}

} // verus!
