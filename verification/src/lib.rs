//! The simulation core of a two-player Pong game: paddles, ball, collision
//! response, goals, score and the round and game state, advanced one frame at
//! a time.
//!
//! Everything is computed in whole numbers, so that a frame is a function of
//! the state, the held keys and the frame's duration, the same on every
//! machine:
//!
//! - lengths and positions are micro-units, a millionth of a unit of the
//!   play field (`geometry::UNIT`);
//! - durations are microseconds;
//! - speeds are units per second;
//! - the ball's heading is a whole angle in degrees, and its direction the
//!   cosine and sine of that angle in millionths (`trig`).
//!
//! The paddles ramp their speed: it grows while a paddle is asked to move
//! and shrinks while it is not. The ball is launched at a whole angle drawn
//! uniformly within 45 degrees of the line towards the left or the right
//! paddle, each side with equal chance.
//!
//! `game::Game::step` runs the stages of a frame in their fixed order. The
//! stages are public too, each with its own contract.
//!
//! The two timers are `bevy::time::Timer`s and the draws come from `rand`;
//! what the library takes for granted of them is stated in `clock` and
//! `chance`.

pub mod ball;
pub mod chance;
pub mod clock;
pub mod game;
pub mod geometry;
pub mod paddle;
pub mod score;
pub mod timers;
pub mod trig;
