//! The two timers of the game, each a `bevy::time::Timer` used in one fixed
//! way: the freeze timer that holds the ball still at the start of a rally,
//! and the repeating timer that paces the paddles' change of speed.

use vstd::prelude::*;
use bevy::time::Timer;
use crate::clock::{
    duration_nanos, elapsed_nanos, is_finished, is_paused, is_repeating, timer_just_finished,
    timer_once, timer_pause, timer_paused, timer_repeating, timer_reset, timer_tick,
    timer_unpause,
};

verus! {

/// How long the ball stays frozen once the freeze timer is armed (2 s).
pub const BALL_FREEZE_DURATION_MICROS: u64 = 2_000_000;

/// The interval at which the paddles change their speed (0.1 s).
pub const PADDLE_SPEED_INTERVAL_MICROS: u64 = 100_000;

/// Holds the ball still for `BALL_FREEZE_DURATION_MICROS` after it is armed.
/// While it runs the ball is frozen; when the time is up it stops and the
/// ball may move.
pub struct FreezeBallTimer(Timer);

/// Fires once every `PADDLE_SPEED_INTERVAL_MICROS`, however long the frames
/// are.
pub struct PaddleSpeedTimer(Timer);

impl FreezeBallTimer {
    /// The timer is running, so the ball is held still.
    pub closed spec fn frozen(&self) -> bool {
        !is_paused(self.0)
    }

    /// Nanoseconds counted since the timer was armed; 0 once it has stopped.
    pub closed spec fn elapsed(&self) -> nat {
        elapsed_nanos(self.0)
    }

    /// Nanoseconds for which the timer holds the ball.
    pub open spec fn duration() -> nat {
        (BALL_FREEZE_DURATION_MICROS * 1000) as nat
    }

    /// The timer runs once over the freeze duration, has not reached it, and
    /// has counted nothing when it is stopped.
    pub closed spec fn wf(&self) -> bool {
        &&& duration_nanos(self.0) == Self::duration()
        &&& !is_repeating(self.0)
        &&& !is_finished(self.0)
        &&& elapsed_nanos(self.0) < Self::duration()
        &&& is_paused(self.0) ==> elapsed_nanos(self.0) == 0
    }

    /// A timer that has just been armed.
    pub fn new() -> (timer: Self)
        ensures
            timer.wf(),
            timer.frozen(),
            timer.elapsed() == 0,
    {
        FreezeBallTimer(timer_once(BALL_FREEZE_DURATION_MICROS))
    }

    /// Whether the ball is held still.
    pub fn is_frozen(&self) -> (frozen: bool)
        ensures
            frozen == self.frozen(),
    {
        !timer_paused(&self.0)
    }

    /// Starts the freeze over: the timer runs again from zero.
    pub fn arm(&mut self)
        requires
            old(self).wf(),
        ensures
            final(self).wf(),
            final(self).frozen(),
            final(self).elapsed() == 0,
    {
        timer_reset(&mut self.0);
        timer_unpause(&mut self.0);
    }

    /// Counts `dt_micros` more while the timer runs. When the freeze duration
    /// is reached the timer stops, forgets what it counted and reports that
    /// it fired. A stopped timer stays as it is.
    pub fn tick(&mut self, dt_micros: u32) -> (fired: bool)
        requires
            old(self).wf(),
        ensures
            final(self).wf(),
            fired == (old(self).frozen() && old(self).elapsed() + dt_micros * 1000
                >= Self::duration()),
            final(self).frozen() == (old(self).frozen() && !fired),
            final(self).elapsed() == if old(self).frozen() && !fired {
                old(self).elapsed() + dt_micros * 1000
            } else {
                0
            },
    {
        if timer_paused(&self.0) {
            return false;
        }
        timer_tick(&mut self.0, dt_micros);
        if timer_just_finished(&self.0) {
            timer_pause(&mut self.0);
            timer_reset(&mut self.0);
            true
        } else {
            false
        }
    }
}

impl Default for FreezeBallTimer {
    fn default() -> (timer: Self)
        ensures
            timer.wf(),
            timer.frozen(),
            timer.elapsed() == 0,
    {
        FreezeBallTimer::new()
    }
}

impl PaddleSpeedTimer {
    /// Nanoseconds counted since the timer last fired.
    pub closed spec fn elapsed(&self) -> nat {
        elapsed_nanos(self.0)
    }

    /// Nanoseconds between two firings.
    pub open spec fn interval() -> nat {
        (PADDLE_SPEED_INTERVAL_MICROS * 1000) as nat
    }

    /// The timer repeats over the interval, runs, and has counted less than
    /// one interval.
    pub closed spec fn wf(&self) -> bool {
        &&& duration_nanos(self.0) == Self::interval()
        &&& is_repeating(self.0)
        &&& !is_paused(self.0)
        &&& elapsed_nanos(self.0) < Self::interval()
    }

    /// A timer at the start of an interval.
    pub fn new() -> (timer: Self)
        ensures
            timer.wf(),
            timer.elapsed() == 0,
    {
        PaddleSpeedTimer(timer_repeating(PADDLE_SPEED_INTERVAL_MICROS))
    }

    /// Counts `dt_micros` more and reports whether at least one interval
    /// ended in that time. What remains counts towards the next interval.
    pub fn tick(&mut self, dt_micros: u32) -> (fired: bool)
        requires
            old(self).wf(),
        ensures
            final(self).wf(),
            fired == (old(self).elapsed() + dt_micros * 1000 >= Self::interval()),
            final(self).elapsed() == (old(self).elapsed() + dt_micros * 1000) % (
            Self::interval() as int),
    {
        timer_tick(&mut self.0, dt_micros);
        timer_just_finished(&self.0)
    }
}

impl Default for PaddleSpeedTimer {
    fn default() -> (timer: Self)
        ensures
            timer.wf(),
            timer.elapsed() == 0,
    {
        PaddleSpeedTimer::new()
    }
}

} // verus!
