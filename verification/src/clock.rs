//! The contracts under which this library uses `bevy::time::Timer`.
//!
//! Nothing in this file is proved. Each function states what the source of
//! the timer shows of one of its methods, over the names declared here for
//! what a timer holds. Times are whole nanoseconds in the contracts and whole
//! microseconds in the arguments.

use vstd::prelude::*;

verus! {

/// `bevy::time::Timer`, of which the library sees nothing but what the
/// names below say.
#[verifier::external_type_specification]
#[verifier::external_body]
pub struct ExTimer(bevy::time::Timer);

/// Nanoseconds that the timer has counted.
pub uninterp spec fn elapsed_nanos(t: bevy::time::Timer) -> nat;

/// Nanoseconds after which the timer finishes.
pub uninterp spec fn duration_nanos(t: bevy::time::Timer) -> nat;

/// The timer starts over whenever it finishes.
pub uninterp spec fn is_repeating(t: bevy::time::Timer) -> bool;

/// The timer is paused: ticks leave the time it has counted as it is.
pub uninterp spec fn is_paused(t: bevy::time::Timer) -> bool;

/// The timer's `finished` flag.
pub uninterp spec fn is_finished(t: bevy::time::Timer) -> bool;

/// The timer finished during its latest tick.
pub uninterp spec fn has_just_finished(t: bevy::time::Timer) -> bool;

/// What `tick` leaves in a timer that held `before`, after `delta` more
/// nanoseconds. A paused timer keeps its time and a repeating one drops its
/// `finished` flag. A timer that runs once and has finished stays as it is.
/// Any other timer adds `delta`; on reaching its duration it finishes, and
/// then holds its duration if it runs once, the remainder if it repeats.
pub open spec fn ticked(
    before: bevy::time::Timer,
    delta: nat,
    after: bevy::time::Timer,
) -> bool {
    let total = elapsed_nanos(before) + delta;
    let due = duration_nanos(before);
    &&& duration_nanos(after) == due
    &&& is_repeating(after) == is_repeating(before)
    &&& is_paused(after) == is_paused(before)
    &&& if is_paused(before) {
        &&& elapsed_nanos(after) == elapsed_nanos(before)
        &&& is_finished(after) == (is_finished(before) && !is_repeating(before))
        &&& !has_just_finished(after)
    } else if !is_repeating(before) && is_finished(before) {
        &&& elapsed_nanos(after) == elapsed_nanos(before)
        &&& is_finished(after)
        &&& !has_just_finished(after)
    } else {
        &&& is_finished(after) == (total >= due)
        &&& has_just_finished(after) == (total >= due)
        &&& elapsed_nanos(after) == if total < due {
            total
        } else if is_repeating(before) {
            total % due
        } else {
            due
        }
    }
}

/// `Timer::new` with `TimerMode::Once`: a running timer of the given
/// duration that has counted nothing and has not finished.
#[verifier::external_body]
pub(crate) fn timer_once(duration_micros: u64) -> (t: bevy::time::Timer)
    ensures
        elapsed_nanos(t) == 0,
        duration_nanos(t) == duration_micros * 1000,
        !is_repeating(t),
        !is_paused(t),
        !is_finished(t),
        !has_just_finished(t),
{
    bevy::time::Timer::new(
        std::time::Duration::from_micros(duration_micros),
        bevy::time::TimerMode::Once,
    )
}

/// `Timer::new` with `TimerMode::Repeating`: a running timer of the given
/// duration that has counted nothing and has not finished.
#[verifier::external_body]
pub(crate) fn timer_repeating(duration_micros: u64) -> (t: bevy::time::Timer)
    ensures
        elapsed_nanos(t) == 0,
        duration_nanos(t) == duration_micros * 1000,
        is_repeating(t),
        !is_paused(t),
        !is_finished(t),
        !has_just_finished(t),
{
    bevy::time::Timer::new(
        std::time::Duration::from_micros(duration_micros),
        bevy::time::TimerMode::Repeating,
    )
}

/// `Timer::tick`: see `ticked`. The timer divides by its duration when it
/// repeats and keeps the quotient in a `u32`, so the duration is not zero and
/// the quotient fits.
#[verifier::external_body]
pub(crate) fn timer_tick(t: &mut bevy::time::Timer, delta_micros: u32)
    requires
        duration_nanos(*old(t)) > 0,
        elapsed_nanos(*old(t)) + delta_micros * 1000 <= u64::MAX,
        (elapsed_nanos(*old(t)) + delta_micros * 1000) / (duration_nanos(*old(t)) as int)
            <= u32::MAX,
    ensures
        ticked(*old(t), (delta_micros * 1000) as nat, *final(t)),
{
    t.tick(std::time::Duration::from_micros(delta_micros.into()));
}

/// `Timer::just_finished`: whether the timer finished during its latest tick.
#[verifier::external_body]
pub(crate) fn timer_just_finished(t: &bevy::time::Timer) -> (b: bool)
    ensures
        b == has_just_finished(*t),
{
    t.just_finished()
}

/// `Timer::paused`: whether the timer is paused.
#[verifier::external_body]
pub(crate) fn timer_paused(t: &bevy::time::Timer) -> (b: bool)
    ensures
        b == is_paused(*t),
{
    t.paused()
}

/// `Timer::pause`: the timer is paused and nothing else changes.
#[verifier::external_body]
pub(crate) fn timer_pause(t: &mut bevy::time::Timer)
    ensures
        is_paused(*final(t)),
        elapsed_nanos(*final(t)) == elapsed_nanos(*old(t)),
        duration_nanos(*final(t)) == duration_nanos(*old(t)),
        is_repeating(*final(t)) == is_repeating(*old(t)),
        is_finished(*final(t)) == is_finished(*old(t)),
        has_just_finished(*final(t)) == has_just_finished(*old(t)),
{
    t.pause();
}

/// `Timer::unpause`: the timer runs and nothing else changes.
#[verifier::external_body]
pub(crate) fn timer_unpause(t: &mut bevy::time::Timer)
    ensures
        !is_paused(*final(t)),
        elapsed_nanos(*final(t)) == elapsed_nanos(*old(t)),
        duration_nanos(*final(t)) == duration_nanos(*old(t)),
        is_repeating(*final(t)) == is_repeating(*old(t)),
        is_finished(*final(t)) == is_finished(*old(t)),
        has_just_finished(*final(t)) == has_just_finished(*old(t)),
{
    t.unpause();
}

/// `Timer::reset`: the timer has counted nothing and has not finished; it
/// stays paused if it was, and keeps its duration and mode.
#[verifier::external_body]
pub(crate) fn timer_reset(t: &mut bevy::time::Timer)
    ensures
        elapsed_nanos(*final(t)) == 0,
        !is_finished(*final(t)),
        !has_just_finished(*final(t)),
        is_paused(*final(t)) == is_paused(*old(t)),
        duration_nanos(*final(t)) == duration_nanos(*old(t)),
        is_repeating(*final(t)) == is_repeating(*old(t)),
{
    t.reset();
}

} // verus!
