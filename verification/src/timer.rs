//! A poll timer that fires at most once per interval and corrects for drift.
//!
//! Time is measured in nanoseconds on a monotonic clock that starts when the
//! timer is built. Every operation that looks at the clock has a twin that
//! takes the reading as an argument, so that the schedule itself is an ordinary
//! function of numbers.

use std::time::Instant;
use vstd::prelude::*;

verus! {

/// The schedule of a [`Timer`]: everything that decides when it fires.
pub struct TimerView {
    /// Clock reading, in nanoseconds, from which the running interval is measured.
    pub last: nat,
    /// Length of the interval in nanoseconds.
    pub interval: nat,
    /// Whether the next tick fires unconditionally.
    pub armed: bool,
}

impl TimerView {
    /// The schedule of a timer that was just built.
    pub open spec fn fresh(interval: nat) -> TimerView {
        TimerView { last: 0, interval, armed: true }
    }

    /// Time that has passed at `now` since the interval began; zero if the
    /// reading lies before that instant.
    pub open spec fn elapsed(self, now: nat) -> nat {
        if now >= self.last {
            (now - self.last) as nat
        } else {
            0
        }
    }

    /// Whether a tick at `now` fires.
    pub open spec fn due(self, now: nat) -> bool {
        self.armed || self.elapsed(now) >= self.interval
    }

    /// The schedule after a tick at `now`.
    ///
    /// An armed timer starts its interval at `now`. A running timer that fires
    /// late by `elapsed - interval` starts the next interval that much before
    /// `now`, so the lateness is not carried into later intervals. A timer that
    /// does not fire is left alone.
    pub open spec fn tick(self, now: nat) -> TimerView {
        if self.armed {
            TimerView { last: now, armed: false, ..self }
        } else if self.elapsed(now) >= self.interval {
            TimerView { last: (now - (self.elapsed(now) - self.interval)) as nat, ..self }
        } else {
            self
        }
    }

    /// The schedule after a reset at `now`.
    pub open spec fn reset(self, now: nat) -> TimerView {
        TimerView { last: now, armed: true, ..self }
    }

    /// The schedule after one tick at each of `readings`, in turn.
    pub open spec fn tick_each(self, readings: Seq<nat>) -> TimerView
        decreases readings.len(),
    {
        if readings.len() == 0 {
            self
        } else {
            self.tick_each(readings.drop_last()).tick(readings.last())
        }
    }

    /// How many of the ticks at `readings` fire.
    pub open spec fn fired(self, readings: Seq<nat>) -> nat
        decreases readings.len(),
    {
        if readings.len() == 0 {
            0
        } else if self.tick_each(readings.drop_last()).due(readings.last()) {
            self.fired(readings.drop_last()) + 1
        } else {
            self.fired(readings.drop_last())
        }
    }
}

/// A timer that was just built fires on its first tick, whatever its interval
/// and whatever the clock reads, and its interval then runs from that reading.
pub proof fn lemma_first_tick_fires(interval: nat, now: nat)
    ensures
        TimerView::fresh(interval).due(now),
        TimerView::fresh(interval).tick(now) == (TimerView { last: now, interval, armed: false }),
{
}

/// An armed timer with a positive interval fires exactly once while the clock
/// stands still: the first tick fires, and no further tick at the same reading
/// fires or changes anything.
pub proof fn lemma_fires_once_per_instant(timer: TimerView, now: nat)
    requires
        timer.armed,
        timer.interval > 0,
    ensures
        timer.due(now),
        !timer.tick(now).due(now),
        timer.tick(now).tick(now) == timer.tick(now),
{
}

/// With an interval of zero every tick fires.
pub proof fn lemma_zero_interval_always_fires(timer: TimerView, now: nat)
    requires
        timer.interval == 0,
    ensures
        timer.due(now),
        timer.tick(now).interval == 0,
{
}

/// A reset arms the timer again: the next tick fires whatever the clock reads,
/// before or after the reset, and the interval is kept.
pub proof fn lemma_reset_rearms(timer: TimerView, at: nat, now: nat)
    ensures
        timer.reset(at).due(now),
        timer.reset(at).tick(now) == (TimerView {
            last: now,
            interval: timer.interval,
            armed: false,
        }),
{
}

/// A running timer fires exactly when at least one interval has passed since
/// the interval began, and a tick that does not fire changes nothing.
pub proof fn lemma_due_iff_interval_elapsed(timer: TimerView, elapsed: nat)
    requires
        !timer.armed,
    ensures
        timer.due(timer.last + elapsed) <==> elapsed >= timer.interval,
        elapsed < timer.interval ==> timer.tick(timer.last + elapsed) == timer,
{
}

/// A tick that fires late keeps the phase. If it comes `overshoot` after the
/// interval ran out, the next interval is measured from `overshoot` before the
/// tick, which is one interval after the previous one began, and not from the
/// tick itself: at a later reading the timer fires again exactly if one
/// interval has passed since that instant.
pub proof fn lemma_late_tick_keeps_phase(timer: TimerView, overshoot: nat, later: nat)
    requires
        !timer.armed,
        later >= timer.last + timer.interval + overshoot,
    ensures
        ({
            let fired_at: nat = timer.last + timer.interval + overshoot;
            let after = timer.tick(fired_at);
            &&& timer.due(fired_at)
            &&& !after.armed
            &&& after.interval == timer.interval
            &&& after.last == fired_at - overshoot
            &&& after.last == timer.last + timer.interval
            &&& after.due(later) <==> later - (fired_at - overshoot) >= timer.interval
        }),
{
}

/// A running timer does not drift. However late or often it is ticked, each
/// interval begins a whole number of intervals after the first: one for every
/// tick that fired. (With an interval of zero this is said of readings that do
/// not lie before the beginning.)
pub proof fn lemma_running_timer_does_not_drift(timer: TimerView, readings: Seq<nat>)
    requires
        !timer.armed,
        timer.interval > 0 || forall|i: int| 0 <= i < readings.len() ==> readings[i] >= timer.last,
    ensures
        !timer.tick_each(readings).armed,
        timer.tick_each(readings).interval == timer.interval,
        timer.tick_each(readings).last == timer.last + timer.fired(readings) * timer.interval,
    decreases readings.len(),
{
    if readings.len() == 0 {
        assert(0 * timer.interval == 0) by (nonlinear_arith);
    } else {
        let earlier = readings.drop_last();
        lemma_running_timer_does_not_drift(timer, earlier);
        let fires: nat = timer.fired(earlier);
        assert((fires + 1) * timer.interval == fires * timer.interval + timer.interval)
            by (nonlinear_arith);
        assert(timer.interval == 0 ==> fires * timer.interval == 0) by (nonlinear_arith);
    }
}

/// `std::time::Instant`, a reading of the monotonic clock. The verifier sees
/// nothing inside it.
#[verifier::external_type_specification]
#[verifier::external_body]
pub struct ExInstant(Instant);

/// `Instant::now` reads the monotonic clock. Nothing is claimed of the reading.
pub assume_specification[ Instant::now ]() -> (instant: Instant);

/// `Instant::saturating_duration_since` measures the time from `earlier` to
/// the instant, and gives zero if `earlier` is the later one. Nothing is
/// claimed of the measurement.
pub assume_specification[ Instant::saturating_duration_since ](
    instant: &Instant,
    earlier: Instant,
) -> (elapsed: core::time::Duration);

/// `Duration::as_nanos` gives the length of a duration in whole nanoseconds.
/// Nothing is claimed of the number.
pub assume_specification[ core::time::Duration::as_nanos ](
    duration: &core::time::Duration,
) -> (nanos: u128);

/// Fires at most once in the given time interval.
///
/// The timer fires less often than that if the time between calls to
/// [`Timer::tick`] is longer than the interval.
#[derive(Clone, Copy, Debug)]
pub struct Timer {
    origin: Instant,
    time_of_last_execution: u128,
    interval: u128,
    is_first_execution: bool,
}

impl View for Timer {
    type V = TimerView;

    closed spec fn view(&self) -> TimerView {
        TimerView {
            last: self.time_of_last_execution as nat,
            interval: self.interval as nat,
            armed: self.is_first_execution,
        }
    }
}

impl Timer {
    /// Builds a timer with the given interval in nanoseconds. Its clock starts
    /// now, and its first tick fires.
    pub fn new(interval: u128) -> (timer: Timer)
        ensures
            timer@ == TimerView::fresh(interval as nat),
    {
        Timer {
            origin: Instant::now(),
            time_of_last_execution: 0,
            interval,
            is_first_execution: true,
        }
    }

    /// Builds a timer with the given interval in nanoseconds that runs on the
    /// clock of this one. Its first tick fires.
    pub fn with_interval(&self, interval: u128) -> (timer: Timer)
        ensures
            timer@ == TimerView::fresh(interval as nat),
    {
        Timer {
            origin: self.origin,
            time_of_last_execution: 0,
            interval,
            is_first_execution: true,
        }
    }

    /// Reads the timer's clock, in nanoseconds.
    pub(crate) fn now(&self) -> (now: u128) {
        let reading = Instant::now();
        let elapsed = reading.saturating_duration_since(self.origin);
        elapsed.as_nanos()
    }

    /// Length of the interval in nanoseconds.
    pub fn interval(&self) -> (interval: u128)
        ensures
            interval == self@.interval,
    {
        self.interval
    }

    /// Clock reading from which the running interval is measured.
    pub fn time_of_last_execution(&self) -> (last: u128)
        ensures
            last == self@.last,
    {
        self.time_of_last_execution
    }

    /// Whether the next tick fires unconditionally.
    pub fn is_first_execution(&self) -> (armed: bool)
        ensures
            armed == self@.armed,
    {
        self.is_first_execution
    }

    /// Resets the timer as of the clock reading `now`: the next tick fires.
    pub fn reset_at(&mut self, now: u128)
        ensures
            final(self)@ == old(self)@.reset(now as nat),
    {
        self.is_first_execution = true;
        self.time_of_last_execution = now;
    }

    /// Resets the timer: the next tick fires, whatever the clock says.
    pub fn reset(&mut self)
        ensures
            exists|now: nat| final(self)@ == #[trigger] old(self)@.reset(now),
    {
        let now: u128 = self.now();
        self.reset_at(now);
    }

    /// Ticks the timer as of the clock reading `now` and tells whether it fired.
    pub fn tick_at(&mut self, now: u128) -> (due: bool)
        ensures
            due == old(self)@.due(now as nat),
            final(self)@ == old(self)@.tick(now as nat),
    {
        if self.is_first_execution {
            self.time_of_last_execution = now;
            self.is_first_execution = false;
            true
        } else {
            let elapsed: u128 = if now >= self.time_of_last_execution {
                now - self.time_of_last_execution
            } else {
                0
            };
            if elapsed >= self.interval {
                self.time_of_last_execution = now - (elapsed - self.interval);
                true
            } else {
                false
            }
        }
    }

    /// Ticks the timer and tells whether it fired. It is recommended to call
    /// [`Timer::reset`] right before the first tick of a loop.
    pub fn tick(&mut self) -> (due: bool)
        ensures
            exists|now: nat|
                due == old(self)@.due(now) && final(self)@ == #[trigger] old(self)@.tick(now),
    {
        let now: u128 = self.now();
        self.tick_at(now)
    }
}

} // verus!
