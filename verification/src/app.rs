//! The state of the dashboard and the actions that change it.

use crate::timer::Timer;
use crate::timer::TimerView;
use crate::tui::Action;
use vstd::prelude::*;

verus! {

/// Delay between polls, in milliseconds, that the dashboard starts with.
pub const DEFAULT_DELAY: u64 = 500;

/// Longest delay between polls, in milliseconds.
pub const MAX_DELAY: u64 = 10000;

/// Amount, in milliseconds, by which one key press changes the delay.
pub const DELAY_STEP: u64 = 100;

/// Nanoseconds in a millisecond.
pub const NANOS_PER_MILLI: u128 = 1000000;

/// The delay after one step up: longer by a step, but never beyond the maximum.
pub open spec fn increased(delay: nat) -> nat {
    if delay + DELAY_STEP <= MAX_DELAY {
        delay + DELAY_STEP as nat
    } else {
        MAX_DELAY as nat
    }
}

/// The delay after one step down: shorter by a step, but never below zero.
pub open spec fn decreased(delay: nat) -> nat {
    if delay >= DELAY_STEP {
        (delay - DELAY_STEP) as nat
    } else {
        0
    }
}

/// The state of the dashboard as a value: the exit flag, the latest snapshot
/// of the tracked object, the delay between polls in milliseconds, and the
/// schedule of the poll timer.
pub struct AppView<S> {
    pub exit: bool,
    pub current_data: S,
    pub delay: nat,
    pub timer: TimerView,
}

impl<S> AppView<S> {
    /// The delay is within bounds, and the timer runs at that delay.
    pub open spec fn wf(self) -> bool {
        &&& self.delay <= MAX_DELAY
        &&& self.timer.interval == self.delay * NANOS_PER_MILLI
    }

    /// The state that the dashboard starts in.
    pub open spec fn fresh(initial: S) -> AppView<S> {
        AppView {
            exit: false,
            current_data: initial,
            delay: DEFAULT_DELAY as nat,
            timer: TimerView::fresh(DEFAULT_DELAY as nat * NANOS_PER_MILLI as nat),
        }
    }

    /// The state after the poll timer was ticked at `now`.
    pub open spec fn tick(self, now: nat) -> AppView<S> {
        AppView { timer: self.timer.tick(now), ..self }
    }

    /// The state after the delay was set at `now`: the old timer is dropped
    /// for a new one with that delay, reset at `now`, so that the next tick
    /// fires without waiting out either delay.
    pub open spec fn paced(self, delay: nat, now: nat) -> AppView<S> {
        AppView {
            delay,
            timer: TimerView::fresh(delay * NANOS_PER_MILLI as nat).reset(now),
            ..self
        }
    }

    /// The state after `action` was applied at `now`. A poll on request leaves
    /// the state alone, the timer included: its outcome arrives separately.
    pub open spec fn apply(self, action: Action, now: nat) -> AppView<S> {
        match action {
            Action::PingRESTAPI => self,
            Action::IncreaseDelayTime => self.paced(increased(self.delay), now),
            Action::DecreaseDelayTime => self.paced(decreased(self.delay), now),
            Action::Exit => AppView { exit: true, ..self },
            Action::Error => self,
        }
    }

    /// The state after a poll came back: a snapshot replaces the previous one
    /// as a whole, a failure leaves everything as it was.
    pub open spec fn update(self, fetched: Option<S>) -> AppView<S> {
        match fetched {
            Some(snapshot) => AppView { current_data: snapshot, ..self },
            None => self,
        }
    }

    /// The state after `action` was applied once at each of `readings`, in turn.
    pub open spec fn apply_each(self, action: Action, readings: Seq<nat>) -> AppView<S>
        decreases readings.len(),
    {
        if readings.len() == 0 {
            self
        } else {
            self.apply_each(action, readings.drop_last()).apply(action, readings.last())
        }
    }
}

/// The dashboard starts in a well-formed state.
pub proof fn lemma_fresh_is_wf<S>(initial: S)
    ensures
        AppView::fresh(initial).wf(),
{
}

/// Nothing that happens to the state breaks it: after a tick, an action or
/// the outcome of a poll the delay is still within bounds, and the timer
/// still runs at it.
pub proof fn lemma_wf_is_kept<S>(app: AppView<S>, action: Action, fetched: Option<S>, now: nat)
    requires
        app.wf(),
    ensures
        app.tick(now).wf(),
        app.apply(action, now).wf(),
        app.update(fetched).wf(),
{
}

/// A change of the delay takes effect at once: the new timer runs at the new
/// delay, and its next tick fires whatever the clock reads by then.
pub proof fn lemma_new_delay_polls_at_once<S>(app: AppView<S>, action: Action, at: nat, now: nat)
    requires
        action == Action::IncreaseDelayTime || action == Action::DecreaseDelayTime,
    ensures
        app.apply(action, at).timer.interval == app.apply(action, at).delay * NANOS_PER_MILLI,
        app.apply(action, at).timer.due(now),
{
}

/// Stepping the delay down any number of times takes off one step each time
/// and stops at zero: the delay never turns negative, and once at zero it
/// stays there.
pub proof fn lemma_repeated_decrease<S>(app: AppView<S>, readings: Seq<nat>)
    ensures
        app.apply_each(Action::DecreaseDelayTime, readings).delay == if app.delay >= DELAY_STEP
            * readings.len() {
            app.delay - DELAY_STEP * readings.len()
        } else {
            0
        },
    decreases readings.len(),
{
    if readings.len() > 0 {
        lemma_repeated_decrease(app, readings.drop_last());
    }
}

/// Stepping the delay up any number of times adds one step each time and
/// stops at the maximum: the delay never exceeds it, and once there it stays
/// there.
pub proof fn lemma_repeated_increase<S>(app: AppView<S>, readings: Seq<nat>)
    requires
        app.wf(),
    ensures
        app.apply_each(Action::IncreaseDelayTime, readings).delay == if app.delay + DELAY_STEP
            * readings.len() <= MAX_DELAY {
            app.delay + DELAY_STEP * readings.len()
        } else {
            MAX_DELAY as int
        },
    decreases readings.len(),
{
    if readings.len() > 0 {
        lemma_repeated_increase(app, readings.drop_last());
    }
}

/// A delay between polls together with the timer that runs at it.
#[derive(Clone, Copy, Debug)]
struct Pace {
    delay: u64,
    timer: Timer,
}

impl Pace {
    #[verifier::type_invariant]
    spec fn inv(self) -> bool {
        &&& self.delay <= MAX_DELAY
        &&& self.timer@.interval == self.delay * NANOS_PER_MILLI
    }

    /// The default delay and a new timer that runs at it.
    fn new() -> (pace: Pace)
        ensures
            pace.delay == DEFAULT_DELAY,
            pace.timer@ == TimerView::fresh(DEFAULT_DELAY as nat * NANOS_PER_MILLI as nat),
    {
        Pace { delay: DEFAULT_DELAY, timer: Timer::new(DEFAULT_DELAY as u128 * NANOS_PER_MILLI) }
    }

    /// The given delay and, on the same clock, a new timer that runs at it and
    /// was reset at `now`.
    fn paced(self, delay: u64, now: u128) -> (pace: Pace)
        requires
            delay <= MAX_DELAY,
        ensures
            pace.delay == delay,
            pace.timer@ == TimerView::fresh(delay as nat * NANOS_PER_MILLI as nat).reset(
                now as nat,
            ),
    {
        let mut timer = self.timer.with_interval(delay as u128 * NANOS_PER_MILLI);
        timer.reset_at(now);
        Pace { delay, timer }
    }

    /// The same delay with the timer ticked at `now`, and whether it fired.
    fn ticked(self, now: u128) -> (result: (Pace, bool))
        ensures
            result.0.delay == self.delay,
            result.0.timer@ == self.timer@.tick(now as nat),
            result.1 == self.timer@.due(now as nat),
    {
        proof {
            use_type_invariant(self);
        }
        let mut timer = self.timer;
        let due = timer.tick_at(now);
        (Pace { delay: self.delay, timer }, due)
    }
}

/// The state of the dashboard, with snapshots of type `S`.
///
/// Every operation that looks at the clock has a twin that takes the reading
/// as an argument, as those of [`Timer`] do.
#[derive(Debug)]
pub struct App<S> {
    exit: bool,
    current_data: S,
    pace: Pace,
}

impl<S> View for App<S> {
    type V = AppView<S>;

    closed spec fn view(&self) -> AppView<S> {
        AppView {
            exit: self.exit,
            current_data: self.current_data,
            delay: self.pace.delay as nat,
            timer: self.pace.timer@,
        }
    }
}

impl<S> App<S> {
    /// The dashboard before anything happened: `initial` stands in for the
    /// first snapshot, the delay is the default, and the first tick polls.
    pub fn new(initial: S) -> (app: App<S>)
        ensures
            app@ == AppView::fresh(initial),
            app@.wf(),
    {
        App { exit: false, current_data: initial, pace: Pace::new() }
    }

    /// Whether the program is to end.
    pub fn exit(&self) -> (exit: bool)
        ensures
            exit == self@.exit,
    {
        self.exit
    }

    /// The latest snapshot.
    pub fn current_data(&self) -> (data: &S)
        ensures
            *data == self@.current_data,
    {
        &self.current_data
    }

    /// The delay between polls in milliseconds.
    pub fn delay(&self) -> (delay: u64)
        ensures
            delay == self@.delay,
            self@.wf(),
    {
        proof {
            use_type_invariant(self.pace);
        }
        self.pace.delay
    }

    /// The poll timer.
    pub fn timer(&self) -> (timer: &Timer)
        ensures
            timer@ == self@.timer,
            self@.wf(),
    {
        proof {
            use_type_invariant(self.pace);
        }
        &self.pace.timer
    }

    /// Reads the clock of the poll timer, in nanoseconds.
    pub(crate) fn now(&self) -> (now: u128) {
        self.pace.timer.now()
    }

    /// Ticks the poll timer as of the clock reading `now` and tells whether a
    /// poll is due. The caller polls if so and reports the outcome with
    /// [`App::update`].
    pub fn apply_tick_at(&mut self, now: u128) -> (due: bool)
        ensures
            due == old(self)@.timer.due(now as nat),
            final(self)@ == old(self)@.tick(now as nat),
            final(self)@.wf(),
    {
        let (pace, due) = self.pace.ticked(now);
        self.pace = pace;
        proof {
            use_type_invariant(pace);
        }
        due
    }

    /// Ticks the poll timer and tells whether a poll is due. The caller polls
    /// if so and reports the outcome with [`App::update`].
    pub fn apply_tick(&mut self) -> (due: bool)
        ensures
            exists|now: nat|
                due == old(self)@.timer.due(now) && final(self)@ == #[trigger] old(self)@.tick(now),
            final(self)@.wf(),
    {
        let now: u128 = self.now();
        self.apply_tick_at(now)
    }

    /// Applies an action as of the clock reading `now` and tells whether it
    /// asks for a poll. The caller polls if so and reports the outcome with
    /// [`App::update`].
    ///
    /// A change of the delay drops the timer for a new one that was reset, so
    /// the next tick polls at once. A poll on request leaves the timer as it is.
    pub fn apply_at(&mut self, action: Action, now: u128) -> (poll: bool)
        ensures
            poll == (action == Action::PingRESTAPI),
            final(self)@ == old(self)@.apply(action, now as nat),
            final(self)@.wf(),
    {
        proof {
            use_type_invariant(self.pace);
        }
        match action {
            Action::PingRESTAPI => true,
            Action::IncreaseDelayTime => {
                let delay: u64 = if self.pace.delay <= MAX_DELAY - DELAY_STEP {
                    self.pace.delay + DELAY_STEP
                } else {
                    MAX_DELAY
                };
                self.pace = self.pace.paced(delay, now);
                false
            },
            Action::DecreaseDelayTime => {
                let delay: u64 = if self.pace.delay >= DELAY_STEP {
                    self.pace.delay - DELAY_STEP
                } else {
                    0
                };
                self.pace = self.pace.paced(delay, now);
                false
            },
            Action::Exit => {
                self.exit = true;
                false
            },
            Action::Error => false,
        }
    }

    /// Applies an action and tells whether it asks for a poll. The caller
    /// polls if so and reports the outcome with [`App::update`].
    pub fn apply(&mut self, action: Action) -> (poll: bool)
        ensures
            poll == (action == Action::PingRESTAPI),
            exists|now: nat| final(self)@ == #[trigger] old(self)@.apply(action, now),
            final(self)@.wf(),
    {
        let now: u128 = self.now();
        self.apply_at(action, now)
    }

    /// Takes in the outcome of a poll: a snapshot replaces the previous one as
    /// a whole, a failure (`None`) changes nothing.
    pub fn update(&mut self, fetched: Option<S>)
        ensures
            final(self)@ == old(self)@.update(fetched),
            final(self)@.wf(),
    {
        proof {
            use_type_invariant(self.pace);
        }
        match fetched {
            Some(snapshot) => {
                self.current_data = snapshot;
            },
            None => {},
        }
    }
}

} // verus!
