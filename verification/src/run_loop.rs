//! The loop of the dashboard, as a machine that the host program drives.
//!
//! One iteration ticks the poll timer and polls if it fired, waits for an
//! input event and applies the action it triggers, draws the screen, and ends
//! the loop if the exit flag is set. Polling, reading, drawing and the set-up
//! and restoring of the terminal are the host's work: the loop asks for one
//! [`Effect`] at a time, and the host answers with the [`Event`] that came of it.

use crate::app::App;
use crate::app::AppView;
use crate::tui::Action;
use crate::tui::InputEvent;
use crate::tui::Key;
use vstd::prelude::*;

verus! {

/// What the loop asks the host to do next.
#[derive(Clone, Copy, Debug, PartialEq, Eq, Structural)]
pub enum Effect {
    /// Put the terminal into the mode that the dashboard draws in.
    Init,
    /// Poll the position service once.
    Fetch,
    /// Wait for the next input event.
    ReadInput,
    /// Draw the current state.
    Render,
    /// Give the terminal back as it was found.
    Restore,
    /// Nothing: the loop has ended.
    Halt,
}

/// Where the loop stands: which answer it is waiting for.
#[derive(Clone, Copy, Debug, PartialEq, Eq, Structural)]
pub enum Phase {
    /// The terminal is being set up.
    Starting,
    /// A poll that the timer called for is under way.
    TimedFetch,
    /// The next input event is awaited.
    Input,
    /// A poll that the user asked for is under way.
    ManualFetch,
    /// The screen is being drawn.
    Render,
    /// The terminal is being given back.
    Restoring,
    /// The loop has ended.
    Finished,
}

/// Why the loop ended, if not by the user's wish.
#[derive(Clone, Copy, Debug, PartialEq, Eq, Structural)]
pub enum Failure {
    /// The terminal could not be set up.
    TerminalInit,
    /// Reading the input failed.
    InputRead,
    /// Drawing failed.
    Render,
    /// The terminal could not be given back.
    TerminalRestore,
}

/// What came of an effect.
#[derive(Debug)]
pub enum Event<S> {
    /// The terminal is set up.
    Started,
    /// The terminal could not be set up.
    InitFailed,
    /// The poll brought a snapshot.
    Fetched(S),
    /// The poll failed.
    FetchFailed,
    /// The input source delivered an event.
    Input(InputEvent),
    /// Reading the input failed.
    InputFailed,
    /// The screen was drawn.
    Rendered,
    /// Drawing failed.
    RenderFailed,
    /// The terminal was given back.
    Restored,
    /// The terminal could not be given back.
    RestoreFailed,
}

impl Phase {
    /// The effect that the loop waits for in this phase.
    pub open spec fn pending(self) -> Effect {
        match self {
            Phase::Starting => Effect::Init,
            Phase::TimedFetch => Effect::Fetch,
            Phase::Input => Effect::ReadInput,
            Phase::ManualFetch => Effect::Fetch,
            Phase::Render => Effect::Render,
            Phase::Restoring => Effect::Restore,
            Phase::Finished => Effect::Halt,
        }
    }

    /// Whether `event` is an outcome of the effect that the loop waits for in
    /// this phase.
    pub open spec fn answered_by<S>(self, event: Event<S>) -> bool {
        match self {
            Phase::Starting => event is Started || event is InitFailed,
            Phase::TimedFetch | Phase::ManualFetch => event is Fetched || event is FetchFailed,
            Phase::Input => event is Input || event is InputFailed,
            Phase::Render => event is Rendered || event is RenderFailed,
            Phase::Restoring => event is Restored || event is RestoreFailed,
            Phase::Finished => false,
        }
    }
}

/// The loop as a value: the state of the dashboard, the phase, and the
/// failure that ended the loop, if one did.
pub struct RunLoopView<S> {
    pub app: AppView<S>,
    pub phase: Phase,
    pub failure: Option<Failure>,
}

impl<S> RunLoopView<S> {
    /// The loop before the terminal is set up.
    pub open spec fn fresh(initial: S) -> RunLoopView<S> {
        RunLoopView { app: AppView::fresh(initial), phase: Phase::Starting, failure: None }
    }

    /// The start of an iteration at `now`: the poll timer is ticked, and the
    /// loop polls if it fired and goes on to the input if not.
    pub open spec fn iterate(self, now: nat) -> RunLoopView<S> {
        RunLoopView {
            app: self.app.tick(now),
            phase: if self.app.timer.due(now) {
                Phase::TimedFetch
            } else {
                Phase::Input
            },
            ..self
        }
    }

    /// The loop after a poll came back, on its way to `phase`.
    pub open spec fn polled(self, fetched: Option<S>, phase: Phase) -> RunLoopView<S> {
        RunLoopView { app: self.app.update(fetched), phase, ..self }
    }

    /// The loop after an input event arrived at `now`. A key press has its
    /// action applied; nothing else touches the state. The screen is drawn
    /// next, after the poll if the action asked for one.
    pub open spec fn input(self, event: InputEvent, now: nat) -> RunLoopView<S> {
        match Action::triggered_by(event) {
            Some(action) => RunLoopView {
                app: self.app.apply(action, now),
                phase: if action == Action::PingRESTAPI {
                    Phase::ManualFetch
                } else {
                    Phase::Render
                },
                ..self
            },
            None => RunLoopView { phase: Phase::Render, ..self },
        }
    }

    /// The loop on its way out because of `failure`, with the terminal still
    /// to be given back.
    pub open spec fn failed(self, failure: Failure) -> RunLoopView<S> {
        RunLoopView { phase: Phase::Restoring, failure: Some(failure), ..self }
    }

    /// The loop after `event` arrived at `now`.
    ///
    /// A failed poll is not fatal: the previous snapshot stays and the loop
    /// goes on. A failure to read input or to draw ends the loop, and so does
    /// the exit flag once the screen was drawn; either way the terminal is
    /// given back first. A failure to give it back is recorded only if no
    /// earlier failure was. An event that does not answer the pending effect
    /// changes nothing.
    pub open spec fn next(self, event: Event<S>, now: nat) -> RunLoopView<S> {
        match (self.phase, event) {
            (Phase::Starting, Event::Started) => self.iterate(now),
            (Phase::Starting, Event::InitFailed) => RunLoopView {
                phase: Phase::Finished,
                failure: Some(Failure::TerminalInit),
                ..self
            },
            (Phase::TimedFetch, Event::Fetched(snapshot)) => self.polled(
                Some(snapshot),
                Phase::Input,
            ),
            (Phase::TimedFetch, Event::FetchFailed) => self.polled(None, Phase::Input),
            (Phase::Input, Event::Input(input)) => self.input(input, now),
            (Phase::Input, Event::InputFailed) => self.failed(Failure::InputRead),
            (Phase::ManualFetch, Event::Fetched(snapshot)) => self.polled(
                Some(snapshot),
                Phase::Render,
            ),
            (Phase::ManualFetch, Event::FetchFailed) => self.polled(None, Phase::Render),
            (Phase::Render, Event::Rendered) => if self.app.exit {
                RunLoopView { phase: Phase::Restoring, ..self }
            } else {
                self.iterate(now)
            },
            (Phase::Render, Event::RenderFailed) => self.failed(Failure::Render),
            (Phase::Restoring, Event::Restored) => RunLoopView { phase: Phase::Finished, ..self },
            (Phase::Restoring, Event::RestoreFailed) => RunLoopView {
                phase: Phase::Finished,
                failure: if self.failure is Some {
                    self.failure
                } else {
                    Some(Failure::TerminalRestore)
                },
                ..self
            },
            _ => self,
        }
    }

    /// The loop after the events arrived in turn, each at its clock reading.
    pub open spec fn run(self, events: Seq<(Event<S>, nat)>) -> RunLoopView<S>
        decreases events.len(),
    {
        if events.len() == 0 {
            self
        } else {
            self.run(events.drop_last()).next(events.last().0, events.last().1)
        }
    }

    /// How often, while the events arrived, the loop turned to giving the
    /// terminal back.
    pub open spec fn restores(self, events: Seq<(Event<S>, nat)>) -> nat
        decreases events.len(),
    {
        if events.len() == 0 {
            0
        } else {
            let before = self.run(events.drop_last());
            let after = before.next(events.last().0, events.last().1);
            if before.phase != Phase::Restoring && after.phase == Phase::Restoring {
                self.restores(events.drop_last()) + 1
            } else {
                self.restores(events.drop_last())
            }
        }
    }

    /// What a run from the start keeps true of the loop and of the number of
    /// times it turned to giving the terminal back.
    spec fn on_course(self, restores: nat) -> bool {
        match self.phase {
            Phase::Restoring => {
                &&& restores == 1
                &&& self.failure != Some(Failure::TerminalInit)
                &&& self.failure != Some(Failure::TerminalRestore)
            },
            Phase::Finished => if self.failure == Some(Failure::TerminalInit) {
                restores == 0
            } else {
                restores == 1
            },
            _ => restores == 0 && self.failure is None,
        }
    }
}

/// An event that does not answer the pending effect changes nothing.
pub proof fn lemma_unanswered_changes_nothing<S>(run_loop: RunLoopView<S>, event: Event<S>, now: nat)
    requires
        !run_loop.phase.answered_by(event),
    ensures
        run_loop.next(event, now) == run_loop,
{
}

/// Once the loop has ended nothing changes any more, and all it asks for is
/// to halt.
pub proof fn lemma_finished_is_final<S>(run_loop: RunLoopView<S>, event: Event<S>, now: nat)
    requires
        run_loop.phase == Phase::Finished,
    ensures
        run_loop.next(event, now) == run_loop,
        run_loop.next(event, now).phase.pending() == Effect::Halt,
{
}

/// The steps of an iteration come in their order: the loop waits for the
/// input only after a poll that was due has come back, draws only after the
/// input was handled and a poll on request has come back, and starts the next
/// iteration or turns to leaving only after it has drawn. It ends only after
/// the terminal was given back, unless it never had the terminal.
pub proof fn lemma_steps_come_in_order<S>(run_loop: RunLoopView<S>, event: Event<S>, now: nat)
    requires
        run_loop.phase.answered_by(event),
    ensures
        ({
            let then = run_loop.next(event, now).phase;
            match run_loop.phase {
                Phase::Starting => then == Phase::TimedFetch || then == Phase::Input || then
                    == Phase::Finished,
                Phase::TimedFetch => then == Phase::Input,
                Phase::Input => then == Phase::ManualFetch || then == Phase::Render || then
                    == Phase::Restoring,
                Phase::ManualFetch => then == Phase::Render,
                Phase::Render => then == Phase::TimedFetch || then == Phase::Input || then
                    == Phase::Restoring,
                Phase::Restoring => then == Phase::Finished,
                Phase::Finished => false,
            }
        }),
{
}

/// No step of the loop breaks the state of the dashboard.
pub proof fn lemma_step_keeps_wf<S>(run_loop: RunLoopView<S>, event: Event<S>, now: nat)
    requires
        run_loop.app.wf(),
    ensures
        run_loop.next(event, now).app.wf(),
{
}

/// A snapshot is replaced as a whole or not at all: a poll that failed leaves
/// the whole state of the dashboard as it was, and a poll that brought a
/// snapshot changes the snapshot and nothing else.
pub proof fn lemma_snapshot_replaced_whole<S>(run_loop: RunLoopView<S>, snapshot: S, now: nat)
    ensures
        run_loop.next(Event::FetchFailed, now).app == run_loop.app,
        run_loop.next(Event::FetchFailed, now).failure == run_loop.failure,
        run_loop.phase == Phase::TimedFetch || run_loop.phase == Phase::ManualFetch
            ==> run_loop.next(Event::Fetched(snapshot), now).app == (AppView {
            current_data: snapshot,
            ..run_loop.app
        }),
{
}

/// Only key presses act: the release of a key, whichever it is, and every
/// other event leave the state of the dashboard as it was, and the screen is
/// drawn next.
pub proof fn lemma_only_presses_act<S>(run_loop: RunLoopView<S>, input: InputEvent, now: nat)
    requires
        run_loop.phase == Phase::Input,
        !(input is KeyPress),
    ensures
        run_loop.next(Event::Input(input), now).app == run_loop.app,
        run_loop.next(Event::Input(input), now).phase == Phase::Render,
{
}

/// A poll on request is made at once, whether the poll timer is due or not,
/// and leaves the timer's schedule as it was.
pub proof fn lemma_poll_on_request_keeps_schedule<S>(run_loop: RunLoopView<S>, now: nat)
    requires
        run_loop.phase == Phase::Input,
    ensures
        ({
            let asked = run_loop.next(Event::Input(InputEvent::KeyPress(Key::Enter)), now);
            &&& asked.phase.pending() == Effect::Fetch
            &&& asked.phase == Phase::ManualFetch
            &&& asked.app == run_loop.app
        }),
{
}

/// After the quit key the screen is drawn once more, then the terminal is
/// given back and the loop ends without a failure of its own.
pub proof fn lemma_quit_ends_loop<S>(
    run_loop: RunLoopView<S>,
    pressed_at: nat,
    drawn_at: nat,
    restored_at: nat,
)
    requires
        run_loop.phase == Phase::Input,
    ensures
        ({
            let quit = run_loop.next(
                Event::Input(InputEvent::KeyPress(Key::Char('q'))),
                pressed_at,
            );
            let drawn = quit.next(Event::Rendered, drawn_at);
            let restored = drawn.next(Event::Restored, restored_at);
            &&& quit.app.exit
            &&& quit.phase.pending() == Effect::Render
            &&& drawn.phase.pending() == Effect::Restore
            &&& restored.phase.pending() == Effect::Halt
            &&& restored.failure == run_loop.failure
            &&& restored.app == quit.app
        }),
{
}

/// The terminal is given back exactly once on every way out of a loop that
/// had it. However the events fall, a run from the start turns to giving the
/// terminal back at most once; it has done so exactly once when it is giving
/// it back or has ended after the terminal was set up, and never when the
/// terminal could not be set up in the first place. Until then no failure is
/// on record.
pub proof fn lemma_terminal_restored_once<S>(initial: S, events: Seq<(Event<S>, nat)>)
    ensures
        ({
            let end = RunLoopView::fresh(initial).run(events);
            let restores = RunLoopView::fresh(initial).restores(events);
            &&& restores <= 1
            &&& restores == 1 <==> end.phase == Phase::Restoring || (end.phase == Phase::Finished
                && end.failure != Some(Failure::TerminalInit))
            &&& end.failure is Some ==> end.phase == Phase::Restoring || end.phase
                == Phase::Finished
        }),
{
    lemma_run_stays_on_course(initial, events);
}

/// A run from the start stays on course.
proof fn lemma_run_stays_on_course<S>(initial: S, events: Seq<(Event<S>, nat)>)
    ensures
        RunLoopView::fresh(initial).run(events).on_course(
            RunLoopView::fresh(initial).restores(events),
        ),
    decreases events.len(),
{
    if events.len() > 0 {
        lemma_run_stays_on_course(initial, events.drop_last());
    }
}

/// The loop of the dashboard. It owns the state of the dashboard.
///
/// The loop looks at the clock when it steps; [`RunLoop::step_at`] takes the
/// reading as an argument instead.
#[derive(Debug)]
pub struct RunLoop<S> {
    app: App<S>,
    phase: Phase,
    failure: Option<Failure>,
}

impl<S> View for RunLoop<S> {
    type V = RunLoopView<S>;

    closed spec fn view(&self) -> RunLoopView<S> {
        RunLoopView { app: self.app@, phase: self.phase, failure: self.failure }
    }
}

impl<S> RunLoop<S> {
    /// A loop that has not started: `initial` stands in for the first
    /// snapshot, and the terminal is still to be set up.
    pub fn new(initial: S) -> (run_loop: RunLoop<S>)
        ensures
            run_loop@ == RunLoopView::fresh(initial),
    {
        RunLoop { app: App::new(initial), phase: Phase::Starting, failure: None }
    }

    /// The state of the dashboard, for drawing.
    pub fn app(&self) -> (app: &App<S>)
        ensures
            app@ == self@.app,
    {
        &self.app
    }

    /// Where the loop stands.
    pub fn phase(&self) -> (phase: Phase)
        ensures
            phase == self@.phase,
    {
        self.phase
    }

    /// The failure that ended the loop, if one did.
    pub fn failure(&self) -> (failure: Option<Failure>)
        ensures
            failure == self@.failure,
    {
        self.failure
    }

    /// The effect that the loop is waiting for.
    pub fn pending(&self) -> (effect: Effect)
        ensures
            effect == self@.phase.pending(),
    {
        match self.phase {
            Phase::Starting => Effect::Init,
            Phase::TimedFetch => Effect::Fetch,
            Phase::Input => Effect::ReadInput,
            Phase::ManualFetch => Effect::Fetch,
            Phase::Render => Effect::Render,
            Phase::Restoring => Effect::Restore,
            Phase::Finished => Effect::Halt,
        }
    }

    /// Starts an iteration at `now`: ticks the poll timer and polls if it fired.
    fn iterate(&mut self, now: u128)
        ensures
            final(self)@ == old(self)@.iterate(now as nat),
    {
        let due = self.app.apply_tick_at(now);
        self.phase = if due {
            Phase::TimedFetch
        } else {
            Phase::Input
        };
    }

    /// Takes in an input event at `now` and applies the action it triggers,
    /// if any.
    fn input(&mut self, event: InputEvent, now: u128)
        ensures
            final(self)@ == old(self)@.input(event, now as nat),
    {
        match Action::from_event(event) {
            Some(action) => {
                let poll = self.app.apply_at(action, now);
                self.phase = if poll {
                    Phase::ManualFetch
                } else {
                    Phase::Render
                };
            },
            None => {
                self.phase = Phase::Render;
            },
        }
    }

    /// Takes in what came of the pending effect as of the clock reading `now`
    /// and tells what to do next.
    pub fn step_at(&mut self, event: Event<S>, now: u128) -> (effect: Effect)
        ensures
            final(self)@ == old(self)@.next(event, now as nat),
            effect == final(self)@.phase.pending(),
    {
        match (self.phase, event) {
            (Phase::Starting, Event::Started) => {
                self.iterate(now);
            },
            (Phase::Starting, Event::InitFailed) => {
                self.phase = Phase::Finished;
                self.failure = Some(Failure::TerminalInit);
            },
            (Phase::TimedFetch, Event::Fetched(snapshot)) => {
                self.app.update(Some(snapshot));
                self.phase = Phase::Input;
            },
            (Phase::TimedFetch, Event::FetchFailed) => {
                self.app.update(None);
                self.phase = Phase::Input;
            },
            (Phase::Input, Event::Input(input)) => {
                self.input(input, now);
            },
            (Phase::Input, Event::InputFailed) => {
                self.phase = Phase::Restoring;
                self.failure = Some(Failure::InputRead);
            },
            (Phase::ManualFetch, Event::Fetched(snapshot)) => {
                self.app.update(Some(snapshot));
                self.phase = Phase::Render;
            },
            (Phase::ManualFetch, Event::FetchFailed) => {
                self.app.update(None);
                self.phase = Phase::Render;
            },
            (Phase::Render, Event::Rendered) => {
                if self.app.exit() {
                    self.phase = Phase::Restoring;
                } else {
                    self.iterate(now);
                }
            },
            (Phase::Render, Event::RenderFailed) => {
                self.phase = Phase::Restoring;
                self.failure = Some(Failure::Render);
            },
            (Phase::Restoring, Event::Restored) => {
                self.phase = Phase::Finished;
            },
            (Phase::Restoring, Event::RestoreFailed) => {
                self.phase = Phase::Finished;
                if self.failure.is_none() {
                    self.failure = Some(Failure::TerminalRestore);
                }
            },
            _ => {},
        }
        self.pending()
    }

    /// Takes in what came of the pending effect and tells what to do next.
    ///
    /// The host calls this once for each effect that it carried out, starting
    /// with the one that [`RunLoop::pending`] names, until the answer is
    /// [`Effect::Halt`].
    pub fn step(&mut self, event: Event<S>) -> (effect: Effect)
        ensures
            exists|now: nat| final(self)@ == #[trigger] old(self)@.next(event, now),
            effect == final(self)@.phase.pending(),
    {
        let now: u128 = self.app.now();
        self.step_at(event, now)
    }
}

} // verus!
