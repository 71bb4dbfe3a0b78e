//! The quake controller: drives a trajectory generator on a fixed cadence,
//! hands each produced displacement to the host for injection, and stops
//! cleanly on cancellation or on an injection failure.
//!
//! The controller itself performs no waiting and no injection.  It is a
//! state machine: the host reports what happened last (the run began, a
//! move succeeded or failed, a wait elapsed) together with the current
//! value of the cancellation flag, and the controller answers with the next
//! action to perform.  Every wait it requests is a short polling slice, so
//! cancellation is observed with bounded latency however long the
//! configured interval is.

use vstd::arithmetic::div_mod::lemma_mod_division_less_than_divisor;
use vstd::prelude::*;

use crate::shape::poly_delta;
use crate::trajectory::{Point, Trajectory};

verus! {

/// The length of one polling slice of a wait, in milliseconds.
pub const CHECK_MS: u64 = 500;

/// What the host reports to the controller at each decision point.
#[derive(Clone, Copy, Debug, PartialEq, Eq, Structural)]
pub enum Event {
    /// The run is starting; nothing has been performed yet.
    Begin,
    /// The last requested move was injected successfully.
    MovedOk,
    /// The injection collaborator failed to perform the last move.
    MoveFailed,
    /// The last requested wait slice elapsed.
    Slept,
}

/// What the controller asks the host to do next.
#[derive(Clone, Copy, Debug, PartialEq, Eq, Structural)]
pub enum Decision {
    /// Produce the next displacement and inject it.
    Move,
    /// Wait for the given number of milliseconds, then report back.
    Sleep(u64),
    /// The run is over: cancellation was observed.  Report success.
    ExitOk,
    /// The run is over: injection failed.  Surface the failure.
    ExitErr,
}

/// Whether the run is still going or has reached its terminal state.
#[derive(Clone, Copy, Debug, PartialEq, Eq, Structural)]
pub enum Phase {
    Running,
    Stopped { ok: bool },
}

/// The controller's whole state: the configured tick interval, how much of
/// the current wait has elapsed, and whether the run has ended.
#[derive(Clone, Copy, Debug, PartialEq, Eq, Structural)]
pub struct Controller {
    pub interval_ms: u64,
    pub waited_ms: u64,
    pub phase: Phase,
}

/// Whether the controller has reached its terminal state.
pub open spec fn is_stopped(c: Controller) -> bool {
    match c.phase {
        Phase::Running => false,
        Phase::Stopped { .. } => true,
    }
}

/// The controller's transition function: from a state, a reported event
/// and the cancellation flag, to the next state and the next decision.
///
/// A failure report ends the run at once with a failure exit, before
/// anything else is considered.  Otherwise, if the flag is set the run ends
/// at once with a success exit.  Otherwise the elapsed wait is advanced (if
/// a slice just elapsed, capped at the interval), and either the interval
/// is over, in which case the next displacement is due and the wait starts
/// anew, or another polling slice of at most `CHECK_MS` is requested.
/// A terminal state only ever repeats its exit decision.
pub open spec fn step_spec(c: Controller, event: Event, cancelled: bool) -> (Controller, Decision) {
    match c.phase {
        Phase::Stopped { ok } => (
            c,
            if ok {
                Decision::ExitOk
            } else {
                Decision::ExitErr
            },
        ),
        Phase::Running => {
            if event == Event::MoveFailed {
                (Controller { phase: Phase::Stopped { ok: false }, ..c }, Decision::ExitErr)
            } else if cancelled {
                (Controller { phase: Phase::Stopped { ok: true }, ..c }, Decision::ExitOk)
            } else {
                let w = if event == Event::Slept {
                    if c.interval_ms - c.waited_ms > CHECK_MS {
                        (c.waited_ms + CHECK_MS) as u64
                    } else {
                        c.interval_ms
                    }
                } else {
                    c.waited_ms
                };
                if w >= c.interval_ms {
                    (Controller { waited_ms: 0, ..c }, Decision::Move)
                } else {
                    (Controller { waited_ms: w, ..c }, Decision::Sleep(CHECK_MS))
                }
            }
        },
    }
}

impl Controller {
    /// The elapsed wait never exceeds the configured interval.
    pub open spec fn wf(&self) -> bool {
        self.waited_ms <= self.interval_ms
    }

    /// A fresh controller for the given tick interval.  Its first decision
    /// (barring cancellation) is to move: the first displacement is
    /// emitted before the first wait.
    pub fn new(interval_ms: u64) -> (c: Controller)
        ensures
            c.wf(),
            c == (Controller { interval_ms, waited_ms: interval_ms, phase: Phase::Running }),
    {
        Controller { interval_ms, waited_ms: interval_ms, phase: Phase::Running }
    }

    /// Take one decision, exactly as `step_spec` describes.
    pub fn step(&mut self, event: Event, cancelled: bool) -> (d: Decision)
        requires
            old(self).wf(),
        ensures
            final(self).wf(),
            *final(self) == step_spec(*old(self), event, cancelled).0,
            d == step_spec(*old(self), event, cancelled).1,
    {
        match self.phase {
            Phase::Stopped { ok } => {
                if ok {
                    Decision::ExitOk
                } else {
                    Decision::ExitErr
                }
            },
            Phase::Running => {
                if event == Event::MoveFailed {
                    self.phase = Phase::Stopped { ok: false };
                    Decision::ExitErr
                } else if cancelled {
                    self.phase = Phase::Stopped { ok: true };
                    Decision::ExitOk
                } else {
                    let w: u64 = if event == Event::Slept {
                        if self.interval_ms - self.waited_ms > CHECK_MS {
                            self.waited_ms + CHECK_MS
                        } else {
                            self.interval_ms
                        }
                    } else {
                        self.waited_ms
                    };
                    if w >= self.interval_ms {
                        self.waited_ms = 0;
                        Decision::Move
                    } else {
                        self.waited_ms = w;
                        Decision::Sleep(CHECK_MS)
                    }
                }
            },
        }
    }
}

/// The controller state after processing a whole sequence of reported
/// events, each paired with the cancellation flag read at that point.
pub open spec fn run_steps(c: Controller, events: Seq<(Event, bool)>) -> Controller
    decreases events.len(),
{
    if events.len() == 0 {
        c
    } else {
        run_steps(step_spec(c, events[0].0, events[0].1).0, events.drop_first())
    }
}

/// The decisions the controller takes while processing a whole sequence of
/// reported events.
pub open spec fn run_decisions(c: Controller, events: Seq<(Event, bool)>) -> Seq<Decision>
    decreases events.len(),
{
    if events.len() == 0 {
        Seq::empty()
    } else {
        seq![step_spec(c, events[0].0, events[0].1).1] + run_decisions(
            step_spec(c, events[0].0, events[0].1).0,
            events.drop_first(),
        )
    }
}

/// The controller takes exactly one decision per reported event.
pub proof fn lemma_run_decisions_len(c: Controller, events: Seq<(Event, bool)>)
    ensures
        run_decisions(c, events).len() == events.len(),
    decreases events.len(),
{
    if events.len() > 0 {
        lemma_run_decisions_len(step_spec(c, events[0].0, events[0].1).0, events.drop_first());
    }
}

/// Cancellation latency is bounded: the controller never asks the host to
/// wait more than one polling slice (half a second) at a time, and at the
/// first decision point at which the flag is observed set, a running
/// controller stops at once with a success exit instead of waiting out the
/// rest of the interval.
pub proof fn lemma_cancellation_latency(c: Controller, event: Event, cancelled: bool)
    ensures
        (step_spec(c, event, cancelled).1 matches Decision::Sleep(ms) ==> ms == CHECK_MS),
        cancelled && c.phase == Phase::Running && event != Event::MoveFailed ==> step_spec(
            c,
            event,
            cancelled,
        ) == (Controller { phase: Phase::Stopped { ok: true }, ..c }, Decision::ExitOk),
{
}

/// An injection failure aborts the run at once: the decision is a failure
/// exit and the controller is stopped unsuccessfully, whatever the flag.
pub proof fn lemma_failure_aborts(c: Controller, cancelled: bool)
    requires
        c.phase == Phase::Running,
    ensures
        step_spec(c, Event::MoveFailed, cancelled) == (
            Controller { phase: Phase::Stopped { ok: false }, ..c },
            Decision::ExitErr,
        ),
{
}

/// A stopped controller is terminal: whatever events follow, its state
/// never changes, it never asks for another move or wait, and every later
/// decision repeats the same exit.  Together with `lemma_failure_aborts`
/// this says that after a failure on some call, no further injection is
/// ever requested and the failure exit is what the host surfaces.
pub proof fn lemma_stopped_terminal(c: Controller, events: Seq<(Event, bool)>)
    requires
        is_stopped(c),
    ensures
        run_steps(c, events) == c,
        forall|i: int|
            0 <= i < events.len() ==> #[trigger] run_decisions(c, events)[i] == step_spec(
                c,
                events[0].0,
                events[0].1,
            ).1 && !(run_decisions(c, events)[i] matches Decision::Move) && !(run_decisions(
                c,
                events,
            )[i] matches Decision::Sleep(_)),
    decreases events.len(),
{
    if events.len() > 0 {
        let d0 = step_spec(c, events[0].0, events[0].1);
        assert(d0.0 == c);
        let rest = events.drop_first();
        let tail = run_decisions(c, rest);
        lemma_run_decisions_len(c, rest);
        lemma_stopped_terminal(c, rest);
        assert(run_decisions(c, events) == seq![d0.1] + tail);
        assert forall|i: int| 0 <= i < events.len() implies #[trigger] run_decisions(c, events)[i]
            == d0.1 by {
            if i > 0 {
                assert((seq![d0.1] + tail)[i] == tail[i - 1]);
                assert(tail[i - 1] == step_spec(c, rest[0].0, rest[0].1).1);
                assert(step_spec(c, rest[0].0, rest[0].1).1 == d0.1);
            } else {
                assert((seq![d0.1] + tail)[0] == d0.1);
            }
        }
    }
}

/// What the host must do on each decision for a quake run, bundled with
/// the displacement where one is due.
#[derive(Clone, Copy, Debug, PartialEq, Eq, Structural)]
pub enum Command {
    /// Inject this relative displacement.
    Move(Point),
    /// Wait for the given number of milliseconds.
    Sleep(u64),
    /// The run ended after observing cancellation: report success.
    ExitOk,
    /// The run ended on an injection failure: surface it.
    ExitErr,
}

/// The quake driver: one trajectory generator together with the controller
/// that paces it.  Each tick asks the generator for the next displacement
/// and hands it out for injection; the host performs the injection and the
/// waiting and reports the outcomes back.
pub struct Quaker<T: Trajectory> {
    pub trajectory: T,
    pub control: Controller,
}

impl<T: Trajectory> Quaker<T> {
    /// A well-formed driver holds a well-formed generator and controller.
    pub open spec fn wf(&self) -> bool {
        self.trajectory.wf() && self.control.wf()
    }

    pub fn new(trajectory: T, interval_ms: u64) -> (q: Quaker<T>)
        requires
            trajectory.wf(),
        ensures
            q.wf(),
            q.trajectory == trajectory,
            q.control == (Controller {
                interval_ms,
                waited_ms: interval_ms,
                phase: Phase::Running,
            }),
    {
        Quaker { trajectory, control: Controller::new(interval_ms) }
    }

    /// Produce the next displacement of the trajectory: the delta at the
    /// generator's current phase, which then advances one step.
    pub fn quake(&mut self) -> (p: Point)
        requires
            old(self).wf(),
        ensures
            final(self).wf(),
            final(self).control == old(self).control,
            final(self).trajectory.points() == old(self).trajectory.points(),
            final(self).trajectory.index() == (old(self).trajectory.index() + 1) % (old(
                self,
            ).trajectory.points().len() as int),
            (p.x as int, p.y as int) == poly_delta(
                old(self).trajectory.points(),
                old(self).trajectory.index(),
            ),
            -1000000000000 <= p.x <= 1000000000000,
            -1000000000000 <= p.y <= 1000000000000,
    {
        proof {
            self.trajectory.wf_facts();
            let pts = self.trajectory.points();
            let n = pts.len() as int;
            lemma_mod_division_less_than_divisor(self.trajectory.index(), n);
            lemma_mod_division_less_than_divisor(self.trajectory.index() + 1, n);
        }
        self.trajectory.next()
    }

    /// Take one decision of the controller and carry out the generator's
    /// part of it: on a move decision the next displacement is produced
    /// and handed out; on every other decision the generator is untouched.
    pub fn step(&mut self, event: Event, cancelled: bool) -> (c: Command)
        requires
            old(self).wf(),
        ensures
            final(self).wf(),
            final(self).control == step_spec(old(self).control, event, cancelled).0,
            final(self).trajectory.points() == old(self).trajectory.points(),
            (match step_spec(old(self).control, event, cancelled).1 {
                Decision::Move => (c matches Command::Move(p) && (p.x as int, p.y as int)
                    == poly_delta(old(self).trajectory.points(), old(self).trajectory.index())
                    && final(self).trajectory.index() == (old(self).trajectory.index() + 1) % (old(
                    self,
                ).trajectory.points().len() as int)),
                Decision::Sleep(ms) => c == Command::Sleep(ms) && final(self).trajectory == old(
                    self,
                ).trajectory,
                Decision::ExitOk => c == Command::ExitOk && final(self).trajectory == old(
                    self,
                ).trajectory,
                Decision::ExitErr => c == Command::ExitErr && final(self).trajectory == old(
                    self,
                ).trajectory,
            }),
    {
        let d: Decision = self.control.step(event, cancelled);
        match d {
            Decision::Move => {
                let p: Point = self.quake();
                Command::Move(p)
            },
            Decision::Sleep(ms) => Command::Sleep(ms),
            Decision::ExitOk => Command::ExitOk,
            Decision::ExitErr => Command::ExitErr,
        }
    }
}

} // verus!
