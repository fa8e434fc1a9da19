//! The timing state machine: it takes input events and clock readings,
//! drives the ledger, and says what the caller has to do next.

use crate::clock::{decomposed, elapsed, elapsed_millis, Time};
use crate::ledger::{
    clone_milestones, views, AdvanceResult, InvalidTransition, Ledger, LedgerView, Milestone,
    MilestoneView,
};
use vstd::prelude::*;

verus! {

/// What can happen to the timer.
#[derive(Clone, Copy, Debug, PartialEq, Eq, Structural)]
pub enum Event {
    /// The primary action: starts a run, or closes the current milestone.
    Advance,
    /// Reload the milestones from storage.
    Reset,
    /// Store the current times as the new reference.
    SaveReference,
    /// Leave.
    Quit,
    /// Time has passed; refresh the displayed time.
    Tick,
}

/// The event that a key stands for: space is the primary action, `r`
/// resets, `s` saves, `q` quits. Other keys mean nothing.
pub fn event_for_key(key: char) -> (event: Option<Event>)
    ensures
        event == (if key == ' ' {
            Some(Event::Advance)
        } else if key == 'r' {
            Some(Event::Reset)
        } else if key == 's' {
            Some(Event::SaveReference)
        } else if key == 'q' {
            Some(Event::Quit)
        } else {
            None::<Event>
        }),
{
    if key == ' ' {
        Some(Event::Advance)
    } else if key == 'r' {
        Some(Event::Reset)
    } else if key == 's' {
        Some(Event::SaveReference)
    } else if key == 'q' {
        Some(Event::Quit)
    } else {
        None
    }
}

/// The interval between two ticks, in milliseconds.
pub const TICK_RATE_MILLIS: u64 = 2;

/// How long the input may be waited for before the next tick is due: what is
/// left of the tick interval, and nothing once it has passed.
pub fn poll_timeout(tick_rate: u64, since_last_tick: u64) -> (timeout: u64)
    ensures
        timeout == (if since_last_tick >= tick_rate {
            0
        } else {
            tick_rate - since_last_tick
        }),
{
    if since_last_tick >= tick_rate {
        0
    } else {
        tick_rate - since_last_tick
    }
}

/// Whether a tick is due: the tick interval has passed since the last one.
pub fn tick_due(tick_rate: u64, since_last_tick: u64) -> (due: bool)
    ensures
        due == (since_last_tick >= tick_rate),
{
    since_last_tick >= tick_rate
}

/// Where the timer stands.
#[derive(Clone, Copy, Debug, PartialEq, Eq, Structural)]
pub enum Phase {
    /// No run is active.
    Idle,
    /// A run is active and its start instant is held.
    Running,
    /// The timer has quit; nothing leads out of this phase.
    Terminated,
}

/// What an event did, and what is left for the caller to do.
#[derive(Debug, PartialEq, Eq)]
pub enum Outcome {
    /// A run began.
    Started,
    /// A milestone was closed and the run goes on.
    Continued,
    /// The last milestone was closed and the run is over.
    Finished,
    /// The displayed time was refreshed.
    Ticked,
    /// The caller is to load the stored records and hand them to
    /// [`Timer::reload`].
    Reload,
    /// The caller is to store these records.
    Save(Vec<Milestone>),
    /// The timer has terminated; the caller is to leave.
    Quit,
    /// The event was turned down and nothing changed.
    Rejected(InvalidTransition),
}

/// An outcome as a mathematical value.
pub enum OutcomeView {
    Started,
    Continued,
    Finished,
    Ticked,
    Reload,
    Save(Seq<MilestoneView>),
    Quit,
    Rejected(InvalidTransition),
}

impl View for Outcome {
    type V = OutcomeView;

    open spec fn view(&self) -> OutcomeView {
        match *self {
            Outcome::Started => OutcomeView::Started,
            Outcome::Continued => OutcomeView::Continued,
            Outcome::Finished => OutcomeView::Finished,
            Outcome::Ticked => OutcomeView::Ticked,
            Outcome::Reload => OutcomeView::Reload,
            Outcome::Save(records) => OutcomeView::Save(views(records@)),
            Outcome::Quit => OutcomeView::Quit,
            Outcome::Rejected(why) => OutcomeView::Rejected(why),
        }
    }
}

/// A timer as a mathematical value.
pub struct TimerView {
    pub ledger: LedgerView,
    pub start_instant: Option<u64>,
    pub displayed: Time,
    pub terminated: bool,
}

impl TimerView {
    /// The invariant of a timer: the ledger is well formed, a start instant
    /// is held exactly while its run is active, and without a run the
    /// displayed time is zero.
    pub open spec fn wf(self) -> bool {
        &&& self.ledger.wf()
        &&& self.start_instant is Some <==> self.ledger.run_active
        &&& self.start_instant is None ==> self.displayed == Time::zero_spec()
    }

    /// Where the timer stands.
    pub open spec fn phase(self) -> Phase {
        if self.terminated {
            Phase::Terminated
        } else if self.start_instant is Some {
            Phase::Running
        } else {
            Phase::Idle
        }
    }

    /// The time measured at `now` in the run that began at `start`.
    pub open spec fn measured(start: u64, now: u64) -> Time {
        decomposed(elapsed_millis(start, now))
    }

    /// The timer after `event` arrived at the clock reading `now`.
    pub open spec fn next(self, event: Event, now: u64) -> TimerView {
        if self.terminated {
            self
        } else {
            match event {
                Event::Tick => match self.start_instant {
                    Some(start) => TimerView { displayed: Self::measured(start, now), ..self },
                    None => self,
                },
                Event::Advance => match self.start_instant {
                    None => TimerView {
                        ledger: self.ledger.started(),
                        start_instant: Some(now),
                        displayed: Time::zero_spec(),
                        terminated: false,
                    },
                    Some(start) => match self.ledger.advance_result() {
                        Ok(AdvanceResult::Continued) => TimerView {
                            ledger: self.ledger.advanced(Self::measured(start, now)),
                            start_instant: Some(start),
                            displayed: Self::measured(start, now),
                            terminated: false,
                        },
                        Ok(AdvanceResult::Finished) => TimerView {
                            ledger: self.ledger.advanced(Self::measured(start, now)),
                            start_instant: None,
                            displayed: Time::zero_spec(),
                            terminated: false,
                        },
                        Err(_) => self,
                    },
                },
                Event::Reset => self,
                Event::SaveReference => self,
                Event::Quit => TimerView { terminated: true, ..self },
            }
        }
    }

    /// What the caller is told after `event`.
    pub open spec fn outcome(self, event: Event) -> OutcomeView {
        if self.terminated {
            OutcomeView::Rejected(InvalidTransition::Terminated)
        } else {
            match event {
                Event::Tick => OutcomeView::Ticked,
                Event::Advance => match self.start_instant {
                    None => OutcomeView::Started,
                    Some(_) => match self.ledger.advance_result() {
                        Ok(AdvanceResult::Continued) => OutcomeView::Continued,
                        Ok(AdvanceResult::Finished) => OutcomeView::Finished,
                        Err(why) => OutcomeView::Rejected(why),
                    },
                },
                Event::Reset => if self.start_instant is Some {
                    OutcomeView::Rejected(InvalidTransition::ResetWhileRunning)
                } else {
                    OutcomeView::Reload
                },
                Event::SaveReference => if self.start_instant is Some {
                    OutcomeView::Rejected(InvalidTransition::SaveWhileRunning)
                } else {
                    OutcomeView::Save(self.ledger.milestones)
                },
                Event::Quit => OutcomeView::Quit,
            }
        }
    }

    /// The timer after freshly loaded records were handed in.
    pub open spec fn reloaded(self, records: Seq<MilestoneView>) -> TimerView {
        if self.terminated || self.start_instant is Some {
            self
        } else {
            TimerView { ledger: LedgerView::loaded(records), ..self }
        }
    }
}

/// The timer: a ledger, the instant at which the run in progress began, and
/// the elapsed time on display.
pub struct Timer {
    ledger: Ledger,
    start_instant: Option<u64>,
    displayed: Time,
    terminated: bool,
}

impl View for Timer {
    type V = TimerView;

    closed spec fn view(&self) -> TimerView {
        TimerView {
            ledger: self.ledger@,
            start_instant: self.start_instant,
            displayed: self.displayed,
            terminated: self.terminated,
        }
    }
}

/// What the timer hands to the display each frame.
#[derive(Debug, PartialEq, Eq)]
pub struct Snapshot {
    pub elapsed: Time,
    pub running: bool,
    pub milestones: Vec<Milestone>,
}

impl Timer {
    /// The timer's invariant holds of it.
    pub open spec fn wf(&self) -> bool {
        self@.wf()
    }

    /// An idle timer over the stored records; an empty list gives a timer
    /// with nothing to pass.
    pub fn new(records: Vec<Milestone>) -> (timer: Timer)
        ensures
            timer.wf(),
            timer@ == (TimerView {
                ledger: LedgerView::loaded(views(records@)),
                start_instant: None,
                displayed: Time::zero_spec(),
                terminated: false,
            }),
    {
        Timer {
            ledger: Ledger::load(records),
            start_instant: None,
            displayed: Time::zero(),
            terminated: false,
        }
    }

    /// Where the timer stands.
    pub fn phase(&self) -> (phase: Phase)
        ensures
            phase == self@.phase(),
    {
        if self.terminated {
            Phase::Terminated
        } else if self.start_instant.is_some() {
            Phase::Running
        } else {
            Phase::Idle
        }
    }

    /// The ledger, to read.
    pub fn ledger(&self) -> (ledger: &Ledger)
        ensures
            ledger@ == self@.ledger,
    {
        &self.ledger
    }

    /// The elapsed time on display.
    pub fn displayed(&self) -> (t: Time)
        ensures
            t == self@.displayed,
    {
        self.displayed
    }

    /// What the display needs: the time shown, whether a run is active, and
    /// a copy of the milestones.
    pub fn snapshot(&self) -> (snapshot: Snapshot)
        ensures
            snapshot.elapsed == self@.displayed,
            snapshot.running == self@.ledger.run_active,
            views(snapshot.milestones@) == self@.ledger.milestones,
    {
        Snapshot {
            elapsed: self.displayed,
            running: self.ledger.is_running(),
            milestones: clone_milestones(self.ledger.milestones()),
        }
    }

    /// Takes one event at the clock reading `now`, in milliseconds of a
    /// monotonic clock.
    ///
    /// `Advance` starts a run when the timer is idle and closes the current
    /// milestone at the elapsed time when it is running. `Tick` refreshes the
    /// displayed time and leaves the ledger alone. `Reset` and
    /// `SaveReference` are rejected during a run; otherwise they change
    /// nothing here and tell the caller to load or to store. `Quit`
    /// terminates the timer, after which every event is rejected.
    pub fn handle(&mut self, event: Event, now: u64) -> (outcome: Outcome)
        requires
            old(self).wf(),
        ensures
            final(self).wf(),
            final(self)@ == old(self)@.next(event, now),
            outcome@ == old(self)@.outcome(event),
    {
        if self.terminated {
            return Outcome::Rejected(InvalidTransition::Terminated);
        }
        match event {
            Event::Tick => {
                if let Some(start) = self.start_instant {
                    self.displayed = elapsed(start, now);
                }
                Outcome::Ticked
            },
            Event::Advance => match self.start_instant {
                None => {
                    let _ = self.ledger.start_run();
                    self.start_instant = Some(now);
                    Outcome::Started
                },
                Some(start) => {
                    let measured = elapsed(start, now);
                    match self.ledger.advance(measured) {
                        Ok(AdvanceResult::Continued) => {
                            self.displayed = measured;
                            Outcome::Continued
                        },
                        Ok(AdvanceResult::Finished) => {
                            self.start_instant = None;
                            self.displayed = Time::zero();
                            Outcome::Finished
                        },
                        Err(why) => Outcome::Rejected(why),
                    }
                },
            },
            Event::Reset => {
                if self.start_instant.is_some() {
                    Outcome::Rejected(InvalidTransition::ResetWhileRunning)
                } else {
                    Outcome::Reload
                }
            },
            Event::SaveReference => {
                if self.start_instant.is_some() {
                    Outcome::Rejected(InvalidTransition::SaveWhileRunning)
                } else {
                    Outcome::Save(clone_milestones(self.ledger.milestones()))
                }
            },
            Event::Quit => {
                self.terminated = true;
                Outcome::Quit
            },
        }
    }

    /// Replaces the milestones by freshly loaded records, without deltas.
    /// During a run, or after the timer has terminated, the call is rejected
    /// and nothing changes.
    pub fn reload(&mut self, records: Vec<Milestone>) -> (result: Result<(), InvalidTransition>)
        requires
            old(self).wf(),
        ensures
            final(self).wf(),
            final(self)@ == old(self)@.reloaded(views(records@)),
            result == (if old(self)@.terminated {
                Err::<(), InvalidTransition>(InvalidTransition::Terminated)
            } else if old(self)@.start_instant is Some {
                Err::<(), InvalidTransition>(InvalidTransition::ResetWhileRunning)
            } else {
                Ok::<(), InvalidTransition>(())
            }),
    {
        if self.terminated {
            return Err(InvalidTransition::Terminated);
        }
        self.ledger.reset(records)
    }
}

} // verus!
