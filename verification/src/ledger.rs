//! The milestone ledger: an ordered list of named milestones, the cursor of
//! the run in progress, and the operations that move a run along.

use crate::clock::Time;
use vstd::prelude::*;

verus! {

/// Why an operation was turned down. A rejected operation changes nothing.
#[derive(Clone, Copy, Debug, PartialEq, Eq, Structural)]
pub enum InvalidTransition {
    /// A run was started while one was active.
    RunAlreadyActive,
    /// A milestone was closed while no run was active.
    NoActiveRun,
    /// A milestone was closed in a run over an empty ledger.
    NoActiveMilestone,
    /// The ledger was reset during a run.
    ResetWhileRunning,
    /// The reference times were saved during a run.
    SaveWhileRunning,
    /// An event arrived after the timer had quit.
    Terminated,
}

/// What closing a milestone did to the run.
#[derive(Clone, Copy, Debug, PartialEq, Eq, Structural)]
pub enum AdvanceResult {
    /// The cursor moved on to the next milestone.
    Continued,
    /// The last milestone was closed and the run is over.
    Finished,
}

/// How a measured time compares with the reference.
#[derive(Clone, Copy, Debug, PartialEq, Eq, Structural)]
pub enum Pace {
    /// Below the reference: an improvement.
    Faster,
    /// Exactly the reference.
    Level,
    /// Above the reference.
    Slower,
}

/// The pace that a delta stands for, by its sign.
pub fn pace(delta: i64) -> (pace: Pace)
    ensures
        delta < 0 <==> pace == Pace::Faster,
        delta == 0 <==> pace == Pace::Level,
        delta > 0 <==> pace == Pace::Slower,
{
    if delta < 0 {
        Pace::Faster
    } else if delta == 0 {
        Pace::Level
    } else {
        Pace::Slower
    }
}

/// A named checkpoint: the time it was last reached at, and how that time
/// compared with the one before it.
///
/// `delta` is in milliseconds, measured time minus previous reference time:
/// positive is slower, negative is faster.
#[derive(Debug, PartialEq, Eq)]
pub struct Milestone {
    pub name: String,
    pub reference_time: Time,
    pub delta: Option<i64>,
}

/// A milestone as a mathematical value.
pub struct MilestoneView {
    pub name: Seq<char>,
    pub reference_time: Time,
    pub delta: Option<int>,
}

impl MilestoneView {
    /// The same milestone with no delta.
    pub open spec fn cleared(self) -> MilestoneView {
        MilestoneView { name: self.name, reference_time: self.reference_time, delta: None }
    }

    /// The milestone after it was reached at `measured`: the delta is the
    /// measured time minus the reference time it had, and the measured time
    /// is the new reference. The delta it had before plays no part.
    pub open spec fn passed(self, measured: Time) -> MilestoneView {
        MilestoneView {
            name: self.name,
            reference_time: measured,
            delta: Some(measured.total_millis() - self.reference_time.total_millis()),
        }
    }
}

impl View for Milestone {
    type V = MilestoneView;

    open spec fn view(&self) -> MilestoneView {
        MilestoneView {
            name: self.name@,
            reference_time: self.reference_time,
            delta: match self.delta {
                Some(d) => Some(d as int),
                None => None,
            },
        }
    }
}

impl Clone for Milestone {
    fn clone(&self) -> (copy: Self)
        ensures
            copy == *self,
    {
        Milestone {
            name: self.name.clone(),
            reference_time: self.reference_time,
            delta: self.delta,
        }
    }
}

/// The views of a list of milestones, in order.
pub open spec fn views(milestones: Seq<Milestone>) -> Seq<MilestoneView> {
    milestones.map_values(|m: Milestone| m@)
}

/// Every milestone of a list with its delta removed.
pub open spec fn all_cleared(milestones: Seq<MilestoneView>) -> Seq<MilestoneView> {
    milestones.map_values(|m: MilestoneView| m.cleared())
}

/// A ledger as a mathematical value.
pub struct LedgerView {
    pub milestones: Seq<MilestoneView>,
    pub cursor: Option<int>,
    pub run_active: bool,
}

impl LedgerView {
    /// The invariant of a ledger. The cursor is set exactly during a run
    /// over at least one milestone and then points at a milestone; during a
    /// run exactly the milestones before the cursor hold a delta.
    pub open spec fn wf(self) -> bool {
        &&& self.cursor is Some <==> self.run_active && self.milestones.len() > 0
        &&& self.cursor matches Some(c) ==> 0 <= c < self.milestones.len()
        &&& self.run_active ==> forall|i: int|
            0 <= i < self.milestones.len() ==> ((#[trigger] self.milestones[i]).delta is Some <==> (
            self.cursor matches Some(c) && i < c))
    }

    /// The ledger that a list of records loads into: no run, no cursor, and
    /// no deltas.
    pub open spec fn loaded(records: Seq<MilestoneView>) -> LedgerView {
        LedgerView { milestones: all_cleared(records), cursor: None, run_active: false }
    }

    /// The ledger after a run has started: deltas blank, the cursor on the
    /// first milestone if there is one.
    pub open spec fn started(self) -> LedgerView {
        LedgerView {
            milestones: all_cleared(self.milestones),
            cursor: if self.milestones.len() > 0 {
                Some(0)
            } else {
                None
            },
            run_active: true,
        }
    }

    /// What closing the current milestone answers.
    pub open spec fn advance_result(self) -> Result<AdvanceResult, InvalidTransition> {
        if !self.run_active {
            Err(InvalidTransition::NoActiveRun)
        } else {
            match self.cursor {
                None => Err(InvalidTransition::NoActiveMilestone),
                Some(c) => if c + 1 < self.milestones.len() {
                    Ok(AdvanceResult::Continued)
                } else {
                    Ok(AdvanceResult::Finished)
                },
            }
        }
    }

    /// The ledger after the current milestone was closed at `measured`. Where
    /// there is no milestone to close the ledger stays as it is.
    pub open spec fn advanced(self, measured: Time) -> LedgerView {
        if !self.run_active {
            self
        } else {
            match self.cursor {
                None => self,
                Some(c) => {
                    let more = c + 1 < self.milestones.len();
                    LedgerView {
                        milestones: self.milestones.update(c, self.milestones[c].passed(measured)),
                        cursor: if more {
                            Some(c + 1)
                        } else {
                            None
                        },
                        run_active: more,
                    }
                },
            }
        }
    }
}

/// An ordered list of milestones with the state of the run over them.
pub struct Ledger {
    milestones: Vec<Milestone>,
    cursor: Option<usize>,
    run_active: bool,
}

impl View for Ledger {
    type V = LedgerView;

    closed spec fn view(&self) -> LedgerView {
        LedgerView {
            milestones: views(self.milestones@),
            cursor: match self.cursor {
                Some(c) => Some(c as int),
                None => None,
            },
            run_active: self.run_active,
        }
    }
}

/// Removes the delta of every milestone of the list.
fn clear_deltas(milestones: &mut Vec<Milestone>)
    ensures
        views(final(milestones)@) == all_cleared(views(old(milestones)@)),
{
    let n = milestones.len();
    let mut i: usize = 0;
    while i < n
        invariant
            i <= n,
            milestones.len() == n,
            old(milestones).len() == n,
            forall|j: int| 0 <= j < i ==> (#[trigger] milestones[j])@ == old(milestones)[j]@.cleared(),
            forall|j: int| i <= j < n ==> #[trigger] milestones[j] == old(milestones)[j],
        decreases n - i,
    {
        milestones[i].delta = None;
        i += 1;
    }
    assert(views(milestones@) =~= all_cleared(views(old(milestones)@)));
}

/// A copy of a list of milestones.
pub fn clone_milestones(milestones: &Vec<Milestone>) -> (copy: Vec<Milestone>)
    ensures
        copy@ == milestones@,
{
    let mut copy: Vec<Milestone> = Vec::new();
    let n = milestones.len();
    let mut i: usize = 0;
    while i < n
        invariant
            i <= n,
            n == milestones.len(),
            copy@ == milestones@.take(i as int),
        decreases n - i,
    {
        copy.push(milestones[i].clone());
        assert(copy@ =~= milestones@.take(i + 1));
        i += 1;
    }
    assert(copy@ =~= milestones@);
    copy
}

/// What a ledger shows of itself at one moment.
#[derive(Debug, PartialEq, Eq)]
pub struct LedgerSnapshot {
    pub milestones: Vec<Milestone>,
    pub current_index: Option<usize>,
    pub running: bool,
}

impl View for LedgerSnapshot {
    type V = LedgerView;

    open spec fn view(&self) -> LedgerView {
        LedgerView {
            milestones: views(self.milestones@),
            cursor: match self.current_index {
                Some(c) => Some(c as int),
                None => None,
            },
            run_active: self.running,
        }
    }
}

impl Ledger {
    /// The ledger's invariant holds of it.
    pub open spec fn wf(&self) -> bool {
        self@.wf()
    }

    /// Builds a ledger from stored records. Names and reference times are
    /// taken as they are, deltas are dropped; an empty list gives an empty
    /// ledger.
    pub fn load(records: Vec<Milestone>) -> (ledger: Ledger)
        ensures
            ledger.wf(),
            ledger@ == LedgerView::loaded(views(records@)),
    {
        let mut milestones = records;
        clear_deltas(&mut milestones);
        Ledger { milestones, cursor: None, run_active: false }
    }

    /// The number of milestones.
    pub fn len(&self) -> (n: usize)
        ensures
            n == self@.milestones.len(),
    {
        self.milestones.len()
    }

    /// Whether a run is active.
    pub fn is_running(&self) -> (running: bool)
        ensures
            running == self@.run_active,
    {
        self.run_active
    }

    /// The index of the milestone that the run will close next.
    pub fn cursor(&self) -> (cursor: Option<usize>)
        ensures
            cursor is Some <==> self@.cursor is Some,
            cursor matches Some(c) ==> self@.cursor == Some(c as int),
    {
        self.cursor
    }

    /// The milestones, in order.
    pub fn milestones(&self) -> (milestones: &Vec<Milestone>)
        ensures
            views(milestones@) == self@.milestones,
    {
        &self.milestones
    }

    /// A copy of the milestones, the cursor and the run flag as they stand.
    pub fn snapshot(&self) -> (snapshot: LedgerSnapshot)
        ensures
            snapshot@ == self@,
    {
        LedgerSnapshot {
            milestones: clone_milestones(&self.milestones),
            current_index: self.cursor,
            running: self.run_active,
        }
    }

    /// Starts a run: every delta is blanked and the cursor goes to the first
    /// milestone. Over an empty ledger the run is active without a cursor.
    /// During a run the call is rejected.
    pub fn start_run(&mut self) -> (result: Result<(), InvalidTransition>)
        requires
            old(self).wf(),
        ensures
            final(self).wf(),
            old(self)@.run_active ==> result == Err::<(), InvalidTransition>(
                InvalidTransition::RunAlreadyActive,
            ) && final(self)@ == old(self)@,
            !old(self)@.run_active ==> result == Ok::<(), InvalidTransition>(()) && final(self)@
                == old(self)@.started(),
    {
        if self.run_active {
            return Err(InvalidTransition::RunAlreadyActive);
        }
        clear_deltas(&mut self.milestones);
        assert(views(self.milestones@).len() == views(old(self).milestones@).len());
        self.cursor = if self.milestones.len() > 0 {
            Some(0)
        } else {
            None
        };
        self.run_active = true;
        Ok(())
    }

    /// Closes the current milestone at the measured time: its delta becomes
    /// the measured time minus the reference time it had, in milliseconds,
    /// and the measured time becomes its reference. The cursor then moves to
    /// the next milestone, or the run ends after the last one.
    ///
    /// Without an active run, or in a run over an empty ledger, the call is
    /// rejected and the ledger stays as it is.
    pub fn advance(&mut self, measured: Time) -> (result: Result<AdvanceResult, InvalidTransition>)
        requires
            old(self).wf(),
        ensures
            final(self).wf(),
            result == old(self)@.advance_result(),
            final(self)@ == old(self)@.advanced(measured),
    {
        if !self.run_active {
            return Err(InvalidTransition::NoActiveRun);
        }
        let c = match self.cursor {
            Some(c) => c,
            None => {
                return Err(InvalidTransition::NoActiveMilestone);
            },
        };
        let more = c < self.milestones.len() - 1;
        let delta: i64 = measured.to_millis() - self.milestones[c].reference_time.to_millis();
        self.milestones[c].reference_time = measured;
        self.milestones[c].delta = Some(delta);
        let result = if more {
            self.cursor = Some(c + 1);
            AdvanceResult::Continued
        } else {
            self.cursor = None;
            self.run_active = false;
            AdvanceResult::Finished
        };
        assert(self@.milestones =~= old(self)@.advanced(measured).milestones);
        Ok(result)
    }

    /// Replaces the milestones by freshly loaded records, without deltas.
    /// During a run the call is rejected and the ledger stays as it is.
    pub fn reset(&mut self, records: Vec<Milestone>) -> (result: Result<(), InvalidTransition>)
        requires
            old(self).wf(),
        ensures
            final(self).wf(),
            old(self)@.run_active ==> result == Err::<(), InvalidTransition>(
                InvalidTransition::ResetWhileRunning,
            ) && final(self)@ == old(self)@,
            !old(self)@.run_active ==> result == Ok::<(), InvalidTransition>(()) && final(self)@
                == LedgerView::loaded(views(records@)),
    {
        if self.run_active {
            return Err(InvalidTransition::ResetWhileRunning);
        }
        *self = Ledger::load(records);
        Ok(())
    }
}

} // verus!
