//! Laws of the ledger and the timer that span several operations.

use crate::clock::Time;
use crate::ledger::{all_cleared, AdvanceResult, InvalidTransition, LedgerView, MilestoneView};
use crate::timer::{Event, OutcomeView, Phase, TimerView};
use vstd::prelude::*;

verus! {

/// The ledger after closing one milestone for each of `times`, in order.
pub open spec fn advanced_through(ledger: LedgerView, times: Seq<Time>) -> LedgerView
    decreases times.len(),
{
    if times.len() == 0 {
        ledger
    } else {
        advanced_through(ledger, times.drop_last()).advanced(times.last())
    }
}

/// The ledger after a whole run: started, then one milestone closed for
/// each of `times`.
pub open spec fn after_run(ledger: LedgerView, times: Seq<Time>) -> LedgerView {
    advanced_through(ledger.started(), times)
}

/// Loading and starting keep the invariant; closing a milestone keeps it too.
pub proof fn law_operations_keep_invariant(ledger: LedgerView, records: Seq<MilestoneView>, measured: Time)
    requires
        ledger.wf(),
    ensures
        LedgerView::loaded(records).wf(),
        !ledger.run_active ==> ledger.started().wf(),
        ledger.advanced(measured).wf(),
{
}

/// A run over an empty ledger has no cursor, and every attempt to close a
/// milestone in it is rejected and changes nothing.
pub proof fn law_empty_run_has_no_milestone(ledger: LedgerView, measured: Time)
    requires
        ledger.wf(),
        !ledger.run_active,
        ledger.milestones.len() == 0,
    ensures
        ledger.started().run_active,
        ledger.started().cursor is None,
        ledger.started().advance_result() == Err::<AdvanceResult, InvalidTransition>(
            InvalidTransition::NoActiveMilestone,
        ),
        ledger.started().advanced(measured) == ledger.started(),
{
}

/// From a cursor at `c`, closing `k` milestones moves the cursor to `c + k`
/// while milestones remain and ends the run exactly when the last one is
/// closed. Each call but the last answers `Continued`, the last of the run
/// `Finished`. The milestones passed hold their measured times and deltas;
/// the others are untouched.
pub proof fn law_advances_walk_the_ledger(ledger: LedgerView, times: Seq<Time>)
    requires
        ledger.wf(),
        ledger.run_active,
        ledger.cursor is Some,
        ledger.cursor->0 + times.len() <= ledger.milestones.len(),
    ensures
        ({
            let c = ledger.cursor->0;
            let n = ledger.milestones.len() as int;
            let k = times.len() as int;
            let after = advanced_through(ledger, times);
            &&& after.wf()
            &&& after.milestones.len() == n
            &&& after.run_active <==> c + k < n
            &&& c + k < n ==> after.cursor == Some(c + k)
            &&& forall|j: int|
                0 <= j < k ==> (#[trigger] advanced_through(ledger, times.take(j))).advance_result()
                    == Ok::<AdvanceResult, InvalidTransition>(
                    if c + j + 1 < n {
                        AdvanceResult::Continued
                    } else {
                        AdvanceResult::Finished
                    },
                )
            &&& forall|i: int|
                c <= i < c + k ==> #[trigger] after.milestones[i] == ledger.milestones[i].passed(
                    times[i - c],
                )
            &&& forall|i: int|
                0 <= i < n && !(c <= i < c + k) ==> #[trigger] after.milestones[i]
                    == ledger.milestones[i]
        }),
    decreases times.len(),
{
    let c = ledger.cursor->0;
    let n = ledger.milestones.len() as int;
    let k = times.len() as int;
    if k > 0 {
        let front = times.drop_last();
        law_advances_walk_the_ledger(ledger, front);
        let before = advanced_through(ledger, front);
        let after = advanced_through(ledger, times);
        assert(after == before.advanced(times.last()));
        assert(before.cursor == Some(c + k - 1));
        assert forall|j: int| 0 <= j < k implies (#[trigger] advanced_through(
            ledger,
            times.take(j),
        )).advance_result() == Ok::<AdvanceResult, InvalidTransition>(
            if c + j + 1 < n {
                AdvanceResult::Continued
            } else {
                AdvanceResult::Finished
            },
        ) by {
            if j < k - 1 {
                assert(times.take(j) =~= front.take(j));
            } else {
                assert(times.take(j) =~= front);
            }
        }
        assert forall|i: int| c <= i < c + k implies #[trigger] after.milestones[i]
            == ledger.milestones[i].passed(times[i - c]) by {
            if i < c + k - 1 {
                assert(front[i - c] == times[i - c]);
            }
        }
    } else {
        assert(times.take(0) =~= times);
    }
}

/// A run over `n > 0` milestones takes exactly `n` calls: the first `n - 1`
/// answer `Continued` and leave the run active, the `n`-th answers
/// `Finished` and ends it. Afterwards each milestone holds its measured time
/// as reference, and as delta that time minus the reference it had before.
pub proof fn law_run_takes_one_advance_per_milestone(ledger: LedgerView, times: Seq<Time>)
    requires
        ledger.wf(),
        !ledger.run_active,
        ledger.milestones.len() > 0,
        times.len() == ledger.milestones.len(),
    ensures
        forall|j: int|
            0 <= j < times.len() ==> (#[trigger] after_run(ledger, times.take(j))).run_active,
        forall|j: int|
            0 <= j < times.len() - 1 ==> (#[trigger] after_run(ledger, times.take(j))).advance_result()
                == Ok::<AdvanceResult, InvalidTransition>(AdvanceResult::Continued),
        after_run(ledger, times.take(times.len() - 1)).advance_result() == Ok::<
            AdvanceResult,
            InvalidTransition,
        >(AdvanceResult::Finished),
        !after_run(ledger, times).run_active,
        after_run(ledger, times).cursor is None,
        after_run(ledger, times).wf(),
        after_run(ledger, times).milestones.len() == ledger.milestones.len(),
        forall|i: int|
            0 <= i < times.len() ==> #[trigger] after_run(ledger, times).milestones[i]
                == ledger.milestones[i].cleared().passed(times[i]),
{
    let started = ledger.started();
    law_advances_walk_the_ledger(started, times);
    assert forall|j: int| 0 <= j < times.len() implies (#[trigger] after_run(
        ledger,
        times.take(j),
    )).run_active by {
        law_advances_walk_the_ledger(started, times.take(j));
    }
}

/// Passing a milestone a second time overwrites: after two runs the delta of
/// each milestone is the second measured time minus the first, whatever the
/// first run's delta was.
pub proof fn law_second_run_overwrites(ledger: LedgerView, first: Seq<Time>, second: Seq<Time>)
    requires
        ledger.wf(),
        !ledger.run_active,
        ledger.milestones.len() > 0,
        first.len() == ledger.milestones.len(),
        second.len() == ledger.milestones.len(),
    ensures
        forall|i: int|
            0 <= i < ledger.milestones.len() ==> #[trigger] after_run(
                after_run(ledger, first),
                second,
            ).milestones[i] == (MilestoneView {
                name: ledger.milestones[i].name,
                reference_time: second[i],
                delta: Some(second[i].total_millis() - first[i].total_millis()),
            }),
{
    law_run_takes_one_advance_per_milestone(ledger, first);
    law_run_takes_one_advance_per_milestone(after_run(ledger, first), second);
}

/// Loading what a ledger holds gives back every name and reference time, in
/// order; only the deltas are dropped.
pub proof fn law_reload_keeps_names_and_times(ledger: LedgerView)
    ensures
        LedgerView::loaded(ledger.milestones).milestones.len() == ledger.milestones.len(),
        forall|i: int|
            0 <= i < ledger.milestones.len() ==> {
                let again = #[trigger] LedgerView::loaded(ledger.milestones).milestones[i];
                &&& again.name == ledger.milestones[i].name
                &&& again.reference_time == ledger.milestones[i].reference_time
                &&& again.delta is None
            },
        LedgerView::loaded(ledger.milestones).milestones == all_cleared(ledger.milestones),
{
}

/// Every event, and every reload, leaves a well-formed timer well formed.
pub proof fn law_timer_keeps_invariant(timer: TimerView, event: Event, now: u64, records: Seq<MilestoneView>)
    requires
        timer.wf(),
    ensures
        timer.next(event, now).wf(),
        timer.reloaded(records).wf(),
{
}

/// During a run a reset is rejected, by event and by reload alike, and so is
/// a save: the timer and its ledger stay exactly as they were, and no
/// records are handed out to be stored.
pub proof fn law_running_rejects_reset_and_save(timer: TimerView, now: u64, records: Seq<MilestoneView>)
    requires
        timer.wf(),
        timer.phase() == Phase::Running,
    ensures
        timer.ledger.run_active,
        timer.next(Event::Reset, now) == timer,
        timer.outcome(Event::Reset) == OutcomeView::Rejected(InvalidTransition::ResetWhileRunning),
        timer.reloaded(records) == timer,
        timer.next(Event::SaveReference, now) == timer,
        timer.outcome(Event::SaveReference) == OutcomeView::Rejected(
            InvalidTransition::SaveWhileRunning,
        ),
{
}

/// Only `Advance` touches the ledger: a tick, a reset request, a save
/// request and a quit leave it as it is, and a tick keeps the phase.
pub proof fn law_only_advance_changes_ledger(timer: TimerView, event: Event, now: u64)
    requires
        timer.wf(),
        event != Event::Advance,
    ensures
        timer.next(event, now).ledger == timer.ledger,
        timer.next(Event::Tick, now).phase() == timer.phase(),
{
}

/// A terminated timer stays terminated: it rejects every event and does not
/// change.
pub proof fn law_terminated_is_final(timer: TimerView, event: Event, now: u64)
    requires
        timer.wf(),
    ensures
        timer.next(Event::Quit, now).phase() == Phase::Terminated,
        timer.terminated ==> timer.next(event, now) == timer && timer.outcome(event)
            == OutcomeView::Rejected(InvalidTransition::Terminated),
{
}

} // verus!
