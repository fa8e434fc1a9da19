use hotlap::clock::Time;
use hotlap::ledger::{
    clone_milestones, pace, AdvanceResult, InvalidTransition, Ledger, Milestone, Pace,
};

fn at(s: i32, ms: i32) -> Time {
    Time { h: 0, m: 0, s, ms }
}

fn milestone(name: &str, reference_time: Time, delta: Option<i64>) -> Milestone {
    Milestone { name: String::from(name), reference_time, delta }
}

fn three() -> Vec<Milestone> {
    vec![
        milestone("A", at(10, 0), Some(77)),
        milestone("B", at(25, 0), None),
        milestone("C", at(40, 500), Some(-3)),
    ]
}

#[test]
fn load_takes_names_and_times_and_drops_deltas() {
    let ledger = Ledger::load(three());
    assert_eq!(ledger.len(), 3);
    assert!(!ledger.is_running());
    assert_eq!(ledger.cursor(), None);
    assert_eq!(
        *ledger.milestones(),
        vec![
            milestone("A", at(10, 0), None),
            milestone("B", at(25, 0), None),
            milestone("C", at(40, 500), None),
        ]
    );
}

#[test]
fn load_of_nothing_is_an_empty_ledger() {
    let ledger = Ledger::load(Vec::new());
    assert_eq!(ledger.len(), 0);
    assert!(!ledger.is_running());
    assert_eq!(ledger.cursor(), None);
    assert!(ledger.milestones().is_empty());
}

#[test]
fn start_run_puts_the_cursor_on_the_first_milestone() {
    let mut ledger = Ledger::load(three());
    assert_eq!(ledger.start_run(), Ok(()));
    assert!(ledger.is_running());
    assert_eq!(ledger.cursor(), Some(0));
    assert_eq!(ledger.len(), 3);
}

#[test]
fn start_run_during_a_run_is_rejected() {
    let mut ledger = Ledger::load(three());
    ledger.start_run().unwrap();
    ledger.advance(at(9, 0)).unwrap();
    let before = ledger.snapshot();
    assert_eq!(ledger.start_run(), Err(InvalidTransition::RunAlreadyActive));
    assert_eq!(ledger.snapshot(), before);
}

#[test]
fn empty_ledger_runs_without_a_cursor_and_rejects_advance() {
    let mut ledger = Ledger::load(Vec::new());
    assert_eq!(ledger.start_run(), Ok(()));
    assert!(ledger.is_running());
    assert_eq!(ledger.cursor(), None);
    for _ in 0..3 {
        assert_eq!(ledger.advance(at(1, 0)), Err(InvalidTransition::NoActiveMilestone));
        assert!(ledger.is_running());
        assert_eq!(ledger.cursor(), None);
        assert_eq!(ledger.len(), 0);
    }
}

#[test]
fn advance_without_a_run_is_rejected() {
    let mut ledger = Ledger::load(three());
    let before = ledger.snapshot();
    assert_eq!(ledger.advance(at(1, 0)), Err(InvalidTransition::NoActiveRun));
    assert_eq!(ledger.snapshot(), before);
}

#[test]
fn run_takes_one_advance_per_milestone() {
    let mut ledger = Ledger::load(three());
    ledger.start_run().unwrap();
    assert_eq!(ledger.advance(at(9, 800)), Ok(AdvanceResult::Continued));
    assert!(ledger.is_running());
    assert_eq!(ledger.cursor(), Some(1));
    assert_eq!(ledger.advance(at(26, 0)), Ok(AdvanceResult::Continued));
    assert!(ledger.is_running());
    assert_eq!(ledger.cursor(), Some(2));
    assert_eq!(ledger.advance(at(40, 500)), Ok(AdvanceResult::Finished));
    assert!(!ledger.is_running());
    assert_eq!(ledger.cursor(), None);
    assert_eq!(
        *ledger.milestones(),
        vec![
            milestone("A", at(9, 800), Some(-200)),
            milestone("B", at(26, 0), Some(1000)),
            milestone("C", at(40, 500), Some(0)),
        ]
    );
    assert_eq!(ledger.advance(at(50, 0)), Err(InvalidTransition::NoActiveRun));
}

#[test]
fn run_over_many_milestones_ends_only_after_the_last() {
    let n: usize = 25;
    let mut records = Vec::new();
    for i in 0..n {
        records.push(milestone(&format!("M{}", i), at(i as i32, 0), None));
    }
    let mut ledger = Ledger::load(records);
    ledger.start_run().unwrap();
    for i in 0..n {
        assert!(ledger.is_running());
        assert_eq!(ledger.cursor(), Some(i));
        let result = ledger.advance(at(i as i32, 1)).unwrap();
        if i + 1 < n {
            assert_eq!(result, AdvanceResult::Continued);
        } else {
            assert_eq!(result, AdvanceResult::Finished);
        }
    }
    assert!(!ledger.is_running());
    for m in ledger.milestones() {
        assert_eq!(m.delta, Some(1));
    }
}

#[test]
fn deltas_appear_from_left_to_right_during_a_run() {
    let mut ledger = Ledger::load(three());
    ledger.start_run().unwrap();
    ledger.advance(at(12, 0)).unwrap();
    let deltas: Vec<Option<i64>> = ledger.milestones().iter().map(|m| m.delta).collect();
    assert_eq!(deltas, vec![Some(2000), None, None]);
    ledger.advance(at(20, 0)).unwrap();
    let deltas: Vec<Option<i64>> = ledger.milestones().iter().map(|m| m.delta).collect();
    assert_eq!(deltas, vec![Some(2000), Some(-5000), None]);
}

#[test]
fn second_run_overwrites_the_delta() {
    let mut ledger = Ledger::load(vec![milestone("Lap", at(10, 0), None)]);
    ledger.start_run().unwrap();
    assert_eq!(ledger.advance(at(12, 0)), Ok(AdvanceResult::Finished));
    assert_eq!(*ledger.milestones(), vec![milestone("Lap", at(12, 0), Some(2000))]);
    ledger.start_run().unwrap();
    assert_eq!(*ledger.milestones(), vec![milestone("Lap", at(12, 0), None)]);
    assert_eq!(ledger.advance(at(11, 500)), Ok(AdvanceResult::Finished));
    assert_eq!(*ledger.milestones(), vec![milestone("Lap", at(11, 500), Some(-500))]);
}

#[test]
fn advance_takes_times_that_are_no_clock_readings() {
    let mut ledger = Ledger::load(vec![milestone(
        "Odd",
        Time { h: i32::MIN, m: i32::MIN, s: i32::MIN, ms: i32::MIN },
        None,
    )]);
    ledger.start_run().unwrap();
    let top = Time { h: i32::MAX, m: i32::MAX, s: i32::MAX, ms: i32::MAX };
    assert_eq!(ledger.advance(top), Ok(AdvanceResult::Finished));
    assert_eq!(ledger.milestones()[0].delta, Some(3_661_001 * (u32::MAX as i64)));
    assert_eq!(ledger.milestones()[0].reference_time, top);
}

#[test]
fn reset_reloads_and_clears_deltas() {
    let mut ledger = Ledger::load(vec![milestone("Lap", at(10, 0), None)]);
    ledger.start_run().unwrap();
    ledger.advance(at(12, 0)).unwrap();
    assert_eq!(ledger.reset(three()), Ok(()));
    assert_eq!(ledger.len(), 3);
    assert!(!ledger.is_running());
    assert_eq!(ledger.cursor(), None);
    assert!(ledger.milestones().iter().all(|m| m.delta.is_none()));
    assert_eq!(ledger.milestones()[2].reference_time, at(40, 500));
}

#[test]
fn reset_during_a_run_is_rejected_and_changes_nothing() {
    let mut ledger = Ledger::load(three());
    ledger.start_run().unwrap();
    ledger.advance(at(9, 0)).unwrap();
    let before = ledger.snapshot();
    assert_eq!(
        ledger.reset(vec![milestone("Other", at(1, 0), None)]),
        Err(InvalidTransition::ResetWhileRunning)
    );
    assert_eq!(ledger.snapshot(), before);
    assert_eq!(before.current_index, Some(1));
    assert!(before.running);
    assert_eq!(before.milestones[0], milestone("A", at(9, 0), Some(-1000)));
}

#[test]
fn reloading_what_the_ledger_holds_keeps_names_and_times() {
    let mut ledger = Ledger::load(three());
    ledger.start_run().unwrap();
    ledger.advance(at(9, 0)).unwrap();
    ledger.advance(at(19, 0)).unwrap();
    ledger.advance(at(29, 0)).unwrap();
    let saved = clone_milestones(ledger.milestones());
    assert_eq!(saved, *ledger.milestones());
    let again = Ledger::load(saved);
    assert_eq!(again.len(), ledger.len());
    for (a, b) in again.milestones().iter().zip(ledger.milestones().iter()) {
        assert_eq!(a.name, b.name);
        assert_eq!(a.reference_time, b.reference_time);
        assert_eq!(a.delta, None);
    }
}

#[test]
fn snapshot_copies_the_state() {
    let mut ledger = Ledger::load(three());
    let idle = ledger.snapshot();
    assert!(!idle.running);
    assert_eq!(idle.current_index, None);
    assert_eq!(idle.milestones, *ledger.milestones());
    ledger.start_run().unwrap();
    let running = ledger.snapshot();
    assert!(running.running);
    assert_eq!(running.current_index, Some(0));
    assert_ne!(running, idle);
}

#[test]
fn pace_goes_by_the_sign() {
    assert_eq!(pace(-200), Pace::Faster);
    assert_eq!(pace(i64::MIN), Pace::Faster);
    assert_eq!(pace(0), Pace::Level);
    assert_eq!(pace(1), Pace::Slower);
    assert_eq!(pace(i64::MAX), Pace::Slower);
}
