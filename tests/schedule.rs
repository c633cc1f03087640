use cold_start_metrics::cycle::CYCLE_INTERVAL_SECS;
use cold_start_metrics::schedule::{Scheduler, SchedulerAction, SchedulerEvent, SchedulerState};

#[test]
fn cycles_alternate_with_sleeps() {
    let mut s = Scheduler::new(CYCLE_INTERVAL_SECS);
    assert_eq!(s.state, SchedulerState::CycleRunning);
    for _ in 0..3 {
        assert_eq!(s.next_action(SchedulerEvent::CycleFinished), SchedulerAction::Sleep { secs: 900 });
        assert_eq!(s.state, SchedulerState::Sleeping);
        assert_eq!(s.next_action(SchedulerEvent::Woke), SchedulerAction::RunCycle);
        assert_eq!(s.state, SchedulerState::CycleRunning);
    }
}

#[test]
fn shutdown_stops_for_good() {
    let mut s = Scheduler::new(5);
    assert_eq!(s.next_action(SchedulerEvent::ShutdownRequested), SchedulerAction::Exit);
    assert_eq!(s.state, SchedulerState::Stopped);
    assert_eq!(s.next_action(SchedulerEvent::Woke), SchedulerAction::Exit);
    assert_eq!(s.next_action(SchedulerEvent::CycleFinished), SchedulerAction::Exit);
    assert_eq!(s.state, SchedulerState::Stopped);
}

#[test]
fn shutdown_while_sleeping() {
    let mut s = Scheduler::new(5);
    s.next_action(SchedulerEvent::CycleFinished);
    assert_eq!(s.next_action(SchedulerEvent::ShutdownRequested), SchedulerAction::Exit);
    assert_eq!(s.state, SchedulerState::Stopped);
}

#[test]
fn out_of_turn_events_change_nothing() {
    let mut s = Scheduler::new(7);
    assert_eq!(s.next_action(SchedulerEvent::Woke), SchedulerAction::Continue);
    assert_eq!(s.state, SchedulerState::CycleRunning);
    s.next_action(SchedulerEvent::CycleFinished);
    assert_eq!(s.next_action(SchedulerEvent::CycleFinished), SchedulerAction::Continue);
    assert_eq!(s.state, SchedulerState::Sleeping);
    assert_eq!(s.interval_secs, 7);
}
