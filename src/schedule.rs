//! The scheduler's decisions: run a cycle, sleep a fixed interval, repeat,
//! until shutdown is requested.
use vstd::prelude::*;

verus! {

/// What the scheduler is doing.
#[derive(Clone, Copy, Debug, PartialEq, Eq, Structural)]
pub enum SchedulerState {
    CycleRunning,
    Sleeping,
    Stopped,
}

/// What happened since the scheduler last decided.
#[derive(Clone, Copy, Debug, PartialEq, Eq, Structural)]
pub enum SchedulerEvent {
    /// The running cycle has published, or found nothing to publish.
    CycleFinished,
    /// The sleep between cycles is over.
    Woke,
    /// The process is asked to shut down.
    ShutdownRequested,
}

/// What the loop around the scheduler is to do next.
#[derive(Clone, Copy, Debug, PartialEq, Eq, Structural)]
pub enum SchedulerAction {
    /// Start a new cycle.
    RunCycle,
    /// Sleep this many seconds.
    Sleep { secs: u64 },
    /// Keep on with what is under way.
    Continue,
    /// Stop, leaving any pending publish undone.
    Exit,
}

/// Cycles run one after another, a fixed interval apart.
pub struct Scheduler {
    pub interval_secs: u64,
    pub state: SchedulerState,
}

impl Scheduler {
    /// A scheduler about to run its first cycle.
    pub fn new(interval_secs: u64) -> (r: Scheduler)
        ensures
            r.interval_secs == interval_secs,
            r.state == SchedulerState::CycleRunning,
    {
        Scheduler { interval_secs, state: SchedulerState::CycleRunning }
    }

    /// Moves on by `event` and says what to do next: a finished cycle is
    /// followed by a sleep of the interval, the end of a sleep by the next
    /// cycle, and a shutdown request by stopping for good; an event that does
    /// not fit the state changes nothing. A cycle is only ever started after
    /// the sleep that follows the previous one, so cycles never overlap.
    pub fn next_action(&mut self, event: SchedulerEvent) -> (r: SchedulerAction)
        ensures
            final(self).interval_secs == old(self).interval_secs,
            old(self).state == SchedulerState::Stopped ==> final(self).state == SchedulerState::Stopped
                && r == SchedulerAction::Exit,
            event == SchedulerEvent::ShutdownRequested ==> final(self).state
                == SchedulerState::Stopped && r == SchedulerAction::Exit,
            old(self).state == SchedulerState::CycleRunning && event == SchedulerEvent::CycleFinished
                ==> final(self).state == SchedulerState::Sleeping && r == (SchedulerAction::Sleep {
                secs: old(self).interval_secs,
            }),
            old(self).state == SchedulerState::Sleeping && event == SchedulerEvent::Woke
                ==> final(self).state == SchedulerState::CycleRunning && r
                == SchedulerAction::RunCycle,
            (old(self).state == SchedulerState::CycleRunning && event == SchedulerEvent::Woke) || (
            old(self).state == SchedulerState::Sleeping && event == SchedulerEvent::CycleFinished)
                ==> final(self).state == old(self).state && r == SchedulerAction::Continue,
            r == SchedulerAction::RunCycle ==> old(self).state == SchedulerState::Sleeping,
            r is Sleep ==> old(self).state == SchedulerState::CycleRunning,
    {
        match (self.state, event) {
            (SchedulerState::Stopped, _) | (_, SchedulerEvent::ShutdownRequested) => {
                self.state = SchedulerState::Stopped;
                SchedulerAction::Exit
            },
            (SchedulerState::CycleRunning, SchedulerEvent::CycleFinished) => {
                self.state = SchedulerState::Sleeping;
                SchedulerAction::Sleep { secs: self.interval_secs }
            },
            (SchedulerState::Sleeping, SchedulerEvent::Woke) => {
                self.state = SchedulerState::CycleRunning;
                SchedulerAction::RunCycle
            },
            _ => SchedulerAction::Continue,
        }
    }
}

} // verus!
