//! The periodic flush scheduler, as a state machine: the runner feeds it
//! timer ticks and flush results and performs the actions it returns.

use vstd::prelude::*;

use crate::flush::FlushError;

verus! {

/// Milliseconds between two scheduled flushes.
pub const FLUSH_INTERVAL_MS: u64 = 1000;

/// Why the scheduler stopped.
#[derive(Debug)]
pub enum MonitorError {
    IO(std::io::Error),
}

/// Whether a flush is in flight.
#[derive(Debug, Clone, Copy, PartialEq, Eq, Structural)]
pub enum MonitorState {
    Idle,
    Running,
}

/// What happened since the last step.
#[derive(Debug)]
pub enum MonitorEvent {
    /// The interval elapsed.
    Tick,
    /// The flush that was started has finished.
    FlushDone(Result<(), FlushError>),
}

/// What the runner does next.
#[derive(Debug)]
pub enum MonitorAction {
    /// Start a flush.
    StartFlush,
    /// Report a failed flush to the diagnostic sink, then wait.
    Report(FlushError),
    /// Wait for the next event.
    Wait,
}

/// The state after `event` in `state`.
pub open spec fn next_state(state: MonitorState, event: MonitorEvent) -> MonitorState {
    match (state, event) {
        (MonitorState::Idle, MonitorEvent::Tick) => MonitorState::Running,
        (MonitorState::Running, MonitorEvent::FlushDone(_)) => MonitorState::Idle,
        (s, _) => s,
    }
}

/// The action for `event` in `state`: a tick starts a flush unless one is in
/// flight; a failed flush is reported, and nothing stops the loop.
pub open spec fn action_for(state: MonitorState, event: MonitorEvent, a: MonitorAction) -> bool {
    match (state, event) {
        (MonitorState::Idle, MonitorEvent::Tick) => a is StartFlush,
        (MonitorState::Running, MonitorEvent::FlushDone(Err(e))) => a == MonitorAction::Report(e),
        _ => a is Wait,
    }
}

/// The scheduler of one dispatcher.
#[derive(Debug)]
pub struct Monitor {
    pub state: MonitorState,
}

impl Monitor {
    /// A scheduler with no flush in flight.
    pub fn new() -> (r: Monitor)
        ensures
            r.state == MonitorState::Idle,
    {
        Monitor { state: MonitorState::Idle }
    }

    /// Takes one event and returns what to do.
    pub fn step(&mut self, event: MonitorEvent) -> (r: MonitorAction)
        ensures
            final(self).state == next_state(old(self).state, event),
            action_for(old(self).state, event, r),
    {
        match self.state {
            MonitorState::Idle => match event {
                MonitorEvent::Tick => {
                    self.state = MonitorState::Running;
                    MonitorAction::StartFlush
                },
                MonitorEvent::FlushDone(_) => MonitorAction::Wait,
            },
            MonitorState::Running => match event {
                MonitorEvent::Tick => MonitorAction::Wait,
                MonitorEvent::FlushDone(result) => {
                    self.state = MonitorState::Idle;
                    match result {
                        Ok(()) => MonitorAction::Wait,
                        Err(e) => MonitorAction::Report(e),
                    }
                },
            },
        }
    }
}

/// A failed flush never stops the scheduler: whatever a flush returns, the
/// next tick starts another.
pub proof fn lemma_failure_keeps_running(result: Result<(), FlushError>, a: MonitorAction)
    ensures
        next_state(MonitorState::Running, MonitorEvent::FlushDone(result)) == MonitorState::Idle,
        action_for(
            next_state(MonitorState::Running, MonitorEvent::FlushDone(result)),
            MonitorEvent::Tick,
            a,
        ) <==> a is StartFlush,
{
}

} // verus!
