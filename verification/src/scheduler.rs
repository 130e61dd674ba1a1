//! Decision rules of the periodic broadcast scheduler.
//!
//! One scheduler task runs per `start` cycle. The embedding application owns
//! the timer, the cancellation source, and the shared stop-signal flag; at
//! every wakeup it observes the flag, calls `scheduler_step`, stores the
//! returned flag value back, and performs the returned action. Cancellation
//! is advisory: the flag is checked once per tick, so cancellation latency is
//! bounded by the broadcast interval.

use vstd::prelude::*;

verus! {

/// What woke the scheduler.
#[derive(Clone, Copy, Debug, PartialEq, Eq, Structural)]
pub enum SchedulerEvent {
    /// The broadcast interval elapsed.
    IntervalElapsed,
    /// An external cancellation request arrived.
    CancelRequested,
}

/// What the scheduler does in response.
#[derive(Clone, Copy, Debug, PartialEq, Eq, Structural)]
pub enum SchedulerAction {
    /// Publish one self-announcement and keep running.
    Broadcast,
    /// Terminate the scheduler task.
    Terminate,
}

/// One scheduler step: the stop signal's new value and the action to perform.
#[derive(Clone, Copy, Debug, PartialEq, Eq, Structural)]
pub struct SchedulerStep {
    pub stop_signal: bool,
    pub action: SchedulerAction,
}

/// The scheduler's decision rule: on an elapsed interval, terminate if the
/// stop signal is set and broadcast otherwise; on a cancellation request, set
/// the stop signal and terminate.
pub open spec fn spec_scheduler_step(stop_signal: bool, event: SchedulerEvent) -> SchedulerStep {
    match event {
        SchedulerEvent::IntervalElapsed => {
            if stop_signal {
                SchedulerStep { stop_signal, action: SchedulerAction::Terminate }
            } else {
                SchedulerStep { stop_signal, action: SchedulerAction::Broadcast }
            }
        },
        SchedulerEvent::CancelRequested => (SchedulerStep {
            stop_signal: true,
            action: SchedulerAction::Terminate,
        }),
    }
}

/// Decides one wakeup of the scheduler task, given the observed value of the
/// shared stop signal.
pub fn scheduler_step(stop_signal: bool, event: SchedulerEvent) -> (r: SchedulerStep)
    ensures
        r == spec_scheduler_step(stop_signal, event),
{
    match event {
        SchedulerEvent::IntervalElapsed => {
            if stop_signal {
                SchedulerStep { stop_signal, action: SchedulerAction::Terminate }
            } else {
                SchedulerStep { stop_signal, action: SchedulerAction::Broadcast }
            }
        },
        SchedulerEvent::CancelRequested => SchedulerStep {
            stop_signal: true,
            action: SchedulerAction::Terminate,
        },
    }
}

/// Whether a broadcast is due: the fixed interval has elapsed since the last
/// one.
pub fn broadcast_due(elapsed: u64, interval: u64) -> (r: bool)
    ensures
        r == (elapsed >= interval),
{
    elapsed >= interval
}

/// Once the stop signal is set, no further step ever broadcasts: every event
/// terminates the task and the signal stays set.
pub proof fn lemma_stopped_scheduler_never_broadcasts(event: SchedulerEvent)
    ensures
        spec_scheduler_step(true, event).action == SchedulerAction::Terminate,
        spec_scheduler_step(true, event).stop_signal,
{
}

} // verus!
