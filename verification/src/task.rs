use vstd::prelude::*;

use crate::task::keyboard::EventBridge;

pub mod executor;
pub mod keyboard;
pub mod queue;

verus! {

/// Result of driving a suspendable computation one step: either a value is
/// ready, or the computation has arranged to be woken later and suspends.
#[derive(Debug, PartialEq, Eq, Structural)]
pub enum Poll<T> {
    Ready(T),
    Pending,
}

/// The wakeup handle of one task. Invoking it (through
/// [`TaskWaker::wake_task`]) pushes the task's identifier into the executor's
/// ready queue, marking the task eligible to be resumed.
#[derive(Debug, Clone, Copy, PartialEq, Eq, Structural)]
pub struct TaskWaker {
    pub task_id: u64,
}

impl TaskWaker {
    pub fn new(task_id: u64) -> (w: TaskWaker)
        ensures
            w == (TaskWaker { task_id }),
    {
        TaskWaker { task_id }
    }
}

/// An unrecoverable scheduler condition. The embedding kernel halts with a
/// diagnostic when it sees one; there is no safe degraded mode for a
/// scheduler invariant violation.
#[derive(Debug, Clone, Copy, PartialEq, Eq, Structural)]
pub enum FatalError {
    /// A wakeup or a spawn found the ready queue full: wake pressure has
    /// exceeded the configured capacity, and dropping the wakeup would
    /// strand a task forever.
    ReadyQueueFull,
}

/// A suspendable computation, the unit of work the executor schedules.
///
/// `poll` drives the computation one step. It returns `Ready(())` when the
/// computation has finished, or `Pending` after the computation has arranged
/// (by registering `waker` with the event bridge) to be woken once more data
/// arrives. A task suspends only at the bridge; wakeups reach it only
/// through the ready queue, never by running task code in interrupt context.
pub trait Task {
    fn poll(&mut self, waker: &TaskWaker, bridge: &mut EventBridge) -> (p: Poll<()>)
        requires
            old(bridge).wf(),
        ensures
            final(bridge).wf(),
    ;
}

} // verus!
