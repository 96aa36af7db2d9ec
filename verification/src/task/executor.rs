//! The cooperative task executor: a registry of live tasks, a bounded ready
//! queue of task identifiers, and a cache of per-task wakeup handles.
//!
//! [`Executor::run_ready_tasks`] drains the ready queue, resuming each named
//! task once; a task that completes leaves the registry and the cache, and a
//! later wakeup naming it has no effect. The embedding kernel runs the loop
//! `run_ready_tasks`, then — with interrupts disabled — `is_idle`, halting
//! the processor only when the check says so and re-enabling interrupts
//! either way. Disabling interrupts makes the check and the halt atomic with
//! respect to interrupt-driven wakeups; [`lemma_wakeup_prevents_halt`] states
//! why no wakeup is slept through.

use vstd::prelude::*;

use crossbeam_queue::ArrayQueue;

use crate::task::keyboard::EventBridge;
use crate::task::queue::{
    task_queue_capacity, task_queue_ids, task_queue_is_empty, task_queue_new, task_queue_pop,
    task_queue_push,
};
use crate::task::{FatalError, Poll, Task, TaskWaker};

verus! {

/// The ready-queue capacity the kernel configures.
pub const TASK_QUEUE_SIZE: usize = 255;

/// The ready queue after a wakeup for `task_id`: the identifier joins the
/// back of the queue when there is room; a full queue is left unchanged (and
/// the wakeup reports the fatal overflow).
pub open spec fn ready_after_wake(ready: Seq<u64>, capacity: nat, task_id: u64) -> Seq<u64> {
    if ready.len() < capacity {
        ready.push(task_id)
    } else {
        ready
    }
}

/// No lost wakeup at the scheduler: a wakeup that lands (with room) before
/// the executor's idle check leaves the ready queue non-empty, so the check
/// — made with interrupts disabled, which keeps anything from intervening
/// between it and the halt — tells the executor to drain again instead of
/// halting.
pub proof fn lemma_wakeup_prevents_halt(ready: Seq<u64>, capacity: nat, task_id: u64)
    requires
        ready.len() < capacity,
    ensures
        ready_after_wake(ready, capacity, task_id).len() > 0,
{
}

/// Bounded memory: a wakeup never grows the ready queue beyond its capacity.
pub proof fn lemma_wake_bounded(ready: Seq<u64>, capacity: nat, task_id: u64)
    requires
        ready.len() <= capacity,
    ensures
        ready_after_wake(ready, capacity, task_id).len() <= capacity,
{
}

/// Settles one resumption, from the `Poll` the task's own `poll` returned: a
/// task that reported `Pending` goes back into its registry slot, its cached
/// wakeup handle untouched; one that completed leaves both its registry slot
/// and its cache slot empty (the computation is dropped, never to be polled
/// again).
fn settle_resumption<T: Task>(
    outcome: Poll<()>,
    task: T,
    slot: &mut Option<T>,
    cached: &mut Option<TaskWaker>,
)
    ensures
        outcome is Pending ==> *final(slot) == Some(task) && *final(cached) == *old(cached),
        outcome is Ready ==> *final(slot) is None && *final(cached) is None,
{
    match outcome {
        Poll::Pending => {
            *slot = Some(task);
        },
        Poll::Ready(()) => {
            *slot = None;
            *cached = None;
        },
    }
}

/// The cooperative executor. Task identifiers are assigned monotonically at
/// spawn time and index the registry directly; a completed task's slot is
/// cleared, so an identifier is never reused for a different computation.
pub struct Executor<T> {
    tasks: Vec<Option<T>>,
    task_queue: ArrayQueue<u64>,
    waker_cache: Vec<Option<TaskWaker>>,
}

impl<T> Executor<T> {
    /// The registry: slot `i` holds the live task with identifier `i`, or
    /// nothing once that task has completed.
    pub closed spec fn registry(&self) -> Seq<Option<T>> {
        self.tasks@
    }

    /// The ready queue's identifiers, oldest first.
    pub closed spec fn ready(&self) -> Seq<u64> {
        task_queue_ids(self.task_queue)
    }

    /// The fixed capacity of the ready queue.
    pub closed spec fn ready_capacity(&self) -> nat {
        task_queue_capacity(self.task_queue)
    }

    /// The wakeup-handle cache: slot `i` holds the handle built for task `i`
    /// on its first resumption, reused across suspensions.
    pub closed spec fn cache(&self) -> Seq<Option<TaskWaker>> {
        self.waker_cache@
    }

    /// The executor's invariant: one cache slot per registry slot, a cached
    /// handle names its own task and exists only while the task is live, and
    /// the ready queue stays within its capacity.
    pub open spec fn wf(&self) -> bool {
        &&& self.cache().len() == self.registry().len()
        &&& self.ready().len() <= self.ready_capacity()
        &&& self.ready_capacity() >= 1
        &&& forall|i: int|
            0 <= i < self.cache().len() ==> ((#[trigger] self.cache()[i]) matches Some(w)
                ==> w.task_id == i)
        &&& forall|i: int|
            0 <= i < self.cache().len() ==> ((#[trigger] self.cache()[i]) is Some
                ==> self.registry()[i] is Some)
    }
}

impl<T: Task> Executor<T> {
    /// An executor with no tasks and the kernel's ready-queue capacity.
    pub fn new() -> (e: Executor<T>)
        ensures
            e.wf(),
            e.registry() == Seq::<Option<T>>::empty(),
            e.cache() == Seq::<Option<TaskWaker>>::empty(),
            e.ready() == Seq::<u64>::empty(),
            e.ready_capacity() == TASK_QUEUE_SIZE,
    {
        Executor::with_queue_capacity(TASK_QUEUE_SIZE)
    }

    /// An executor with no tasks and the given ready-queue capacity.
    pub fn with_queue_capacity(capacity: usize) -> (e: Executor<T>)
        requires
            1 <= capacity < usize::MAX / 2,
        ensures
            e.wf(),
            e.registry() == Seq::<Option<T>>::empty(),
            e.cache() == Seq::<Option<TaskWaker>>::empty(),
            e.ready() == Seq::<u64>::empty(),
            e.ready_capacity() == capacity,
    {
        Executor { tasks: Vec::new(), task_queue: task_queue_new(capacity), waker_cache: Vec::new() }
    }

    /// Registers `task` under the next identifier and marks it ready to run.
    /// Identifiers are allocated monotonically, so the slot is always free;
    /// the one fatal condition is a ready queue already full at spawn time
    /// (the configured capacity is too small for the workload), in which
    /// case nothing is registered.
    pub fn spawn(&mut self, task: T) -> (r: Result<u64, FatalError>)
        requires
            old(self).wf(),
        ensures
            final(self).wf(),
            final(self).ready_capacity() == old(self).ready_capacity(),
            old(self).ready().len() < old(self).ready_capacity() ==> {
                &&& r == Ok::<u64, FatalError>(old(self).registry().len() as u64)
                &&& final(self).registry() == old(self).registry().push(Some(task))
                &&& final(self).cache() == old(self).cache().push(None::<TaskWaker>)
                &&& final(self).ready() == old(self).ready().push(
                    old(self).registry().len() as u64,
                )
            },
            old(self).ready().len() >= old(self).ready_capacity() ==> {
                &&& r == Err::<u64, FatalError>(FatalError::ReadyQueueFull)
                &&& final(self).registry() == old(self).registry()
                &&& final(self).cache() == old(self).cache()
                &&& final(self).ready() == old(self).ready()
            },
    {
        let task_id = self.tasks.len() as u64;
        match task_queue_push(&mut self.task_queue, task_id) {
            Err(_) => Err(FatalError::ReadyQueueFull),
            Ok(()) => {
                self.tasks.push(Some(task));
                self.waker_cache.push(None);
                Ok(task_id)
            },
        }
    }

    /// Marks the task named `task_id` ready to run: the wakeup-handle path,
    /// callable from any context, interrupt context included. A full ready
    /// queue is fatal — dropping the wakeup silently would strand the task
    /// forever. A stale identifier (its task already completed) is accepted;
    /// the drain loop skips it.
    pub fn wake(&mut self, task_id: u64) -> (r: Result<(), FatalError>)
        ensures
            final(self).registry() == old(self).registry(),
            final(self).cache() == old(self).cache(),
            final(self).ready_capacity() == old(self).ready_capacity(),
            final(self).ready() == ready_after_wake(
                old(self).ready(),
                old(self).ready_capacity(),
                task_id,
            ),
            r is Ok <==> old(self).ready().len() < old(self).ready_capacity(),
            r is Err ==> r == Err::<(), FatalError>(FatalError::ReadyQueueFull),
            old(self).wf() ==> final(self).wf(),
    {
        match task_queue_push(&mut self.task_queue, task_id) {
            Ok(()) => Ok(()),
            Err(_) => Err(FatalError::ReadyQueueFull),
        }
    }

    /// The executor's idle check, run by the embedding loop with interrupts
    /// disabled: true exactly when no task is ready, in which case the loop
    /// atomically re-enables interrupts and halts until the next interrupt.
    pub fn is_idle(&self) -> (r: bool)
        ensures
            r == (self.ready().len() == 0),
    {
        task_queue_is_empty(&self.task_queue)
    }

    /// Whether the task named `task_id` is live in the registry.
    pub fn has_task(&self, task_id: u64) -> (r: bool)
        ensures
            r == (task_id < self.registry().len() && self.registry()[task_id as int] is Some),
    {
        task_id < self.tasks.len() as u64 && self.tasks[task_id as usize].is_some()
    }

    /// Whether a wakeup handle is cached for the task named `task_id`.
    pub fn has_cached_waker(&self, task_id: u64) -> (r: bool)
        ensures
            r == (task_id < self.cache().len() && self.cache()[task_id as int] is Some),
    {
        task_id < self.waker_cache.len() as u64 && self.waker_cache[task_id as usize].is_some()
    }

    /// The live task named `task_id`, if any.
    pub fn task(&self, task_id: u64) -> (t: Option<&T>)
        ensures
            t is Some <==> (task_id < self.registry().len() && self.registry()[task_id as int]
                is Some),
            t matches Some(x) ==> self.registry()[task_id as int] == Some(*x),
    {
        if task_id < self.tasks.len() as u64 {
            match &self.tasks[task_id as usize] {
                Some(task) => Some(task),
                None => None,
            }
        } else {
            None
        }
    }

    /// Drains the ready queue, resuming each named task once, in queue
    /// order, and returns the identifiers of the tasks that completed during
    /// this drain. A completed task's registry and cache slots end empty, so
    /// its identifier names nothing afterwards; every live task the queue
    /// named and that did not complete keeps its registry slot, with its
    /// cached wakeup handle in place. An identifier whose task already
    /// completed is skipped, so a duplicate or late wakeup has no effect on
    /// the registry or the cache; tasks not named in the queue are untouched.
    pub fn run_ready_tasks(&mut self, bridge: &mut EventBridge) -> (completed: Vec<u64>)
        requires
            old(self).wf(),
            old(bridge).wf(),
        ensures
            final(self).wf(),
            final(bridge).wf(),
            final(self).ready().len() == 0,
            final(self).ready_capacity() == old(self).ready_capacity(),
            final(self).registry().len() == old(self).registry().len(),
            forall|i: int|
                0 <= i < old(self).registry().len() ==> ((#[trigger] final(self).registry()[i])
                    is Some ==> old(self).registry()[i] is Some),
            forall|i: int|
                0 <= i < old(self).registry().len() && !old(self).ready().contains(i as u64)
                    ==> final(self).registry()[i] == old(self).registry()[i]
                        && final(self).cache()[i] == old(self).cache()[i],
            forall|i: int|
                0 <= i < old(self).registry().len() ==> ((#[trigger] final(self).cache()[i])
                    is Some ==> (old(self).cache()[i] is Some || old(self).ready().contains(
                    i as u64,
                ))),
            // the returned identifiers are exactly the completions: each was
            // a live task the queue named, and both its slots end empty
            forall|k: int|
                0 <= k < completed@.len() ==> {
                    let id = #[trigger] completed@[k];
                    &&& (id as int) < old(self).registry().len()
                    &&& old(self).ready().contains(id)
                    &&& old(self).registry()[id as int] is Some
                    &&& final(self).registry()[id as int] is None
                    &&& final(self).cache()[id as int] is None
                },
            // every live task the queue named and that is not returned was
            // resumed and kept: its registry slot is live and its wakeup
            // handle cached
            forall|i: int|
                #![trigger old(self).registry()[i]]
                0 <= i < old(self).registry().len() && old(self).ready().contains(i as u64)
                    && old(self).registry()[i] is Some && !completed@.contains(i as u64)
                    ==> final(self).registry()[i] is Some && final(self).cache()[i] is Some,
    {
        let mut completed: Vec<u64> = Vec::new();
        let ghost orig = self.ready();
        let ghost orig_registry = self.registry();
        let ghost orig_cache = self.cache();
        let ghost orig_capacity = self.ready_capacity();
        let ghost mut consumed: int = 0;
        loop
            invariant
                self.wf(),
                bridge.wf(),
                self.ready_capacity() == orig_capacity,
                self.registry().len() == orig_registry.len(),
                0 <= consumed <= orig.len(),
                self.ready() == orig.subrange(consumed, orig.len() as int),
                forall|i: int|
                    0 <= i < orig_registry.len() ==> ((#[trigger] self.registry()[i]) is Some
                        ==> orig_registry[i] is Some),
                forall|i: int|
                    #![trigger orig_registry[i]]
                    0 <= i < orig_registry.len() && !orig.contains(i as u64) ==> self.registry()[i]
                        == orig_registry[i],
                forall|i: int|
                    #![trigger orig_cache[i]]
                    0 <= i < orig_registry.len() && !orig.contains(i as u64) ==> self.cache()[i]
                        == orig_cache[i],
                forall|i: int|
                    0 <= i < orig_registry.len() ==> ((#[trigger] self.cache()[i]) is Some
                        ==> (orig_cache[i] is Some || orig.contains(i as u64))),
                forall|k: int|
                    0 <= k < completed@.len() ==> {
                        let id = #[trigger] completed@[k];
                        &&& (id as int) < orig_registry.len()
                        &&& orig.contains(id)
                        &&& orig_registry[id as int] is Some
                        &&& self.registry()[id as int] is None
                        &&& self.cache()[id as int] is None
                    },
                forall|i: int|
                    #![trigger orig_registry[i]]
                    0 <= i < orig_registry.len() && orig.subrange(0, consumed).contains(i as u64)
                        && orig_registry[i] is Some && !completed@.contains(i as u64)
                        ==> self.registry()[i] is Some && self.cache()[i] is Some,
                forall|i: int|
                    #![trigger orig_registry[i]]
                    0 <= i < orig_registry.len() && orig_registry[i] is Some && self.registry()[i]
                        is None ==> completed@.contains(i as u64),
            ensures
                self.ready().len() == 0,
                forall|k: int|
                    0 <= k < completed@.len() ==> {
                        let id = #[trigger] completed@[k];
                        &&& (id as int) < orig_registry.len()
                        &&& orig.contains(id)
                        &&& orig_registry[id as int] is Some
                        &&& self.registry()[id as int] is None
                        &&& self.cache()[id as int] is None
                    },
                forall|i: int|
                    #![trigger orig_registry[i]]
                    0 <= i < orig_registry.len() && orig.contains(i as u64) && orig_registry[i]
                        is Some && !completed@.contains(i as u64) ==> self.registry()[i] is Some
                        && self.cache()[i] is Some,
            decreases self.ready().len(),
        {
            let popped = task_queue_pop(&mut self.task_queue);
            match popped {
                None => {
                    proof {
                        assert(orig.subrange(0, consumed) =~= orig);
                    }
                    break ;
                },
                Some(task_id) => {
                    proof {
                        assert(task_id == orig[consumed]);
                        assert(orig.contains(task_id));
                        assert(orig.subrange(consumed, orig.len() as int).drop_first()
                            =~= orig.subrange(consumed + 1, orig.len() as int));
                        assert(forall|j: int|
                            #![trigger orig.subrange(0, consumed + 1)[j]]
                            0 <= j < consumed + 1 ==> orig.subrange(0, consumed + 1)[j] == (
                            if j < consumed {
                                orig.subrange(0, consumed)[j]
                            } else {
                                task_id
                            }));
                        consumed = consumed + 1;
                    }
                    if task_id < self.tasks.len() as u64 {
                        let index = task_id as usize;
                        let ghost pre_registry = self.registry();
                        let slot = {
                            let entry = &mut self.tasks[index];
                            entry.take()
                        };
                        match slot {
                            None => {
                                // The task completed earlier; a duplicate or
                                // late wakeup resumes nothing.
                                proof {
                                    assert(self.registry() =~= pre_registry);
                                }
                            },
                            Some(mut task) => {
                                // Reuse the cached wakeup handle, building it
                                // on the task's first resumption.
                                if self.waker_cache[index].is_none() {
                                    let centry = &mut self.waker_cache[index];
                                    *centry = Some(TaskWaker::new(task_id));
                                }
                                let cached: Option<TaskWaker> = self.waker_cache[index];
                                let waker = cached.unwrap();
                                let outcome = task.poll(&waker, bridge);
                                let finished = match &outcome {
                                    Poll::Ready(_) => true,
                                    Poll::Pending => false,
                                };
                                let entry = &mut self.tasks[index];
                                let centry = &mut self.waker_cache[index];
                                settle_resumption(outcome, task, entry, centry);
                                if finished {
                                    let ghost pre_completed = completed@;
                                    completed.push(task_id);
                                    proof {
                                        assert(completed@[pre_completed.len() as int] == task_id);
                                        assert(completed@.contains(task_id));
                                        assert forall|x: u64|
                                            pre_completed.contains(x) implies completed@.contains(
                                            x,
                                        ) by {
                                            let j = choose|j: int|
                                                0 <= j < pre_completed.len() && pre_completed[j]
                                                    == x;
                                            assert(completed@[j] == x);
                                        }
                                    }
                                }
                            },
                        }
                    }
                    // An identifier at or beyond the registry length was
                    // never spawned; nothing to resume.
                },
            }
        }
        completed
    }
}

impl TaskWaker {
    /// Invoking the handle: pushes the task's identifier into the executor's
    /// ready queue. A full queue is fatal, as for [`Executor::wake`].
    pub fn wake_task<T: Task>(&self, executor: &mut Executor<T>) -> (r: Result<(), FatalError>)
        ensures
            final(executor).registry() == old(executor).registry(),
            final(executor).cache() == old(executor).cache(),
            final(executor).ready_capacity() == old(executor).ready_capacity(),
            final(executor).ready() == ready_after_wake(
                old(executor).ready(),
                old(executor).ready_capacity(),
                self.task_id,
            ),
            r is Ok <==> old(executor).ready().len() < old(executor).ready_capacity(),
            r is Err ==> r == Err::<(), FatalError>(FatalError::ReadyQueueFull),
            old(executor).wf() ==> final(executor).wf(),
    {
        executor.wake(self.task_id)
    }
}

} // verus!

