//! Trusted boundary around crossbeam's `ArrayQueue`, the bounded, non-blocking
//! ring that carries raw event bytes and ready task identifiers between
//! interrupt context and the cooperative executor.
//!
//! Verus sees the queue only through the two uninterpreted views (its contents,
//! oldest first, and the capacity it was created with) and the contracts below,
//! which state exactly what crossbeam's source does under exclusive access.

use vstd::prelude::*;

use crossbeam_queue::ArrayQueue;

verus! {

/// crossbeam's `ArrayQueue`, opaque: the bounded, non-blocking ring both
/// queues are built on.
#[verifier::external_type_specification]
#[verifier::external_body]
#[verifier::reject_recursive_types(T)]
pub struct ExArrayQueue<T>(ArrayQueue<T>);

/// The bytes a scan-code queue holds, oldest first.
pub uninterp spec fn byte_queue_bytes(q: ArrayQueue<u8>) -> Seq<u8>;

/// The capacity a scan-code queue was created with.
pub uninterp spec fn byte_queue_capacity(q: ArrayQueue<u8>) -> nat;

/// The task identifiers a ready queue holds, oldest first.
pub uninterp spec fn task_queue_ids(q: ArrayQueue<u64>) -> Seq<u64>;

/// The capacity a ready queue was created with.
pub uninterp spec fn task_queue_capacity(q: ArrayQueue<u64>) -> nat;

/// Relies on crossbeam's `ArrayQueue::new`: an empty bounded queue of the
/// given capacity. The bounds keep the call from panicking (it rejects zero
/// and capacities whose internal stamp would overflow).
#[verifier::external_body]
pub(crate) fn byte_queue_new(capacity: usize) -> (q: ArrayQueue<u8>)
    requires
        1 <= capacity < usize::MAX / 2,
    ensures
        byte_queue_bytes(q) == Seq::<u8>::empty(),
        byte_queue_capacity(q) == capacity,
{
    ArrayQueue::new(capacity)
}

/// Relies on crossbeam's `ArrayQueue::push`: appends the value at the tail,
/// or hands it back unchanged when the queue already holds capacity-many
/// elements. Never blocks, never panics.
#[verifier::external_body]
pub(crate) fn byte_queue_push(q: &mut ArrayQueue<u8>, value: u8) -> (r: Result<(), u8>)
    ensures
        byte_queue_capacity(*final(q)) == byte_queue_capacity(*old(q)),
        byte_queue_bytes(*old(q)).len() < byte_queue_capacity(*old(q)) ==> {
            &&& r is Ok
            &&& byte_queue_bytes(*final(q)) == byte_queue_bytes(*old(q)).push(value)
        },
        byte_queue_bytes(*old(q)).len() >= byte_queue_capacity(*old(q)) ==> {
            &&& r == Err::<(), u8>(value)
            &&& byte_queue_bytes(*final(q)) == byte_queue_bytes(*old(q))
        },
{
    q.push(value)
}

/// Relies on crossbeam's `ArrayQueue::pop`: removes and returns the element
/// at the head, or returns `None` when the queue is empty. Never blocks.
#[verifier::external_body]
pub(crate) fn byte_queue_pop(q: &mut ArrayQueue<u8>) -> (r: Option<u8>)
    ensures
        byte_queue_capacity(*final(q)) == byte_queue_capacity(*old(q)),
        byte_queue_bytes(*old(q)).len() == 0 ==> {
            &&& r is None
            &&& byte_queue_bytes(*final(q)) == byte_queue_bytes(*old(q))
        },
        byte_queue_bytes(*old(q)).len() > 0 ==> {
            &&& r == Some(byte_queue_bytes(*old(q))[0])
            &&& byte_queue_bytes(*final(q)) == byte_queue_bytes(*old(q)).drop_first()
        },
{
    q.pop()
}

/// Relies on crossbeam's `ArrayQueue::new`, as `byte_queue_new` does.
#[verifier::external_body]
pub(crate) fn task_queue_new(capacity: usize) -> (q: ArrayQueue<u64>)
    requires
        1 <= capacity < usize::MAX / 2,
    ensures
        task_queue_ids(q) == Seq::<u64>::empty(),
        task_queue_capacity(q) == capacity,
{
    ArrayQueue::new(capacity)
}

/// Relies on crossbeam's `ArrayQueue::push`, as `byte_queue_push` does.
#[verifier::external_body]
pub(crate) fn task_queue_push(q: &mut ArrayQueue<u64>, value: u64) -> (r: Result<(), u64>)
    ensures
        task_queue_capacity(*final(q)) == task_queue_capacity(*old(q)),
        task_queue_ids(*old(q)).len() < task_queue_capacity(*old(q)) ==> {
            &&& r is Ok
            &&& task_queue_ids(*final(q)) == task_queue_ids(*old(q)).push(value)
        },
        task_queue_ids(*old(q)).len() >= task_queue_capacity(*old(q)) ==> {
            &&& r == Err::<(), u64>(value)
            &&& task_queue_ids(*final(q)) == task_queue_ids(*old(q))
        },
{
    q.push(value)
}

/// Relies on crossbeam's `ArrayQueue::pop`, as `byte_queue_pop` does.
#[verifier::external_body]
pub(crate) fn task_queue_pop(q: &mut ArrayQueue<u64>) -> (r: Option<u64>)
    ensures
        task_queue_capacity(*final(q)) == task_queue_capacity(*old(q)),
        task_queue_ids(*old(q)).len() == 0 ==> {
            &&& r is None
            &&& task_queue_ids(*final(q)) == task_queue_ids(*old(q))
        },
        task_queue_ids(*old(q)).len() > 0 ==> {
            &&& r == Some(task_queue_ids(*old(q))[0])
            &&& task_queue_ids(*final(q)) == task_queue_ids(*old(q)).drop_first()
        },
{
    q.pop()
}

/// Relies on crossbeam's `ArrayQueue::is_empty`: true exactly when the queue
/// holds no element.
#[verifier::external_body]
pub(crate) fn task_queue_is_empty(q: &ArrayQueue<u64>) -> (r: bool)
    ensures
        r == (task_queue_ids(*q).len() == 0),
{
    q.is_empty()
}

} // verus!
