//! The event bridge between interrupt context and cooperative code: a bounded
//! queue of raw keyboard bytes paired with a single-slot wakeup cell.
//!
//! The interrupt handler pushes through [`add_scan_code`], which never blocks:
//! on a full queue the byte is dropped and counted. The one consumer pops
//! through [`ScanCodeStream::poll_next`], which never blocks either: on an
//! empty queue it registers the consumer's wakeup handle and reports
//! [`Poll::Pending`]. `poll_next` re-checks the queue once more after
//! registering, so a byte that arrives before that final check is always
//! returned at once ([`lemma_no_lost_wakeup`]).

use vstd::prelude::*;

use crossbeam_queue::ArrayQueue;
use pc_keyboard::layouts::Us104Key;
use pc_keyboard::{DecodedKey, HandleControl, Keyboard, ScancodeSet1};

use crate::task::executor::{ready_after_wake, Executor};
use crate::task::queue::{
    byte_queue_bytes, byte_queue_capacity, byte_queue_new, byte_queue_pop, byte_queue_push,
};
use crate::task::{FatalError, Poll, Task, TaskWaker};

verus! {

/// The capacity the kernel gives the scan-code queue.
pub const SCAN_CODE_QUEUE_SIZE: usize = 255;

/// `dropped` one higher, except that the count pins at the top of its range.
pub open spec fn saturating_inc(dropped: u64) -> u64 {
    if dropped == u64::MAX {
        dropped
    } else {
        (dropped + 1) as u64
    }
}

/// The queue contents after the producer offers `byte`: appended when there
/// is room, dropped otherwise.
pub open spec fn bytes_after_push(bytes: Seq<u8>, capacity: nat, byte: u8) -> Seq<u8> {
    if bytes.len() < capacity {
        bytes.push(byte)
    } else {
        bytes
    }
}

/// What one consumer poll returns, given the bytes queued when it runs: the
/// oldest byte when there is one, otherwise a suspension.
pub open spec fn poll_outcome(bytes: Seq<u8>) -> Poll<u8> {
    if bytes.len() > 0 {
        Poll::Ready(bytes[0])
    } else {
        Poll::Pending
    }
}

/// The bridge from interrupt context to the cooperative consumer: a bounded
/// byte queue plus a single-slot wakeup cell. Process-wide state in the
/// kernel; created empty and uninitialized once at boot, initialized exactly
/// once by the consumer side ([`ScanCodeStream::new`]).
pub struct EventBridge {
    queue: Option<ArrayQueue<u8>>,
    waker: Option<TaskWaker>,
    dropped: u64,
}

impl EventBridge {
    /// Whether the queue has been created (lazily, exactly once).
    pub closed spec fn is_init(&self) -> bool {
        self.queue is Some
    }

    /// The queued bytes, oldest first.
    pub closed spec fn bytes(&self) -> Seq<u8> {
        byte_queue_bytes(self.queue->Some_0)
    }

    /// The fixed capacity of the queue.
    pub closed spec fn capacity(&self) -> nat {
        byte_queue_capacity(self.queue->Some_0)
    }

    /// The wakeup cell: the identifier of the consumer task waiting for a
    /// byte, if one registered itself.
    pub closed spec fn registered(&self) -> Option<u64> {
        match self.waker {
            Some(w) => Some(w.task_id),
            None => None,
        }
    }

    /// How many bytes the full queue has dropped.
    pub closed spec fn dropped_count(&self) -> u64 {
        self.dropped
    }

    /// The queue never holds more than its capacity.
    pub open spec fn wf(&self) -> bool {
        self.is_init() ==> self.bytes().len() <= self.capacity() && self.capacity() >= 1
    }

    /// A fresh bridge, not yet initialized. Neither side may use it before
    /// the consumer side has created the queue, exactly once.
    pub fn new() -> (b: EventBridge)
        ensures
            !b.is_init(),
            b.registered() is None,
            b.dropped_count() == 0,
            b.wf(),
    {
        EventBridge { queue: None, waker: None, dropped: 0 }
    }

    pub fn is_initialized(&self) -> (r: bool)
        ensures
            r == self.is_init(),
    {
        self.queue.is_some()
    }

    /// The consumer task waiting in the wakeup cell, if one registered.
    pub fn registered_task(&self) -> (r: Option<u64>)
        ensures
            r == self.registered(),
    {
        match &self.waker {
            Some(waker) => Some(waker.task_id),
            None => None,
        }
    }

    /// How many bytes have been dropped so far.
    pub fn dropped_so_far(&self) -> (r: u64)
        ensures
            r == self.dropped_count(),
    {
        self.dropped
    }
}

/// The producer entry point, called by the keyboard interrupt handler with
/// the byte just read from the device port. Calling it before the consumer
/// side has created the queue is a fatal programming error, ruled out by
/// contract. Never blocks and never fails for lack of room: on a full queue
/// the byte is dropped and counted. When the byte is accepted and a consumer
/// wakeup is registered, the wakeup is taken and invoked, which pushes the
/// consumer's identifier into the executor's ready queue; only a full ready
/// queue is fatal.
pub fn add_scan_code<T: Task>(
    bridge: &mut EventBridge,
    executor: &mut Executor<T>,
    scan_code: u8,
) -> (r: Result<(), FatalError>)
    requires
        old(bridge).is_init(),
        old(bridge).wf(),
    ensures
        final(bridge).is_init(),
        final(bridge).wf(),
        final(bridge).capacity() == old(bridge).capacity(),
        final(executor).registry() == old(executor).registry(),
        final(executor).cache() == old(executor).cache(),
        final(executor).ready_capacity() == old(executor).ready_capacity(),
        final(bridge).bytes() == bytes_after_push(
            old(bridge).bytes(),
            old(bridge).capacity(),
            scan_code,
        ),
        // dropped (queue full): counted, nothing woken
        old(bridge).bytes().len() >= old(bridge).capacity() ==> {
            &&& final(bridge).registered() == old(bridge).registered()
            &&& final(bridge).dropped_count() == saturating_inc(old(bridge).dropped_count())
            &&& final(executor).ready() == old(executor).ready()
            &&& r is Ok
        },
        // accepted: the registered wakeup (if any) is taken and invoked
        old(bridge).bytes().len() < old(bridge).capacity() ==> {
            &&& final(bridge).dropped_count() == old(bridge).dropped_count()
            &&& final(bridge).registered() is None
            &&& match old(bridge).registered() {
                None => final(executor).ready() == old(executor).ready() && r is Ok,
                Some(id) => {
                    &&& final(executor).ready() == ready_after_wake(
                        old(executor).ready(),
                        old(executor).ready_capacity(),
                        id,
                    )
                    &&& (r is Ok <==> old(executor).ready().len()
                        < old(executor).ready_capacity())
                    &&& (r is Err ==> r == Err::<(), FatalError>(FatalError::ReadyQueueFull))
                },
            }
        },
{
    match &mut bridge.queue {
        None => vstd::pervasive::unreached(),
        Some(queue) => {
            match byte_queue_push(queue, scan_code) {
                Err(_) => {
                    // Queue full: losing a keystroke is preferable to
                    // stalling the interrupt handler.
                    if bridge.dropped < u64::MAX {
                        bridge.dropped = bridge.dropped + 1;
                    }
                    Ok(())
                },
                Ok(()) => {
                    let registered = bridge.waker;
                    bridge.waker = None;
                    match registered {
                        None => Ok(()),
                        Some(waker) => waker.wake_task(executor),
                    }
                },
            }
        },
    }
}

/// The consumer's view of the bridge: a logically endless sequence of raw
/// bytes, produced one per [`ScanCodeStream::poll_next`] call. Exactly one
/// stream is meant to exist; constructing it initializes the bridge's queue.
pub struct ScanCodeStream {}

impl ScanCodeStream {
    /// Creates the bridge's queue, exactly once, with the given capacity.
    pub fn new(bridge: &mut EventBridge, capacity: usize) -> (s: ScanCodeStream)
        requires
            !old(bridge).is_init(),
            1 <= capacity < usize::MAX / 2,
        ensures
            final(bridge).is_init(),
            final(bridge).bytes() == Seq::<u8>::empty(),
            final(bridge).capacity() == capacity,
            final(bridge).registered() == old(bridge).registered(),
            final(bridge).dropped_count() == old(bridge).dropped_count(),
            final(bridge).wf(),
    {
        bridge.queue = Some(byte_queue_new(capacity));
        ScanCodeStream {}
    }

    /// One consumer step. Checks the queue; on a byte, returns it at once.
    /// On an empty queue, registers `waker` in the wakeup cell, then checks
    /// the queue once more before suspending: a byte pushed between the
    /// first check and the registration would otherwise find no registered
    /// wakeup and leave the consumer parked forever even though data is
    /// available. If the final check finds a byte, the registration is
    /// withdrawn and the byte returned without suspending.
    pub fn poll_next(&mut self, bridge: &mut EventBridge, waker: &TaskWaker) -> (r: Poll<u8>)
        requires
            old(bridge).is_init(),
            old(bridge).wf(),
        ensures
            final(bridge).is_init(),
            final(bridge).wf(),
            final(bridge).capacity() == old(bridge).capacity(),
            final(bridge).dropped_count() == old(bridge).dropped_count(),
            r == poll_outcome(old(bridge).bytes()),
            old(bridge).bytes().len() > 0 ==> {
                &&& final(bridge).bytes() == old(bridge).bytes().drop_first()
                &&& final(bridge).registered() == old(bridge).registered()
            },
            old(bridge).bytes().len() == 0 ==> {
                &&& final(bridge).bytes() == old(bridge).bytes()
                &&& final(bridge).registered() == Some(waker.task_id)
            },
    {
        match &mut bridge.queue {
            None => vstd::pervasive::unreached(),
            Some(queue) => {
                if let Some(scan_code) = byte_queue_pop(queue) {
                    return Poll::Ready(scan_code);
                }
                bridge.waker = Some(TaskWaker::new(waker.task_id));
                // Re-check: a byte pushed before this final check is
                // returned without suspending.
                match &mut bridge.queue {
                    None => vstd::pervasive::unreached(),
                    Some(queue) => {
                        match byte_queue_pop(queue) {
                            Some(scan_code) => {
                                bridge.waker = None;
                                Poll::Ready(scan_code)
                            },
                            None => Poll::Pending,
                        }
                    },
                }
            },
        }
    }
}

/// No lost wakeup: for any interleaving of the consumer's empty check and a
/// producer push, a byte accepted before the consumer's final re-check means
/// that check finds the queue non-empty, so the consumer returns a byte at
/// once instead of suspending — and on a previously empty queue it returns
/// exactly the pushed byte.
pub proof fn lemma_no_lost_wakeup(bytes: Seq<u8>, capacity: nat, byte: u8)
    requires
        bytes.len() < capacity,
    ensures
        poll_outcome(bytes_after_push(bytes, capacity, byte)) is Ready,
        bytes.len() == 0 ==> poll_outcome(bytes_after_push(bytes, capacity, byte)) == Poll::Ready(
            byte,
        ),
{
}

/// Bounded memory: a push never grows the queue beyond its capacity.
pub proof fn lemma_push_bounded(bytes: Seq<u8>, capacity: nat, byte: u8)
    requires
        bytes.len() <= capacity,
    ensures
        bytes_after_push(bytes, capacity, byte).len() <= capacity,
{
}

/// The queue contents after the producer offers each byte of `pushed` in
/// order.
pub open spec fn bytes_after_pushes(bytes: Seq<u8>, capacity: nat, pushed: Seq<u8>) -> Seq<u8>
    decreases pushed.len(),
{
    if pushed.len() == 0 {
        bytes
    } else {
        bytes_after_pushes(
            bytes_after_push(bytes, capacity, pushed[0]),
            capacity,
            pushed.drop_first(),
        )
    }
}

/// The bytes the consumer observes over `count` polls, in the order the
/// polls return them.
pub open spec fn observed(bytes: Seq<u8>, count: nat) -> Seq<u8>
    decreases count,
{
    if count == 0 || bytes.len() == 0 {
        Seq::empty()
    } else {
        seq![bytes[0]] + observed(bytes.drop_first(), (count - 1) as nat)
    }
}

/// Pushes that fit line up behind the bytes already queued, in push order.
pub proof fn lemma_pushes_append(bytes: Seq<u8>, capacity: nat, pushed: Seq<u8>)
    requires
        bytes.len() + pushed.len() <= capacity,
    ensures
        bytes_after_pushes(bytes, capacity, pushed) == bytes + pushed,
    decreases pushed.len(),
{
    if pushed.len() == 0 {
        assert(bytes + pushed =~= bytes);
    } else {
        lemma_pushes_append(bytes.push(pushed[0]), capacity, pushed.drop_first());
        assert(bytes.push(pushed[0]) + pushed.drop_first() =~= bytes + pushed);
    }
}

/// Polling `count` times yields the oldest `count` queued bytes, in order.
pub proof fn lemma_observed_prefix(bytes: Seq<u8>, count: nat)
    requires
        count <= bytes.len(),
    ensures
        observed(bytes, count) == bytes.subrange(0, count as int),
    decreases count,
{
    if count == 0 {
        assert(observed(bytes, 0) =~= bytes.subrange(0, 0));
    } else {
        lemma_observed_prefix(bytes.drop_first(), (count - 1) as nat);
        assert(seq![bytes[0]] + bytes.drop_first().subrange(0, count - 1) =~= bytes.subrange(
            0,
            count as int,
        ));
    }
}

/// FIFO: whatever sequence of bytes the producer pushes into an empty queue
/// without overflowing it, the consumer observes exactly that sequence, in
/// push order.
pub proof fn lemma_fifo(capacity: nat, pushed: Seq<u8>)
    requires
        pushed.len() <= capacity,
    ensures
        observed(bytes_after_pushes(Seq::empty(), capacity, pushed), pushed.len()) == pushed,
{
    lemma_pushes_append(Seq::empty(), capacity, pushed);
    assert(Seq::empty() + pushed =~= pushed);
    lemma_observed_prefix(pushed, pushed.len());
    assert(pushed.subrange(0, pushed.len() as int) =~= pushed);
}

/// Holds pc_keyboard's `Keyboard<Us104Key, ScancodeSet1>`, the scan-code
/// decoder. The type cannot be declared to Verus (its generic parameters
/// carry bounds on pc_keyboard's own traits), so it is hidden whole and
/// reached only through the trusted functions below.
#[verifier::external_body]
pub struct ScanCodeDecoder {
    inner: Keyboard<Us104Key, ScancodeSet1>,
}

/// pc_keyboard's `KeyCode`, opaque: which key, independent of layout.
#[verifier::external_type_specification]
#[verifier::external_body]
pub struct ExKeyCode(pc_keyboard::KeyCode);

/// A decoded keypress, as the rest of the kernel consumes it: a character
/// (printable or control), or a raw key that produces none.
#[derive(Debug, Clone, Copy)]
pub enum KeyInput {
    Unicode(char),
    RawKey(pc_keyboard::KeyCode),
}

/// The bytes a decoder has been fed so far, oldest first. The decoder is
/// deterministic, so its state — and everything it will yield — is a
/// function of this history.
pub uninterp spec fn decoder_history(keyboard: ScanCodeDecoder) -> Seq<u8>;

/// The keys a fresh decoder yields when fed `history` byte by byte, each
/// completed key event processed at once — the one discipline
/// [`decoder_advance`] embodies, and the only way this library drives the
/// decoder.
pub uninterp spec fn keys_of_history(history: Seq<u8>) -> Seq<KeyInput>;

/// Relies on pc_keyboard's `Keyboard::new`: a fresh scan-code decoder in its
/// initial state, with control characters left alone; nothing has been fed
/// to it.
#[verifier::external_body]
fn keyboard_new() -> (k: ScanCodeDecoder)
    ensures
        decoder_history(k) == Seq::<u8>::empty(),
{
    ScanCodeDecoder { inner: Keyboard::new(HandleControl::Ignore) }
}

/// Relies on pc_keyboard's `Keyboard::add_byte` and
/// `Keyboard::process_keyevent`: one decode step. The byte advances the
/// scan-code state machine; a completed key event is processed at once
/// (tracking modifier state) and the key it decodes to, if any, is handed
/// back with its fields moved into the library's key type. Both calls are
/// deterministic, so the step appends the byte to the decoder's history and
/// yields exactly the key that history decodes to.
#[verifier::external_body]
fn decoder_advance(keyboard: &mut ScanCodeDecoder, scan_code: u8) -> (r: Option<KeyInput>)
    ensures
        decoder_history(*final(keyboard)) == decoder_history(*old(keyboard)).push(scan_code),
        keys_of_history(decoder_history(*old(keyboard)).push(scan_code)) == keys_of_history(
            decoder_history(*old(keyboard)),
        ) + (match r {
            Some(key) => seq![key],
            None => Seq::<KeyInput>::empty(),
        }),
{
    match keyboard.inner.add_byte(scan_code) {
        Ok(Some(event)) => match keyboard.inner.process_keyevent(event) {
            Some(DecodedKey::Unicode(character)) => Some(KeyInput::Unicode(character)),
            Some(DecodedKey::RawKey(code)) => Some(KeyInput::RawKey(code)),
            None => None,
        },
        _ => None,
    }
}

/// Whatever consumes decoded keys, plugged in at boot (the terminal screen
/// in the kernel). A handler records what it has received (`received`);
/// `handle_key` hands it one more key.
pub trait KeyHandler {
    /// The keys received so far, oldest first. (An implementation under
    /// verification overrides this with its own record; the default is an
    /// empty one.)
    open spec fn received(&self) -> Seq<KeyInput> {
        Seq::empty()
    }

    fn handle_key(&mut self, key: KeyInput)
        ensures
            final(self).received() == old(self).received().push(key),
    ;
}

/// The bridge's one consumer task: drains queued scan-code bytes, feeds
/// each to the decoder in queue order, hands each key they decode to the
/// handler, and suspends (registering its wakeup) when no byte is queued.
pub struct KeyboardTask<H: KeyHandler> {
    scan_codes: ScanCodeStream,
    keyboard: ScanCodeDecoder,
    pub handler: H,
}

impl<H: KeyHandler> KeyboardTask<H> {
    /// The plugged-in key handler.
    pub closed spec fn spec_handler(&self) -> H {
        self.handler
    }

    /// The bytes fed to the task's decoder so far.
    pub closed spec fn spec_history(&self) -> Seq<u8> {
        decoder_history(self.keyboard)
    }

    /// The task over its stream and handler, with a fresh decoder.
    pub fn new(scan_codes: ScanCodeStream, handler: H) -> (k: KeyboardTask<H>)
        ensures
            k.spec_handler() == handler,
            k.spec_history() == Seq::<u8>::empty(),
    {
        KeyboardTask { scan_codes, keyboard: keyboard_new(), handler }
    }
}

impl<H: KeyHandler> Task for KeyboardTask<H> {
    /// Never completes. It feeds every queued byte to the decoder, in queue
    /// order; the keys those bytes decode to are handed to the handler, each
    /// once, in order; then it leaves its wakeup parked in the cell and
    /// suspends.
    fn poll(&mut self, waker: &TaskWaker, bridge: &mut EventBridge) -> (p: Poll<()>)
        ensures
            p is Pending,
            final(bridge).is_init() == old(bridge).is_init(),
            !old(bridge).is_init() ==> *final(self) == *old(self) && *final(bridge) == *old(
                bridge,
            ),
            old(bridge).is_init() ==> {
                &&& final(bridge).bytes().len() == 0
                &&& final(bridge).registered() == Some(waker.task_id)
                &&& final(self).spec_history() == old(self).spec_history() + old(bridge).bytes()
                &&& old(self).spec_handler().received().is_prefix_of(
                    final(self).spec_handler().received(),
                )
                &&& keys_of_history(final(self).spec_history()) == keys_of_history(
                    old(self).spec_history(),
                ) + final(self).spec_handler().received().skip(
                    old(self).spec_handler().received().len() as int,
                )
            },
    {
        if !bridge.is_initialized() {
            // The queue does not exist yet, so nothing can arrive: the
            // consumer side has not constructed its stream.
            return Poll::Pending;
        }
        let ghost orig_history = decoder_history(self.keyboard);
        let ghost orig_received = self.handler.received();
        let ghost orig_bytes = bridge.bytes();
        let ghost mut fed: Seq<u8> = Seq::empty();
        proof {
            assert(orig_bytes =~= fed + bridge.bytes());
            assert(orig_history + fed =~= orig_history);
            assert(orig_received.skip(orig_received.len() as int) =~= Seq::<KeyInput>::empty());
        }
        loop
            invariant
                old(bridge).is_init(),
                bridge.is_init(),
                bridge.wf(),
                orig_history == old(self).spec_history(),
                orig_received == old(self).spec_handler().received(),
                orig_bytes == old(bridge).bytes(),
                orig_bytes == fed + bridge.bytes(),
                decoder_history(self.keyboard) == orig_history + fed,
                orig_received.is_prefix_of(self.handler.received()),
                keys_of_history(decoder_history(self.keyboard)) == keys_of_history(orig_history)
                    + self.handler.received().skip(orig_received.len() as int),
            decreases bridge.bytes().len(),
        {
            let ghost rest = bridge.bytes();
            match self.scan_codes.poll_next(bridge, waker) {
                Poll::Ready(scan_code) => {
                    proof {
                        fed = fed.push(scan_code);
                        assert(orig_bytes =~= fed + bridge.bytes());
                        assert((orig_history + fed.drop_last()).push(scan_code) =~= orig_history
                            + fed);
                    }
                    let key_opt = decoder_advance(&mut self.keyboard, scan_code);
                    match key_opt {
                        Some(key) => {
                            let ghost received_before = self.handler.received();
                            self.handler.handle_key(key);
                            proof {
                                assert(self.handler.received().skip(orig_received.len() as int)
                                    =~= received_before.skip(orig_received.len() as int).push(
                                    key,
                                ));
                                assert(orig_received.is_prefix_of(self.handler.received())) by {
                                    assert(self.handler.received().subrange(
                                        0,
                                        orig_received.len() as int,
                                    ) =~= received_before.subrange(0, orig_received.len() as int));
                                }
                            }
                        },
                        None => {},
                    }
                },
                Poll::Pending => {
                    proof {
                        assert(fed =~= orig_bytes);
                    }
                    return Poll::Pending;
                },
            }
        }
    }
}

} // verus!
