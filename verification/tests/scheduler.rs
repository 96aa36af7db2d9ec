//! Scenarios for the event bridge and the executor: the wakeup chain from a
//! simulated interrupt to a resumed consumer, overflow behavior on both
//! queues, the idle/halt decision, and completion bookkeeping.

use kernel_core::task::executor::Executor;
use kernel_core::task::keyboard::{add_scan_code, EventBridge, KeyboardTask, KeyHandler, KeyInput, ScanCodeStream};
use kernel_core::task::{FatalError, Poll, Task, TaskWaker};

/// A consumer task: drains every queued byte into `seen`, then suspends.
struct Collector {
    stream: ScanCodeStream,
    seen: Vec<u8>,
    polls: u32,
}

impl Collector {
    fn new(stream: ScanCodeStream) -> Collector {
        Collector { stream, seen: Vec::new(), polls: 0 }
    }
}

impl Task for Collector {
    fn poll(&mut self, waker: &TaskWaker, bridge: &mut EventBridge) -> Poll<()> {
        self.polls += 1;
        loop {
            match self.stream.poll_next(bridge, waker) {
                Poll::Ready(byte) => self.seen.push(byte),
                Poll::Pending => return Poll::Pending,
            }
        }
    }
}

/// A task that finishes on its first resumption.
struct OneShot {}

impl Task for OneShot {
    fn poll(&mut self, _waker: &TaskWaker, _bridge: &mut EventBridge) -> Poll<()> {
        Poll::Ready(())
    }
}

#[test]
fn basic_wakeup_chain() {
    // Bridge with capacity 4; two scan codes arrive from (simulated)
    // interrupt context before any consumer is registered.
    let mut bridge = EventBridge::new();
    let mut executor: Executor<Collector> = Executor::new();
    let stream = ScanCodeStream::new(&mut bridge, 4);

    assert!(add_scan_code(&mut bridge, &mut executor, 0x1E).is_ok());
    assert!(add_scan_code(&mut bridge, &mut executor, 0x30).is_ok());
    assert_eq!(bridge.dropped_so_far(), 0);

    let id = executor.spawn(Collector::new(stream)).unwrap();
    let completed = executor.run_ready_tasks(&mut bridge);

    // The consumer observed exactly the two bytes, in push order, and then
    // suspended again (it is still registered, with its wakeup parked).
    assert!(completed.is_empty());
    let collector = executor.task(id).unwrap();
    assert_eq!(collector.seen, vec![0x1E, 0x30]);
    assert!(executor.has_task(id));
    assert!(executor.has_cached_waker(id));
    assert!(executor.is_idle());
}

#[test]
fn overflow_drop() {
    // Capacity 2: the third push is dropped, draining yields the first two.
    let mut bridge = EventBridge::new();
    let mut executor: Executor<Collector> = Executor::new();
    let mut stream = ScanCodeStream::new(&mut bridge, 2);

    assert!(add_scan_code(&mut bridge, &mut executor, 1).is_ok());
    assert!(add_scan_code(&mut bridge, &mut executor, 2).is_ok());
    assert!(add_scan_code(&mut bridge, &mut executor, 3).is_ok());
    assert_eq!(bridge.dropped_so_far(), 1);

    let waker = TaskWaker::new(0);
    assert_eq!(stream.poll_next(&mut bridge, &waker), Poll::Ready(1));
    assert_eq!(stream.poll_next(&mut bridge, &waker), Poll::Ready(2));
    assert_eq!(stream.poll_next(&mut bridge, &waker), Poll::Pending);
}

#[test]
fn idle_halt_then_wake() {
    // With the ready queue drained, the executor reaches the halt decision;
    // a simulated external wakeup on a spawned task makes the next loop
    // iteration resume that task, with no missed cycle.
    let mut bridge = EventBridge::new();
    let mut executor: Executor<Collector> = Executor::new();
    let stream = ScanCodeStream::new(&mut bridge, 4);

    let id = executor.spawn(Collector::new(stream)).unwrap();
    executor.run_ready_tasks(&mut bridge);
    assert_eq!(executor.task(id).unwrap().polls, 1);
    assert!(executor.is_idle()); // run() would halt here

    assert!(executor.wake(id).is_ok());
    assert!(!executor.is_idle()); // ...but a wakeup before the check keeps it awake

    executor.run_ready_tasks(&mut bridge);
    assert_eq!(executor.task(id).unwrap().polls, 2);
}

#[test]
fn wakeup_arriving_before_recheck_is_not_lost() {
    // The consumer registers (Pending), then a byte arrives and wakes it:
    // the byte is returned on the very next poll, the consumer never hangs.
    let mut bridge = EventBridge::new();
    let mut executor: Executor<Collector> = Executor::new();
    let stream = ScanCodeStream::new(&mut bridge, 4);

    let id = executor.spawn(Collector::new(stream)).unwrap();
    executor.run_ready_tasks(&mut bridge);
    assert!(executor.is_idle());

    // The consumer parked itself: its wakeup handle sits in the cell.
    assert_eq!(bridge.registered_task(), Some(id));

    // Interrupt arrives: byte queued, registered wakeup taken and invoked.
    assert!(add_scan_code(&mut bridge, &mut executor, 0x2A).is_ok());
    assert_eq!(bridge.registered_task(), None);
    assert!(!executor.is_idle());

    executor.run_ready_tasks(&mut bridge);
    assert_eq!(executor.task(id).unwrap().seen, vec![0x2A]);
}

#[test]
fn completion_removes_task_and_waker() {
    // Once a task completes, its identifier is gone from the registry and
    // the wakeup-handle cache, and a late wakeup naming it has no effect.
    let mut bridge = EventBridge::new();
    let mut executor: Executor<OneShot> = Executor::new();

    let id = executor.spawn(OneShot {}).unwrap();
    let completed = executor.run_ready_tasks(&mut bridge);
    assert_eq!(completed, vec![id]);
    assert!(!executor.has_task(id));
    assert!(!executor.has_cached_waker(id));
    assert!(executor.task(id).is_none());
    assert!(executor.is_idle());

    // Late (stale) wakeup: accepted, then skipped by the drain loop; nothing
    // completes a second time.
    assert!(executor.wake(id).is_ok());
    assert!(executor.run_ready_tasks(&mut bridge).is_empty());
    assert!(!executor.has_task(id));
    assert!(!executor.has_cached_waker(id));
    assert!(executor.is_idle());
}

#[test]
fn ready_queue_overflow_is_fatal() {
    let mut executor: Executor<OneShot> = Executor::with_queue_capacity(1);

    let id = executor.spawn(OneShot {}).unwrap();
    // The one slot is taken by the spawn itself: another spawn or wakeup
    // reports the fatal overflow instead of silently dropping.
    assert_eq!(executor.wake(id), Err(FatalError::ReadyQueueFull));
    assert!(matches!(executor.spawn(OneShot {}), Err(FatalError::ReadyQueueFull)));
}

/// Collects the characters the keyboard task decodes.
struct CollectKeys {
    chars: Vec<char>,
}

impl KeyHandler for CollectKeys {
    fn handle_key(&mut self, key: KeyInput) {
        if let KeyInput::Unicode(c) = key {
            self.chars.push(c);
        }
    }
}

#[test]
fn keyboard_task_decodes_scan_codes() {
    let mut bridge = EventBridge::new();
    let mut executor: Executor<KeyboardTask<CollectKeys>> = Executor::new();
    let stream = ScanCodeStream::new(&mut bridge, 8);

    let task = KeyboardTask::new(stream, CollectKeys { chars: Vec::new() });
    let id = executor.spawn(task).unwrap();

    // 'a' press/release, 'b' press/release, in scan-code set 1.
    for code in [0x1E, 0x9E, 0x30, 0xB0] {
        assert!(add_scan_code(&mut bridge, &mut executor, code).is_ok());
    }
    executor.run_ready_tasks(&mut bridge);

    assert_eq!(executor.task(id).unwrap().handler.chars, vec!['a', 'b']);
}
