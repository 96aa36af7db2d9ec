//! The kernel log: an in-memory list of entries, each forwarded to every
//! registered listener as it is recorded. Logging is a passive sink for the
//! rest of the core; nothing here blocks.

use vstd::prelude::*;

verus! {

/// Severity of a log entry.
#[derive(Debug, Clone, Copy, PartialEq, Eq, Structural)]
pub enum Level {
    DEBUG,
    INFO,
    WARNING,
    ERROR,
}

/// One recorded entry.
#[derive(Debug)]
pub struct Log {
    pub level: Level,
    pub message: String,
}

/// Notified of every entry as it is recorded; implemented by whatever
/// displays or forwards the log (a serial sink, a screen). A listener may
/// carry an invariant of its own (`inv`), which `did_log` preserves, and it
/// records what it has been notified of (`heard`); the logger keeps every
/// registered listener's invariant standing and notifies each of every
/// entry, once, in registration order.
pub trait LoggerListener {
    open spec fn inv(&self) -> bool {
        true
    }

    /// What the listener has been notified of so far, oldest first.
    /// (An implementation under verification overrides this with its own
    /// record; the default is an empty one.)
    open spec fn heard(&self) -> Seq<(Level, Seq<char>)> {
        Seq::empty()
    }

    fn did_log(&mut self, log: &Log)
        requires
            old(self).inv(),
        ensures
            final(self).inv(),
            final(self).heard() == old(self).heard().push((log.level, log.message@)),
    ;
}

/// The log itself: the entries recorded so far, plus the registered
/// listeners.
pub struct Logger<L: LoggerListener> {
    logs: Vec<Log>,
    listeners: Vec<L>,
}

impl<L: LoggerListener> Logger<L> {
    /// The entries recorded so far, oldest first.
    pub closed spec fn entries(&self) -> Seq<Log> {
        self.logs@
    }

    /// The registered listeners, in registration order.
    pub closed spec fn spec_listeners(&self) -> Seq<L> {
        self.listeners@
    }

    /// How many listeners are registered.
    pub open spec fn listener_count(&self) -> nat {
        self.spec_listeners().len()
    }

    /// Every registered listener's own invariant stands.
    pub open spec fn wf(&self) -> bool {
        forall|i: int|
            0 <= i < self.spec_listeners().len() ==> (#[trigger] self.spec_listeners()[i]).inv()
    }

    /// An empty log with room for `capability` entries reserved up front.
    pub fn new(capability: usize) -> (l: Logger<L>)
        ensures
            l.entries() == Seq::<Log>::empty(),
            l.spec_listeners() == Seq::<L>::empty(),
            l.wf(),
    {
        Logger { logs: Vec::with_capacity(capability), listeners: Vec::new() }
    }

    /// Appends a listener after the ones already registered; every entry
    /// recorded from now on is forwarded to it too.
    pub fn register_listener(&mut self, listener: L)
        requires
            listener.inv(),
        ensures
            final(self).entries() == old(self).entries(),
            final(self).spec_listeners() == old(self).spec_listeners().push(listener),
            old(self).wf() ==> final(self).wf(),
    {
        self.listeners.push(listener);
    }

    /// Records one entry: notifies every listener, in registration order,
    /// then appends the entry. Each registered listener hears the entry
    /// exactly once.
    pub fn log(&mut self, level: Level, message: &str)
        requires
            old(self).wf(),
        ensures
            final(self).wf(),
            final(self).listener_count() == old(self).listener_count(),
            final(self).entries().len() == old(self).entries().len() + 1,
            final(self).entries().drop_last() == old(self).entries(),
            final(self).entries().last().level == level,
            final(self).entries().last().message@ == message@,
            forall|j: int|
                0 <= j < old(self).spec_listeners().len()
                    ==> (#[trigger] final(self).spec_listeners()[j]).heard() == old(
                    self,
                ).spec_listeners()[j].heard().push((level, message@)),
    {
        let entry = Log { level, message: message.to_owned() };
        let ghost orig_listeners = self.spec_listeners();
        let mut i: usize = 0;
        while i < self.listeners.len()
            invariant
                i <= self.listeners@.len(),
                self.wf(),
                orig_listeners == old(self).spec_listeners(),
                self.listeners@.len() == orig_listeners.len(),
                self.logs@ == old(self).entries(),
                entry.level == level,
                entry.message@ == message@,
                forall|j: int|
                    0 <= j < i ==> (#[trigger] self.spec_listeners()[j]).heard()
                        == orig_listeners[j].heard().push((level, message@)),
                forall|j: int|
                    i <= j < orig_listeners.len() ==> self.spec_listeners()[j]
                        == orig_listeners[j],
            decreases self.listeners@.len() - i,
        {
            proof {
                assert(self.spec_listeners()[i as int].inv());
            }
            let ghost before = self.spec_listeners();
            let listener = &mut self.listeners[i];
            listener.did_log(&entry);
            proof {
                assert forall|j: int|
                    0 <= j < self.spec_listeners().len() implies #[trigger] (
                    self.spec_listeners()[j]).inv() by {
                    if j != i {
                        assert(self.spec_listeners()[j] == before[j]);
                        assert(before[j].inv());
                    }
                }
            }
            i = i + 1;
        }
        let ghost done_listeners = self.spec_listeners();
        self.logs.push(entry);
        proof {
            assert(self.logs@.drop_last() =~= old(self).entries());
            assert(self.spec_listeners() == done_listeners);
            assert forall|j: int|
                0 <= j < self.spec_listeners().len() implies #[trigger] (
                self.spec_listeners()[j]).inv() by {
                assert(done_listeners[j].inv());
            }
        }
    }

    /// The recorded entries, for display.
    pub fn all(&self) -> (r: &Vec<Log>)
        ensures
            r@ == self.entries(),
    {
        &self.logs
    }
}

} // verus!
