//! The command registry: maps command names to their handlers.

use vstd::prelude::*;

use crate::command::command::Command;

verus! {

/// Performs one registered command; implemented by whichever collaborator is
/// plugged in at boot.
pub trait CommandHandler {
    fn perform(&mut self, command: Command);
}

/// The registered commands: each name appears once, with its handler.
pub struct CommandRegister<H: CommandHandler> {
    commands: Vec<(String, H)>,
}

impl<H: CommandHandler> CommandRegister<H> {
    /// The registered pairs, in registration order: each name with its
    /// handler.
    pub closed spec fn entries(&self) -> Seq<(Seq<char>, H)> {
        Seq::new(self.commands@.len(), |i: int| (self.commands@[i].0@, self.commands@[i].1))
    }

    /// The registered names, in registration order.
    pub open spec fn names(&self) -> Seq<Seq<char>> {
        Seq::new(self.entries().len(), |i: int| self.entries()[i].0)
    }

    /// Whether a handler is registered under `name`.
    pub open spec fn spec_has(&self, name: Seq<char>) -> bool {
        exists|i: int| 0 <= i < self.names().len() && self.names()[i] == name
    }

    /// Each name is registered at most once.
    pub open spec fn wf(&self) -> bool {
        forall|i: int, j: int|
            0 <= i < j < self.names().len() ==> self.names()[i] != self.names()[j]
    }

    pub fn new() -> (r: CommandRegister<H>)
        ensures
            r.wf(),
            r.names() == Seq::<Seq<char>>::empty(),
    {
        let r = CommandRegister { commands: Vec::new() };
        proof {
            assert(r.names() =~= Seq::<Seq<char>>::empty());
        }
        r
    }

    /// Registers `handler` under `command`: a new name is appended after the
    /// existing ones, and a name already present keeps its place with this
    /// handler in place of the one a previous registration installed; every
    /// other pair is untouched.
    pub fn register(&mut self, command: &str, handler: H)
        requires
            old(self).wf(),
        ensures
            final(self).wf(),
            final(self).spec_has(command@),
            old(self).spec_has(command@) ==> final(self).names() == old(self).names(),
            !old(self).spec_has(command@) ==> final(self).names() == old(self).names().push(
                command@,
            ),
            !old(self).spec_has(command@) ==> final(self).entries() == old(self).entries().push(
                (command@, handler),
            ),
            old(self).spec_has(command@) ==> exists|i: int|
                {
                    &&& 0 <= i < old(self).entries().len()
                    &&& old(self).entries()[i].0 == command@
                    &&& final(self).entries() == old(self).entries().update(
                        i,
                        (command@, handler),
                    )
                },
    {
        let name = command.to_owned();
        let ghost pre = self.names();
        let ghost pre_entries = self.entries();
        let mut i: usize = 0;
        while i < self.commands.len()
            invariant
                i <= self.commands@.len(),
                pre == old(self).names(),
                pre_entries == old(self).entries(),
                self.names() == pre,
                self.entries() == pre_entries,
                self.wf(),
                name@ == command@,
                forall|j: int| 0 <= j < i ==> self.names()[j] != command@,
            decreases self.commands@.len() - i,
        {
            if self.commands[i].0 == name {
                proof {
                    assert(old(self).names()[i as int] == command@);
                    assert(old(self).entries()[i as int].0 == command@);
                }
                let entry = &mut self.commands[i];
                *entry = (name, handler);
                proof {
                    assert(self.names() =~= pre);
                    assert(self.names()[i as int] == command@);
                    assert(self.entries() =~= pre_entries.update(i as int, (command@, handler)));
                    assert(self.entries() == old(self).entries().update(
                        i as int,
                        (command@, handler),
                    ));
                }
                return ;
            }
            i = i + 1;
        }
        self.commands.push((name, handler));
        proof {
            assert(self.names() =~= pre.push(command@));
            assert(self.names()[pre.len() as int] == command@);
            assert(self.entries() =~= pre_entries.push((command@, handler)));
        }
    }

    /// Looks up the command's name and hands the command to the handler
    /// registered under it, touching no other pair; reports whether a
    /// handler was registered (the embedding program tells the user about an
    /// unknown command).
    pub fn perform(&mut self, command: Command) -> (found: bool)
        ensures
            found == old(self).spec_has(command.command@),
            final(self).names() == old(self).names(),
            old(self).wf() ==> final(self).wf(),
            !found ==> final(self).entries() == old(self).entries(),
            found ==> exists|i: int|
                {
                    &&& 0 <= i < old(self).entries().len()
                    &&& old(self).entries()[i].0 == command.command@
                    &&& final(self).entries().len() == old(self).entries().len()
                    &&& final(self).entries()[i].0 == old(self).entries()[i].0
                    &&& forall|j: int|
                        0 <= j < old(self).entries().len() && j != i
                            ==> final(self).entries()[j] == old(self).entries()[j]
                },
    {
        let ghost pre = self.names();
        let ghost pre_entries = self.entries();
        let mut i: usize = 0;
        while i < self.commands.len()
            invariant
                i <= self.commands@.len(),
                pre == old(self).names(),
                pre_entries == old(self).entries(),
                self.names() == pre,
                self.entries() == pre_entries,
                old(self).wf() ==> self.wf(),
                forall|j: int| 0 <= j < i ==> self.names()[j] != command.command@,
            decreases self.commands@.len() - i,
        {
            if self.commands[i].0 == command.command {
                proof {
                    assert(old(self).names()[i as int] == command.command@);
                }
                let entry = &mut self.commands[i];
                entry.1.perform(command);
                proof {
                    assert(self.names() =~= pre);
                    assert(forall|j: int|
                        0 <= j < pre_entries.len() && j != i ==> #[trigger] self.entries()[j]
                            == pre_entries[j]);
                    assert(self.entries()[i as int].0 == pre_entries[i as int].0);
                }
                return true;
            }
            i = i + 1;
        }
        false
    }
}

} // verus!
