//! The lookup table from command names to commands.
//!
//! A shell registers the commands that it serves; the front end then asks for
//! one by name. A name resolves only to a command that was registered.

use vstd::prelude::*;
use crate::command::lemma_named_has_name;
use crate::command::Command;

verus! {

/// What `name` resolves to in a table that holds `contents`: the command of
/// that name, if there is one and it was registered.
pub open spec fn resolve(contents: Set<Command>, name: Seq<char>) -> Option<Command> {
    match Command::named(name) {
        Some(command) => if contents.contains(command) {
            Some(command)
        } else {
            None
        },
        None => None,
    }
}

/// The commands that a shell serves. Its view is the set of them: the order
/// of registration does not matter, and registering twice is registering once.
pub struct Registry {
    entries: Vec<Command>,
}

impl View for Registry {
    type V = Set<Command>;

    closed spec fn view(&self) -> Set<Command> {
        self.entries@.to_set()
    }
}

impl Registry {
    #[verifier::type_invariant]
    spec fn distinct(&self) -> bool {
        self.entries@.no_duplicates()
    }

    /// A table with no command in it.
    pub fn new() -> (registry: Registry)
        ensures
            registry@ == Set::<Command>::empty(),
    {
        let registry = Registry { entries: Vec::new() };
        assert(registry@ =~= Set::<Command>::empty());
        registry
    }

    /// Tells whether `command` was registered.
    pub fn is_registered(&self, command: Command) -> (yes: bool)
        ensures
            yes == self@.contains(command),
    {
        let mut i: usize = 0;
        while i < self.entries.len()
            invariant
                i <= self.entries@.len(),
                forall|k: int| 0 <= k < i ==> self.entries@[k] != command,
            decreases self.entries@.len() - i,
        {
            if self.entries[i] == command {
                return true;
            }
            i += 1;
        }
        false
    }

    /// Registers `command`. The table then holds it, and what it held before.
    pub fn register(&mut self, command: Command)
        ensures
            final(self)@ == old(self)@.insert(command),
    {
        if !self.is_registered(command) {
            proof {
                use_type_invariant(&*self);
                self.entries@.lemma_push_to_set_commute(command);
            }
            let mut entries: Vec<Command> = Vec::new();
            core::mem::swap(&mut self.entries, &mut entries);
            entries.push(command);
            self.entries = entries;
        } else {
            assert(self@ =~= self@.insert(command));
        }
    }

    /// How many commands are registered.
    pub fn len(&self) -> (count: usize)
        ensures
            count == self@.len(),
    {
        proof {
            use_type_invariant(self);
            self.entries@.unique_seq_to_set();
        }
        self.entries.len()
    }

    /// Resolves `name`. `None` means that the table serves no command of
    /// this name.
    pub fn lookup(&self, name: &str) -> (found: Option<Command>)
        ensures
            found == resolve(self@, name@),
    {
        match Command::from_name(name) {
            Some(command) => if self.is_registered(command) {
                Some(command)
            } else {
                None
            },
            None => None,
        }
    }
}

/// Registering a command that the table already holds changes nothing: the
/// table holds what it held, and every name resolves as it did.
pub proof fn lemma_register_again(contents: Set<Command>, command: Command, name: Seq<char>)
    ensures
        contents.insert(command).insert(command) == contents.insert(command),
        contents.contains(command) ==> contents.insert(command) == contents,
        resolve(contents.insert(command).insert(command), name) == resolve(
            contents.insert(command),
            name,
        ),
{
    assert(contents.insert(command).insert(command) =~= contents.insert(command));
    if contents.contains(command) {
        assert(contents.insert(command) =~= contents);
    }
}

/// A name resolves to a command exactly when it is the name of that command
/// and the command was registered.
pub proof fn lemma_resolve_registered(contents: Set<Command>, name: Seq<char>, command: Command)
    ensures
        resolve(contents, name) == Some(command) <==> {
            &&& contents.contains(command)
            &&& name == command.spec_name()
        },
{
    lemma_named_has_name(name, command);
}

} // verus!
