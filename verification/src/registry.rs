use vstd::prelude::*;

use crate::commands::RegisteredCommand;
use crate::schema::CommandSchema;

verus! {

/// Failure while building the registry. Collisions are a programming error
/// caught at construction time, never a user-facing failure.
#[derive(PartialEq, Eq, Debug, Clone, Copy)]
pub enum RegistryError {
    /// A handler with the same name is already registered.
    DuplicateName,
}

/// An ordered collection of command handlers, built once at startup and
/// read-only thereafter. Invariant: no two entries share a name.
pub struct CommandRegistry {
    commands: Vec<RegisteredCommand>,
}

impl CommandRegistry {
    /// The registered handlers, in insertion order.
    pub closed spec fn spec_commands(&self) -> Seq<RegisteredCommand> {
        self.commands@
    }

    /// No two registered handlers share a name.
    pub open spec fn wf(&self) -> bool {
        forall|i: int, j: int|
            0 <= i < j < self.spec_commands().len() ==> #[trigger] self.spec_commands()[i].spec_name()
                != #[trigger] self.spec_commands()[j].spec_name()
    }

    /// Some registered handler carries this name.
    pub open spec fn contains_name(&self, name: Seq<char>) -> bool {
        exists|i: int|
            0 <= i < self.spec_commands().len() && #[trigger] self.spec_commands()[i].spec_name()
                == name
    }

    pub fn new() -> (r: Self)
        ensures
            r.wf(),
            r.spec_commands() =~= Seq::<RegisteredCommand>::empty(),
    {
        Self { commands: Vec::new() }
    }

    /// Adds one handler; rejects a handler whose name is already taken and
    /// leaves the registry unchanged in that case.
    pub fn register(&mut self, command: RegisteredCommand) -> (r: Result<(), RegistryError>)
        requires
            old(self).wf(),
        ensures
            final(self).wf(),
            r is Ok ==> final(self).spec_commands() == old(self).spec_commands().push(command),
            r is Err ==> *final(self) == *old(self),
            r is Err <==> old(self).contains_name(command.spec_name()),
    {
        let name = command.name();
        let mut i: usize = 0;
        while i < self.commands.len()
            invariant
                0 <= i <= self.commands.len(),
                *self == *old(self),
                self.wf(),
                name@ == command.spec_name(),
                forall|k: int|
                    0 <= k < i ==> #[trigger] self.commands@[k].spec_name() != command.spec_name(),
            decreases self.commands.len() - i,
        {
            let existing = self.commands[i].name();
            if existing == name {
                assert(self.spec_commands()[i as int].spec_name() == command.spec_name());
                return Err(RegistryError::DuplicateName);
            }
            i += 1;
        }
        self.commands.push(command);
        Ok(())
    }

    /// Looks a handler up by name: the handler registered under exactly that
    /// name, and no other. An unregistered name yields no match.
    pub fn lookup(&self, name: &String) -> (r: Option<&RegisteredCommand>)
        ensures
            match r {
                Some(c) => {
                    &&& c.spec_name() == name@
                    &&& exists|i: int|
                        0 <= i < self.spec_commands().len() && #[trigger] self.spec_commands()[i]
                            == *c
                },
                None => !self.contains_name(name@),
            },
    {
        let mut i: usize = 0;
        while i < self.commands.len()
            invariant
                0 <= i <= self.commands.len(),
                forall|k: int|
                    0 <= k < i ==> #[trigger] self.commands@[k].spec_name() != name@,
            decreases self.commands.len() - i,
        {
            let candidate = self.commands[i].name();
            if candidate == *name {
                assert(self.spec_commands()[i as int] == self.commands@[i as int]);
                return Some(&self.commands[i]);
            }
            i += 1;
        }
        None
    }

    /// Registration metadata for every handler, in insertion order, for bulk
    /// upload to the remote platform.
    pub fn all_schemas(&self) -> (r: Vec<CommandSchema>)
        ensures
            r@.len() == self.spec_commands().len(),
            forall|i: int|
                0 <= i < r@.len() ==> #[trigger] self.spec_commands()[i].schema_wf(r@[i]),
    {
        let mut schemas: Vec<CommandSchema> = Vec::new();
        let mut i: usize = 0;
        while i < self.commands.len()
            invariant
                0 <= i <= self.commands.len(),
                schemas@.len() == i,
                forall|k: int|
                    0 <= k < i ==> #[trigger] self.commands@[k].schema_wf(schemas@[k]),
            decreases self.commands.len() - i,
        {
            let schema = self.commands[i].schema();
            schemas.push(schema);
            i += 1;
        }
        schemas
    }

    /// Number of registered handlers.
    pub fn len(&self) -> (r: usize)
        ensures
            r == self.spec_commands().len(),
    {
        self.commands.len()
    }
}

/// The remote platform's semantics for a bulk command push: the guild's
/// previously visible command list is replaced wholesale by the pushed set;
/// nothing is merged and nothing is left behind.
pub open spec fn commands_after_push(
    previous: Seq<CommandSchema>,
    pushed: Seq<CommandSchema>,
) -> Seq<CommandSchema> {
    pushed
}

/// Re-running registration with an unchanged schema set leaves the
/// remote-visible command list as a single push does: no duplicate and no
/// orphaned entries.
pub proof fn lemma_reregistration_idempotent(
    previous: Seq<CommandSchema>,
    pushed: Seq<CommandSchema>,
)
    ensures
        commands_after_push(commands_after_push(previous, pushed), pushed) == commands_after_push(
            previous,
            pushed,
        ),
{
}

} // verus!
