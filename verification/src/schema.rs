use vstd::prelude::*;

verus! {

/// The platform-side type of one command parameter.
#[derive(PartialEq, Eq, Debug, Clone, Copy)]
pub enum CommandOptionKind {
    /// A reference to a platform user, resolved to a user identity.
    UserReference,
    /// Free-form text.
    Text,
}

/// The capability a guild member must hold before the platform offers the
/// command to them by default.
#[derive(PartialEq, Eq, Debug, Clone, Copy)]
pub enum PermissionRequirement {
    /// The member may ban other members.
    BanMembers,
}

/// One declared parameter of a command.
#[derive(PartialEq, Eq, Debug)]
pub struct CommandParameter {
    pub name: String,
    pub description: String,
    pub kind: CommandOptionKind,
    pub required: bool,
}

/// Declarative description of one command: what is uploaded to the remote
/// platform so the command can be discovered and invoked. Immutable once
/// constructed.
#[derive(PartialEq, Eq, Debug)]
pub struct CommandSchema {
    pub name: String,
    pub description: String,
    /// Parameters in declaration order.
    pub parameters: Vec<CommandParameter>,
    pub default_permission: PermissionRequirement,
    /// Whether the command may be invoked outside a guild.
    pub available_in_dm: bool,
}

} // verus!
