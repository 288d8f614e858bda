use vstd::prelude::*;

use crate::schema::CommandOptionKind;
use crate::schema::CommandParameter;
use crate::schema::CommandSchema;
use crate::schema::PermissionRequirement;

verus! {

/// Failure raised by a command handler; the router logs it and carries on.
#[derive(Debug)]
pub struct CommandExecutionError;

impl CommandExecutionError {
    /// Human-readable description of the failure.
    pub fn message(&self) -> (r: String)
        ensures
            r@ == "Error whilst executing command"@,
    {
        String::from_str("Error whilst executing command")
    }
}

/// Static identity of a command: the name it is registered under and a short
/// description shown to users.
pub trait CommandInfo {
    spec fn spec_name(&self) -> Seq<char>;

    spec fn spec_description(&self) -> Seq<char>;

    fn name(&self) -> (r: String)
        ensures
            r@ == self.spec_name(),
    ;

    fn description(&self) -> (r: String)
        ensures
            r@ == self.spec_description(),
    ;
}

/// The guild-member ban command. Its authorization and sequencing logic
/// lives in [`crate::ban`]; this type carries its identity and schema.
#[derive(Debug)]
pub struct BanCommand;

impl CommandInfo for BanCommand {
    open spec fn spec_name(&self) -> Seq<char> {
        "ban"@
    }

    open spec fn spec_description(&self) -> Seq<char> {
        "Ban a user from the server"@
    }

    fn name(&self) -> (r: String) {
        String::from_str("ban")
    }

    fn description(&self) -> (r: String) {
        String::from_str("Ban a user from the server")
    }
}

/// Exact shape of the schema the ban command registers: a required user
/// parameter, an optional reason, gated on the ban-members capability and
/// unavailable in direct messages.
pub open spec fn ban_schema_wf(s: CommandSchema) -> bool {
    &&& s.name@ == "ban"@
    &&& s.description@ == "Ban a user from the server"@
    &&& s.parameters@.len() == 2
    &&& s.parameters@[0].name@ == "user"@
    &&& s.parameters@[0].description@ == "The user to ban"@
    &&& s.parameters@[0].kind is UserReference
    &&& s.parameters@[0].required
    &&& s.parameters@[1].name@ == "reason"@
    &&& s.parameters@[1].description@ == "Reason to ban the user"@
    &&& s.parameters@[1].kind is Text
    &&& !s.parameters@[1].required
    &&& s.default_permission is BanMembers
    &&& !s.available_in_dm
}

impl BanCommand {
    /// Registration metadata for this command.
    pub fn schema(&self) -> (r: CommandSchema)
        ensures
            ban_schema_wf(r),
    {
        let user_parameter = CommandParameter {
            name: String::from_str("user"),
            description: String::from_str("The user to ban"),
            kind: CommandOptionKind::UserReference,
            required: true,
        };
        let reason_parameter = CommandParameter {
            name: String::from_str("reason"),
            description: String::from_str("Reason to ban the user"),
            kind: CommandOptionKind::Text,
            required: false,
        };
        let mut parameters: Vec<CommandParameter> = Vec::new();
        parameters.push(user_parameter);
        parameters.push(reason_parameter);
        CommandSchema {
            name: self.name(),
            description: self.description(),
            parameters,
            default_permission: PermissionRequirement::BanMembers,
            available_in_dm: false,
        }
    }
}

/// The closed set of commands this bot ships. Registry entries dispatch on
/// the variant; adding a command means adding a variant here.
#[derive(Debug)]
pub enum RegisteredCommand {
    Ban(BanCommand),
}

impl RegisteredCommand {
    /// The name this handler is registered under.
    pub open spec fn spec_name(&self) -> Seq<char> {
        match self {
            RegisteredCommand::Ban(c) => c.spec_name(),
        }
    }

    pub fn name(&self) -> (r: String)
        ensures
            r@ == self.spec_name(),
    {
        match self {
            RegisteredCommand::Ban(c) => c.name(),
        }
    }

    /// The exact schema this handler registers.
    pub open spec fn schema_wf(&self, s: CommandSchema) -> bool {
        match self {
            RegisteredCommand::Ban(_) => ban_schema_wf(s),
        }
    }

    pub fn schema(&self) -> (r: CommandSchema)
        ensures
            self.schema_wf(r),
    {
        match self {
            RegisteredCommand::Ban(c) => c.schema(),
        }
    }
}

/// Every command this bot ships, in registration order.
pub fn load_commands() -> (r: Vec<RegisteredCommand>)
    ensures
        r@.len() == 1,
        r@[0] is Ban,
{
    let mut commands: Vec<RegisteredCommand> = Vec::new();
    commands.push(RegisteredCommand::Ban(BanCommand));
    commands
}

} // verus!
