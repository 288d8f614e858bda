use vstd::prelude::*;

verus! {

/// A value supplied for one command argument.
#[derive(PartialEq, Eq, Debug)]
pub enum ArgumentValue {
    /// A reference to a platform user, by identity.
    UserRef(u64),
    /// Free-form text.
    Text(String),
    /// A value of any other platform-side kind; the ban logic accepts none.
    Other,
}

impl ArgumentValue {
    /// Deep copy; text is cloned character for character.
    pub fn duplicate(&self) -> (r: Self)
        ensures
            r == *self,
    {
        match self {
            ArgumentValue::UserRef(id) => ArgumentValue::UserRef(*id),
            ArgumentValue::Text(s) => ArgumentValue::Text(s.clone()),
            ArgumentValue::Other => ArgumentValue::Other,
        }
    }
}

/// The invoking user's guild-member record, as far as the ban logic reads it.
#[derive(PartialEq, Eq, Debug, Clone, Copy)]
pub struct MemberInfo {
    /// Position of the member's most senior role: higher is more senior.
    /// Absent when no position is known for the member.
    pub highest_role_position: Option<i64>,
}

/// One inbound command interaction, reduced to the plain values the
/// dispatch and ban logic read.
#[derive(PartialEq, Eq, Debug)]
pub struct InteractionInput {
    /// Name of the invoked command, used by the router for dispatch.
    pub command_name: String,
    /// Identity of the invoking user.
    pub invoker_id: u64,
    /// The guild the interaction originated in; absent for direct messages.
    pub guild_id: Option<u64>,
    /// The invoker's member record; present only in-guild.
    pub invoker_member: Option<MemberInfo>,
    /// Supplied argument values, in declaration order: the target user
    /// first, then the optional reason.
    pub arguments: Vec<ArgumentValue>,
}

/// The remote operations the ban command performs, named so a failure can
/// say which call failed.
#[derive(PartialEq, Eq, Debug, Clone, Copy)]
pub enum RemoteOperation {
    ResolveUser,
    ResolveGuild,
    ResolveMember,
    Ban,
    Reply,
}

/// Why a ban interaction aborted without reaching a user-facing outcome.
#[derive(PartialEq, Eq, Debug, Clone, Copy)]
pub enum BanError {
    /// The interaction carried no invoking member: malformed invocation.
    MissingInvokerMember,
    /// No target argument was supplied: malformed invocation.
    MissingTargetArgument,
    /// The target argument was not a user reference: malformed invocation.
    InvalidTargetArgument,
    /// The interaction carried no guild identity.
    MissingGuild,
    /// The reason argument was not text: malformed invocation.
    InvalidReasonArgument,
    /// A remote call failed; the interaction aborts and nothing is retried.
    RemoteFailure(RemoteOperation),
}

/// Terminal outcome of a ban interaction. Each produces exactly one
/// ephemeral reply to the invoker.
#[derive(PartialEq, Eq, Debug, Clone, Copy)]
pub enum BanOutcome {
    SelfTargetRejected,
    OwnerProtected,
    InsufficientPrivilege,
    Banned,
}

/// Content of the single ephemeral reply a ban interaction sends.
#[derive(PartialEq, Eq, Debug)]
pub enum ReplyContent {
    SelfTarget,
    OwnerProtected,
    InsufficientPrivilege,
    Banned { display_name: String },
}

/// A remote call the driver must perform before reporting the next event.
#[derive(PartialEq, Eq, Debug)]
pub enum BanAction {
    FetchUser { user_id: u64 },
    FetchGuild { guild_id: u64 },
    FetchMember { guild_id: u64, user_id: u64 },
    ExecuteBan { guild_id: u64, user_id: u64, reason: Option<String>, delete_message_days: u8 },
    SendEphemeralReply { content: ReplyContent },
}

/// What the driver learned from the remote call it was asked to perform.
#[derive(PartialEq, Eq, Debug)]
pub enum BanEvent {
    UserResolved { username: String, display_name: Option<String> },
    UserResolutionFailed,
    GuildResolved { owner_id: u64 },
    GuildResolutionFailed,
    MemberResolved { highest_role_position: Option<i64> },
    MemberResolutionFailed,
    BanSucceeded,
    BanFailed,
    ReplyDelivered,
    ReplyFailed,
}

/// Immutable facts about the interaction, carried through one ban session.
#[derive(PartialEq, Eq, Debug)]
pub struct BanContext {
    pub invoker_id: u64,
    /// Position of the invoker's most senior role, if known.
    pub invoker_role_position: Option<i64>,
    pub guild_id: Option<u64>,
    pub target_id: u64,
    /// The raw optional second argument; examined only when the ban is
    /// issued, as later checks may end the session first.
    pub reason_argument: Option<ArgumentValue>,
}

/// State of one ban session between two remote calls.
#[derive(PartialEq, Eq, Debug)]
pub enum BanState {
    ResolvingUser { ctx: BanContext },
    ResolvingGuild { ctx: BanContext, target_name: String, guild_id: u64 },
    ResolvingMember { ctx: BanContext, target_name: String, guild_id: u64, owner_id: u64 },
    Banning { target_name: String },
    Replying { outcome: BanOutcome },
    Done { outcome: BanOutcome },
    Failed { error: BanError },
}

/// The name a banned user is announced under: the display name when one is
/// set, the primary username otherwise.
pub open spec fn spec_preferred_name(username: String, display_name: Option<String>) -> String {
    match display_name {
        Some(d) => d,
        None => username,
    }
}

pub fn preferred_name(username: String, display_name: Option<String>) -> (r: String)
    ensures
        r == spec_preferred_name(username, display_name),
{
    match display_name {
        Some(d) => d,
        None => username,
    }
}

/// Whether the role hierarchy forbids the ban: the target ranks at least as
/// high as the invoker, both positions are known, and the invoker is not the
/// guild owner (the owner outranks everyone).
pub open spec fn spec_hierarchy_blocks(
    invoker_position: Option<i64>,
    target_position: Option<i64>,
    invoker_is_owner: bool,
) -> bool {
    match (invoker_position, target_position) {
        (Some(invoker_pos), Some(target_pos)) => target_pos >= invoker_pos && !invoker_is_owner,
        _ => false,
    }
}

pub fn hierarchy_blocks(
    invoker_position: Option<i64>,
    target_position: Option<i64>,
    invoker_is_owner: bool,
) -> (r: bool)
    ensures
        r == spec_hierarchy_blocks(invoker_position, target_position, invoker_is_owner),
{
    match (invoker_position, target_position) {
        (Some(invoker_pos), Some(target_pos)) => target_pos >= invoker_pos && !invoker_is_owner,
        _ => false,
    }
}

/// The reason carried by a well-formed reason argument; anything else means
/// the plain, reason-less ban.
pub open spec fn spec_reason_of(argument: Option<ArgumentValue>) -> Option<String> {
    match argument {
        Some(ArgumentValue::Text(reason)) => Some(reason),
        _ => None,
    }
}

/// A reason argument is well-formed when it is absent or text; any other
/// kind is a malformed invocation.
pub open spec fn spec_reason_wf(argument: Option<ArgumentValue>) -> bool {
    match argument {
        None => true,
        Some(ArgumentValue::Text(_)) => true,
        Some(_) => false,
    }
}

/// Validating the interaction and opening a ban session. Fails, without any
/// user-facing reply, when the interaction carries no invoking member or no
/// user-reference target argument; otherwise the session starts by resolving
/// the target user.
pub open spec fn spec_begin(input: InteractionInput) -> Result<(BanState, BanAction), BanError> {
    if input.invoker_member is None {
        Err(BanError::MissingInvokerMember)
    } else if input.arguments@.len() == 0 {
        Err(BanError::MissingTargetArgument)
    } else {
        match input.arguments@[0] {
            ArgumentValue::UserRef(target_id) => {
                let ctx = BanContext {
                    invoker_id: input.invoker_id,
                    invoker_role_position: match input.invoker_member {
                        Some(member) => member.highest_role_position,
                        None => None,
                    },
                    guild_id: input.guild_id,
                    target_id,
                    reason_argument: if input.arguments@.len() >= 2 {
                        Some(input.arguments@[1])
                    } else {
                        None
                    },
                };
                Ok(
                    (
                        BanState::ResolvingUser { ctx },
                        BanAction::FetchUser { user_id: target_id },
                    ),
                )
            },
            _ => Err(BanError::InvalidTargetArgument),
        }
    }
}

pub fn begin(input: &InteractionInput) -> (r: Result<(BanState, BanAction), BanError>)
    ensures
        r == spec_begin(*input),
{
    if input.invoker_member.is_none() {
        return Err(BanError::MissingInvokerMember);
    }
    if input.arguments.len() == 0 {
        return Err(BanError::MissingTargetArgument);
    }
    let first = input.arguments[0].duplicate();
    match first {
        ArgumentValue::UserRef(target_id) => {
            let invoker_role_position = match &input.invoker_member {
                Some(member) => member.highest_role_position,
                None => None,
            };
            let reason_argument = if input.arguments.len() >= 2 {
                Some(input.arguments[1].duplicate())
            } else {
                None
            };
            let ctx = BanContext {
                invoker_id: input.invoker_id,
                invoker_role_position,
                guild_id: input.guild_id,
                target_id,
                reason_argument,
            };
            Ok((BanState::ResolvingUser { ctx }, BanAction::FetchUser { user_id: target_id }))
        },
        _ => Err(BanError::InvalidTargetArgument),
    }
}

/// Issuing the ban once every check has passed: with the supplied reason
/// when the reason argument is text, reason-less when it is absent, and a
/// malformed-invocation failure when it is anything else. No messages are
/// deleted alongside the ban.
pub open spec fn spec_issue_ban(ctx: BanContext, target_name: String, guild_id: u64) -> (
    BanState,
    Option<BanAction>,
) {
    match ctx.reason_argument {
        Some(ArgumentValue::Text(reason)) => (
            (BanState::Banning { target_name }),
            Some(
                (BanAction::ExecuteBan {
                    guild_id,
                    user_id: ctx.target_id,
                    reason: Some(reason),
                    delete_message_days: 0,
                }),
            ),
        ),
        None => (
            (BanState::Banning { target_name }),
            Some(
                (BanAction::ExecuteBan {
                    guild_id,
                    user_id: ctx.target_id,
                    reason: None,
                    delete_message_days: 0,
                }),
            ),
        ),
        Some(_) => ((BanState::Failed { error: BanError::InvalidReasonArgument }), None),
    }
}

fn issue_ban(ctx: BanContext, target_name: String, guild_id: u64) -> (r: (
    BanState,
    Option<BanAction>,
))
    ensures
        r == spec_issue_ban(ctx, target_name, guild_id),
{
    match ctx.reason_argument {
        Some(ArgumentValue::Text(reason)) => (
            BanState::Banning { target_name },
            Some(
                BanAction::ExecuteBan {
                    guild_id,
                    user_id: ctx.target_id,
                    reason: Some(reason),
                    delete_message_days: 0,
                },
            ),
        ),
        None => (
            BanState::Banning { target_name },
            Some(
                BanAction::ExecuteBan {
                    guild_id,
                    user_id: ctx.target_id,
                    reason: None,
                    delete_message_days: 0,
                },
            ),
        ),
        Some(_) => (BanState::Failed { error: BanError::InvalidReasonArgument }, None),
    }
}

/// One transition of the ban session: what the state becomes on an event,
/// and the remote call, if any, the driver must perform next. An event that
/// does not belong to the current state changes nothing.
///
/// The checks run in order: a self-targeted ban is rejected first, then a
/// ban of the guild owner, then one the role hierarchy forbids; a target
/// that is no longer a member skips the hierarchy check and is banned by
/// user identity alone. Each rejection is an outcome, not an error, and is
/// announced to the invoker alone.
pub open spec fn spec_step(pre: BanState, event: BanEvent) -> (BanState, Option<BanAction>) {
    match (pre, event) {
        (
            BanState::ResolvingUser { ctx },
            BanEvent::UserResolved { username, display_name },
        ) => match ctx.guild_id {
            None => ((BanState::Failed { error: BanError::MissingGuild }), None),
            Some(guild_id) => (
                (BanState::ResolvingGuild {
                    ctx,
                    target_name: spec_preferred_name(username, display_name),
                    guild_id,
                }),
                Some((BanAction::FetchGuild { guild_id })),
            ),
        },
        (BanState::ResolvingUser { ctx }, BanEvent::UserResolutionFailed) => (
            (BanState::Failed { error: BanError::RemoteFailure(RemoteOperation::ResolveUser) }),
            None,
        ),
        (
            BanState::ResolvingGuild { ctx, target_name, guild_id },
            BanEvent::GuildResolved { owner_id },
        ) => {
            if ctx.target_id == ctx.invoker_id {
                (
                    (BanState::Replying { outcome: BanOutcome::SelfTargetRejected }),
                    Some((BanAction::SendEphemeralReply { content: ReplyContent::SelfTarget })),
                )
            } else if owner_id == ctx.target_id {
                (
                    (BanState::Replying { outcome: BanOutcome::OwnerProtected }),
                    Some((BanAction::SendEphemeralReply { content: ReplyContent::OwnerProtected })),
                )
            } else {
                (
                    (BanState::ResolvingMember { ctx, target_name, guild_id, owner_id }),
                    Some((BanAction::FetchMember { guild_id, user_id: ctx.target_id })),
                )
            }
        },
        (BanState::ResolvingGuild { ctx, target_name, guild_id }, BanEvent::GuildResolutionFailed)
            => (
            (BanState::Failed { error: BanError::RemoteFailure(RemoteOperation::ResolveGuild) }),
            None,
        ),
        (
            BanState::ResolvingMember { ctx, target_name, guild_id, owner_id },
            BanEvent::MemberResolved { highest_role_position },
        ) => {
            if spec_hierarchy_blocks(
                ctx.invoker_role_position,
                highest_role_position,
                ctx.invoker_id == owner_id,
            ) {
                (
                    (BanState::Replying { outcome: BanOutcome::InsufficientPrivilege }),
                    Some(
                        (BanAction::SendEphemeralReply {
                            content: ReplyContent::InsufficientPrivilege,
                        }),
                    ),
                )
            } else {
                spec_issue_ban(ctx, target_name, guild_id)
            }
        },
        (
            BanState::ResolvingMember { ctx, target_name, guild_id, owner_id },
            BanEvent::MemberResolutionFailed,
        ) => spec_issue_ban(ctx, target_name, guild_id),
        (BanState::Banning { target_name }, BanEvent::BanSucceeded) => (
            (BanState::Replying { outcome: BanOutcome::Banned }),
            Some(
                (BanAction::SendEphemeralReply {
                    content: (ReplyContent::Banned { display_name: target_name }),
                }),
            ),
        ),
        (BanState::Banning { target_name }, BanEvent::BanFailed) => (
            (BanState::Failed { error: BanError::RemoteFailure(RemoteOperation::Ban) }),
            None,
        ),
        (BanState::Replying { outcome }, BanEvent::ReplyDelivered) => (
            (BanState::Done { outcome }),
            None,
        ),
        (BanState::Replying { outcome }, BanEvent::ReplyFailed) => (
            (BanState::Failed { error: BanError::RemoteFailure(RemoteOperation::Reply) }),
            None,
        ),
        (state, _) => (state, None),
    }
}

pub fn step(state: BanState, event: BanEvent) -> (r: (BanState, Option<BanAction>))
    ensures
        r == spec_step(state, event),
{
    match (state, event) {
        (
            BanState::ResolvingUser { ctx },
            BanEvent::UserResolved { username, display_name },
        ) => match ctx.guild_id {
            None => (BanState::Failed { error: BanError::MissingGuild }, None),
            Some(guild_id) => (
                BanState::ResolvingGuild {
                    ctx,
                    target_name: preferred_name(username, display_name),
                    guild_id,
                },
                Some(BanAction::FetchGuild { guild_id }),
            ),
        },
        (BanState::ResolvingUser { ctx }, BanEvent::UserResolutionFailed) => (
            BanState::Failed { error: BanError::RemoteFailure(RemoteOperation::ResolveUser) },
            None,
        ),
        (
            BanState::ResolvingGuild { ctx, target_name, guild_id },
            BanEvent::GuildResolved { owner_id },
        ) => {
            if ctx.target_id == ctx.invoker_id {
                (
                    BanState::Replying { outcome: BanOutcome::SelfTargetRejected },
                    Some(BanAction::SendEphemeralReply { content: ReplyContent::SelfTarget }),
                )
            } else if owner_id == ctx.target_id {
                (
                    BanState::Replying { outcome: BanOutcome::OwnerProtected },
                    Some(BanAction::SendEphemeralReply { content: ReplyContent::OwnerProtected }),
                )
            } else {
                let user_id = ctx.target_id;
                (
                    BanState::ResolvingMember { ctx, target_name, guild_id, owner_id },
                    Some(BanAction::FetchMember { guild_id, user_id }),
                )
            }
        },
        (BanState::ResolvingGuild { ctx, target_name, guild_id }, BanEvent::GuildResolutionFailed)
            => (
            BanState::Failed { error: BanError::RemoteFailure(RemoteOperation::ResolveGuild) },
            None,
        ),
        (
            BanState::ResolvingMember { ctx, target_name, guild_id, owner_id },
            BanEvent::MemberResolved { highest_role_position },
        ) => {
            if hierarchy_blocks(
                ctx.invoker_role_position,
                highest_role_position,
                ctx.invoker_id == owner_id,
            ) {
                (
                    BanState::Replying { outcome: BanOutcome::InsufficientPrivilege },
                    Some(
                        BanAction::SendEphemeralReply {
                            content: ReplyContent::InsufficientPrivilege,
                        },
                    ),
                )
            } else {
                issue_ban(ctx, target_name, guild_id)
            }
        },
        (
            BanState::ResolvingMember { ctx, target_name, guild_id, owner_id },
            BanEvent::MemberResolutionFailed,
        ) => issue_ban(ctx, target_name, guild_id),
        (BanState::Banning { target_name }, BanEvent::BanSucceeded) => (
            BanState::Replying { outcome: BanOutcome::Banned },
            Some(
                BanAction::SendEphemeralReply {
                    content: ReplyContent::Banned { display_name: target_name },
                },
            ),
        ),
        (BanState::Banning { target_name }, BanEvent::BanFailed) => (
            BanState::Failed { error: BanError::RemoteFailure(RemoteOperation::Ban) },
            None,
        ),
        (BanState::Replying { outcome }, BanEvent::ReplyDelivered) => (
            BanState::Done { outcome },
            None,
        ),
        (BanState::Replying { outcome }, BanEvent::ReplyFailed) => (
            BanState::Failed { error: BanError::RemoteFailure(RemoteOperation::Reply) },
            None,
        ),
        (other, _) => (other, None),
    }
}

/// The exact text of each ephemeral reply.
pub open spec fn spec_reply_text(content: ReplyContent) -> Seq<char> {
    match content {
        ReplyContent::SelfTarget => "You're unable to ban yourself..."@,
        ReplyContent::OwnerProtected => "Unable to ban server owner"@,
        ReplyContent::InsufficientPrivilege => "You lack sufficient privileges to ban this user"@,
        ReplyContent::Banned { display_name } => "Banned "@ + display_name@,
    }
}

pub fn reply_text(content: &ReplyContent) -> (r: String)
    ensures
        r@ == spec_reply_text(*content),
{
    match content {
        ReplyContent::SelfTarget => String::from_str("You're unable to ban yourself..."),
        ReplyContent::OwnerProtected => String::from_str("Unable to ban server owner"),
        ReplyContent::InsufficientPrivilege => String::from_str(
            "You lack sufficient privileges to ban this user",
        ),
        ReplyContent::Banned { display_name } => String::from_str("Banned ").concat(
            display_name.as_str(),
        ),
    }
}

/// A self-targeted ban is rejected before any hierarchy information is
/// consulted: whoever owns the guild and whatever the role positions, the
/// outcome is `SelfTargetRejected`, announced by the self-ban reply.
pub proof fn lemma_self_target_rejected(
    ctx: BanContext,
    target_name: String,
    guild_id: u64,
    owner_id: u64,
)
    requires
        ctx.target_id == ctx.invoker_id,
    ensures
        ({
            let (post, action) = spec_step(
                (BanState::ResolvingGuild { ctx, target_name, guild_id }),
                (BanEvent::GuildResolved { owner_id }),
            );
            &&& post == (BanState::Replying { outcome: BanOutcome::SelfTargetRejected })
            &&& action == Some(
                (BanAction::SendEphemeralReply { content: ReplyContent::SelfTarget }),
            )
        }),
{
}

/// A ban whose target is the guild owner, by someone other than the owner
/// themselves, is always rejected with the owner-protection reply.
pub proof fn lemma_owner_protected(
    ctx: BanContext,
    target_name: String,
    guild_id: u64,
    owner_id: u64,
)
    requires
        ctx.target_id != ctx.invoker_id,
        ctx.target_id == owner_id,
    ensures
        ({
            let (post, action) = spec_step(
                (BanState::ResolvingGuild { ctx, target_name, guild_id }),
                (BanEvent::GuildResolved { owner_id }),
            );
            &&& post == (BanState::Replying { outcome: BanOutcome::OwnerProtected })
            &&& action == Some(
                (BanAction::SendEphemeralReply { content: ReplyContent::OwnerProtected }),
            )
        }),
{
}

/// An invoker who is not the guild owner cannot ban a target whose highest
/// role ranks at least as high as their own: the session ends in
/// `InsufficientPrivilege` and no ban is issued.
pub proof fn lemma_hierarchy_blocks_ban(
    ctx: BanContext,
    target_name: String,
    guild_id: u64,
    owner_id: u64,
    invoker_position: i64,
    target_position: i64,
)
    requires
        ctx.invoker_id != owner_id,
        ctx.invoker_role_position == Some(invoker_position),
        target_position >= invoker_position,
    ensures
        ({
            let (post, action) = spec_step(
                (BanState::ResolvingMember { ctx, target_name, guild_id, owner_id }),
                (BanEvent::MemberResolved { highest_role_position: Some(target_position) }),
            );
            &&& post == (BanState::Replying { outcome: BanOutcome::InsufficientPrivilege })
            &&& action == Some(
                (BanAction::SendEphemeralReply { content: ReplyContent::InsufficientPrivilege }),
            )
        }),
{
}

/// When the invoker owns the guild, the hierarchy never blocks the ban:
/// whatever the target's role position, the ban is issued, with exactly the
/// reason the interaction supplied.
pub proof fn lemma_owner_never_blocked(
    ctx: BanContext,
    target_name: String,
    guild_id: u64,
    highest_role_position: Option<i64>,
)
    requires
        spec_reason_wf(ctx.reason_argument),
    ensures
        ({
            let (post, action) = spec_step(
                (BanState::ResolvingMember {
                    ctx,
                    target_name,
                    guild_id,
                    owner_id: ctx.invoker_id,
                }),
                (BanEvent::MemberResolved { highest_role_position }),
            );
            &&& post == (BanState::Banning { target_name })
            &&& action == Some(
                (BanAction::ExecuteBan {
                    guild_id,
                    user_id: ctx.target_id,
                    reason: spec_reason_of(ctx.reason_argument),
                    delete_message_days: 0,
                }),
            )
        }),
{
}

/// When the target cannot be resolved as a guild member, no hierarchy check
/// is performed: the ban is attempted directly by user identity, with
/// exactly the reason the interaction supplied.
pub proof fn lemma_member_resolution_failure_skips_hierarchy(
    ctx: BanContext,
    target_name: String,
    guild_id: u64,
    owner_id: u64,
)
    requires
        spec_reason_wf(ctx.reason_argument),
    ensures
        ({
            let (post, action) = spec_step(
                (BanState::ResolvingMember { ctx, target_name, guild_id, owner_id }),
                BanEvent::MemberResolutionFailed,
            );
            &&& post == (BanState::Banning { target_name })
            &&& action == Some(
                (BanAction::ExecuteBan {
                    guild_id,
                    user_id: ctx.target_id,
                    reason: spec_reason_of(ctx.reason_argument),
                    delete_message_days: 0,
                }),
            )
        }),
{
}

/// The permitted path: a target that is neither the invoker nor the guild
/// owner, whose highest role ranks below the invoker's, is banned — the
/// session moves through member resolution straight to the ban call, with
/// exactly the reason the interaction supplied.
pub proof fn lemma_permitted_ban_is_issued(
    ctx: BanContext,
    target_name: String,
    guild_id: u64,
    owner_id: u64,
    target_position: Option<i64>,
)
    requires
        ctx.target_id != ctx.invoker_id,
        ctx.target_id != owner_id,
        !spec_hierarchy_blocks(
            ctx.invoker_role_position,
            target_position,
            ctx.invoker_id == owner_id,
        ),
        spec_reason_wf(ctx.reason_argument),
    ensures
        ({
            let (mid, fetch) = spec_step(
                (BanState::ResolvingGuild { ctx, target_name, guild_id }),
                (BanEvent::GuildResolved { owner_id }),
            );
            let (post, action) = spec_step(
                mid,
                (BanEvent::MemberResolved { highest_role_position: target_position }),
            );
            &&& mid == (BanState::ResolvingMember { ctx, target_name, guild_id, owner_id })
            &&& fetch == Some((BanAction::FetchMember { guild_id, user_id: ctx.target_id }))
            &&& post == (BanState::Banning { target_name })
            &&& action == Some(
                (BanAction::ExecuteBan {
                    guild_id,
                    user_id: ctx.target_id,
                    reason: spec_reason_of(ctx.reason_argument),
                    delete_message_days: 0,
                }),
            )
        }),
{
}

} // verus!
