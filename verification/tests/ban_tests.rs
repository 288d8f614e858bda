use modbot::ban::{
    begin, hierarchy_blocks, preferred_name, reply_text, step, ArgumentValue, BanAction,
    BanContext, BanError, BanEvent, BanOutcome, BanState, InteractionInput, MemberInfo,
    RemoteOperation, ReplyContent,
};

const GUILD: u64 = 77;

fn guild_input(
    invoker_id: u64,
    invoker_pos: Option<i64>,
    arguments: Vec<ArgumentValue>,
) -> InteractionInput {
    InteractionInput {
        command_name: String::from("ban"),
        invoker_id,
        guild_id: Some(GUILD),
        invoker_member: Some(MemberInfo {
            highest_role_position: invoker_pos,
        }),
        arguments,
    }
}

fn resolved_user(name: &str, display: Option<&str>) -> BanEvent {
    BanEvent::UserResolved {
        username: String::from(name),
        display_name: display.map(String::from),
    }
}

#[test]
fn self_target_rejected_regardless_of_positions() {
    let input = guild_input(1, Some(1), vec![ArgumentValue::UserRef(1)]);
    let (state, action) = begin(&input).unwrap();
    assert_eq!(action, BanAction::FetchUser { user_id: 1 });
    let (state, action) = step(state, resolved_user("alice", None));
    assert_eq!(action, Some(BanAction::FetchGuild { guild_id: GUILD }));
    let (state, action) = step(state, BanEvent::GuildResolved { owner_id: 99 });
    assert_eq!(
        state,
        BanState::Replying {
            outcome: BanOutcome::SelfTargetRejected
        }
    );
    let content = match action.unwrap() {
        BanAction::SendEphemeralReply { content } => content,
        other => panic!("expected a reply, got {:?}", other),
    };
    assert_eq!(reply_text(&content), "You're unable to ban yourself...");
    let (state, action) = step(state, BanEvent::ReplyDelivered);
    assert_eq!(
        state,
        BanState::Done {
            outcome: BanOutcome::SelfTargetRejected
        }
    );
    assert_eq!(action, None);
}

#[test]
fn guild_owner_target_is_protected() {
    let input = guild_input(1, Some(100), vec![ArgumentValue::UserRef(50)]);
    let (state, _) = begin(&input).unwrap();
    let (state, _) = step(state, resolved_user("owner", None));
    let (state, action) = step(state, BanEvent::GuildResolved { owner_id: 50 });
    assert_eq!(
        state,
        BanState::Replying {
            outcome: BanOutcome::OwnerProtected
        }
    );
    assert_eq!(
        action,
        Some(BanAction::SendEphemeralReply {
            content: ReplyContent::OwnerProtected
        })
    );
    assert_eq!(
        reply_text(&ReplyContent::OwnerProtected),
        "Unable to ban server owner"
    );
}

#[test]
fn equal_positions_give_insufficient_privilege() {
    let input = guild_input(1, Some(5), vec![ArgumentValue::UserRef(2)]);
    let (state, _) = begin(&input).unwrap();
    let (state, _) = step(state, resolved_user("bob", None));
    let (state, action) = step(state, BanEvent::GuildResolved { owner_id: 99 });
    assert_eq!(
        action,
        Some(BanAction::FetchMember {
            guild_id: GUILD,
            user_id: 2
        })
    );
    let (state, action) = step(
        state,
        BanEvent::MemberResolved {
            highest_role_position: Some(5),
        },
    );
    assert_eq!(
        state,
        BanState::Replying {
            outcome: BanOutcome::InsufficientPrivilege
        }
    );
    assert_eq!(
        action,
        Some(BanAction::SendEphemeralReply {
            content: ReplyContent::InsufficientPrivilege
        })
    );
    assert_eq!(
        reply_text(&ReplyContent::InsufficientPrivilege),
        "You lack sufficient privileges to ban this user"
    );
}

#[test]
fn lower_target_position_is_banned() {
    let input = guild_input(1, Some(5), vec![ArgumentValue::UserRef(2)]);
    let (state, _) = begin(&input).unwrap();
    let (state, _) = step(state, resolved_user("bob", None));
    let (state, _) = step(state, BanEvent::GuildResolved { owner_id: 99 });
    let (state, action) = step(
        state,
        BanEvent::MemberResolved {
            highest_role_position: Some(4),
        },
    );
    assert_eq!(
        state,
        BanState::Banning {
            target_name: String::from("bob")
        }
    );
    assert_eq!(
        action,
        Some(BanAction::ExecuteBan {
            guild_id: GUILD,
            user_id: 2,
            reason: None,
            delete_message_days: 0
        })
    );
}

#[test]
fn owner_invoker_bypasses_hierarchy() {
    let input = guild_input(1, Some(1), vec![ArgumentValue::UserRef(2)]);
    let (state, _) = begin(&input).unwrap();
    let (state, _) = step(state, resolved_user("target", Some("Tar Get")));
    let (state, _) = step(state, BanEvent::GuildResolved { owner_id: 1 });
    let (state, action) = step(
        state,
        BanEvent::MemberResolved {
            highest_role_position: Some(100),
        },
    );
    assert_eq!(
        action,
        Some(BanAction::ExecuteBan {
            guild_id: GUILD,
            user_id: 2,
            reason: None,
            delete_message_days: 0
        })
    );
    let (state, action) = step(state, BanEvent::BanSucceeded);
    assert_eq!(
        state,
        BanState::Replying {
            outcome: BanOutcome::Banned
        }
    );
    let content = match action.unwrap() {
        BanAction::SendEphemeralReply { content } => content,
        other => panic!("expected a reply, got {:?}", other),
    };
    let text = reply_text(&content);
    assert_eq!(text, "Banned Tar Get");
    assert!(text.contains("Tar Get"));
}

#[test]
fn reason_is_passed_through_exactly() {
    let input = guild_input(
        1,
        Some(5),
        vec![
            ArgumentValue::UserRef(2),
            ArgumentValue::Text(String::from("spam")),
        ],
    );
    let (state, _) = begin(&input).unwrap();
    let (state, _) = step(state, resolved_user("bob", None));
    let (state, _) = step(state, BanEvent::GuildResolved { owner_id: 99 });
    let (_, action) = step(
        state,
        BanEvent::MemberResolved {
            highest_role_position: Some(1),
        },
    );
    assert_eq!(
        action,
        Some(BanAction::ExecuteBan {
            guild_id: GUILD,
            user_id: 2,
            reason: Some(String::from("spam")),
            delete_message_days: 0
        })
    );
}

#[test]
fn omitted_reason_uses_reasonless_ban() {
    let input = guild_input(1, Some(5), vec![ArgumentValue::UserRef(2)]);
    let (state, _) = begin(&input).unwrap();
    let (state, _) = step(state, resolved_user("bob", None));
    let (state, _) = step(state, BanEvent::GuildResolved { owner_id: 99 });
    let (_, action) = step(
        state,
        BanEvent::MemberResolved {
            highest_role_position: Some(1),
        },
    );
    assert_eq!(
        action,
        Some(BanAction::ExecuteBan {
            guild_id: GUILD,
            user_id: 2,
            reason: None,
            delete_message_days: 0
        })
    );
}

#[test]
fn member_resolution_failure_skips_hierarchy() {
    let input = guild_input(1, Some(1), vec![ArgumentValue::UserRef(2)]);
    let (state, _) = begin(&input).unwrap();
    let (state, _) = step(state, resolved_user("gone", None));
    let (state, _) = step(state, BanEvent::GuildResolved { owner_id: 99 });
    let (state, action) = step(state, BanEvent::MemberResolutionFailed);
    assert_eq!(
        action,
        Some(BanAction::ExecuteBan {
            guild_id: GUILD,
            user_id: 2,
            reason: None,
            delete_message_days: 0
        })
    );
    let (state, _) = step(state, BanEvent::BanSucceeded);
    assert_eq!(
        state,
        BanState::Replying {
            outcome: BanOutcome::Banned
        }
    );
}

#[test]
fn missing_invoker_member_is_rejected() {
    let mut input = guild_input(1, None, vec![ArgumentValue::UserRef(2)]);
    input.invoker_member = None;
    assert_eq!(begin(&input), Err(BanError::MissingInvokerMember));
}

#[test]
fn missing_target_argument_is_rejected() {
    let input = guild_input(1, Some(5), vec![]);
    assert_eq!(begin(&input), Err(BanError::MissingTargetArgument));
}

#[test]
fn non_user_target_argument_is_rejected() {
    let input = guild_input(1, Some(5), vec![ArgumentValue::Text(String::from("bob"))]);
    assert_eq!(begin(&input), Err(BanError::InvalidTargetArgument));
}

#[test]
fn missing_guild_fails_after_user_resolution() {
    let mut input = guild_input(1, Some(5), vec![ArgumentValue::UserRef(2)]);
    input.guild_id = None;
    let (state, _) = begin(&input).unwrap();
    let (state, action) = step(state, resolved_user("bob", None));
    assert_eq!(
        state,
        BanState::Failed {
            error: BanError::MissingGuild
        }
    );
    assert_eq!(action, None);
}

#[test]
fn non_text_reason_argument_fails_at_ban_time() {
    let input = guild_input(
        1,
        Some(5),
        vec![ArgumentValue::UserRef(2), ArgumentValue::UserRef(3)],
    );
    let (state, _) = begin(&input).unwrap();
    let (state, _) = step(state, resolved_user("bob", None));
    let (state, _) = step(state, BanEvent::GuildResolved { owner_id: 99 });
    let (state, action) = step(
        state,
        BanEvent::MemberResolved {
            highest_role_position: Some(1),
        },
    );
    assert_eq!(
        state,
        BanState::Failed {
            error: BanError::InvalidReasonArgument
        }
    );
    assert_eq!(action, None);
}

#[test]
fn remote_failures_abort_with_the_failed_operation() {
    let input = guild_input(1, Some(5), vec![ArgumentValue::UserRef(2)]);

    let (state, _) = begin(&input).unwrap();
    let (state, _) = step(state, BanEvent::UserResolutionFailed);
    assert_eq!(
        state,
        BanState::Failed {
            error: BanError::RemoteFailure(RemoteOperation::ResolveUser)
        }
    );

    let (state, _) = begin(&input).unwrap();
    let (state, _) = step(state, resolved_user("bob", None));
    let (state, _) = step(state, BanEvent::GuildResolutionFailed);
    assert_eq!(
        state,
        BanState::Failed {
            error: BanError::RemoteFailure(RemoteOperation::ResolveGuild)
        }
    );

    let (state, _) = begin(&input).unwrap();
    let (state, _) = step(state, resolved_user("bob", None));
    let (state, _) = step(state, BanEvent::GuildResolved { owner_id: 99 });
    let (state, _) = step(state, BanEvent::MemberResolutionFailed);
    let (state, _) = step(state, BanEvent::BanFailed);
    assert_eq!(
        state,
        BanState::Failed {
            error: BanError::RemoteFailure(RemoteOperation::Ban)
        }
    );

    let (state, _) = begin(&input).unwrap();
    let (state, _) = step(state, resolved_user("bob", None));
    let (state, _) = step(state, BanEvent::GuildResolved { owner_id: 99 });
    let (state, _) = step(state, BanEvent::MemberResolutionFailed);
    let (state, _) = step(state, BanEvent::BanSucceeded);
    let (state, _) = step(state, BanEvent::ReplyFailed);
    assert_eq!(
        state,
        BanState::Failed {
            error: BanError::RemoteFailure(RemoteOperation::Reply)
        }
    );
}

#[test]
fn mismatched_event_changes_nothing() {
    let state = BanState::Done {
        outcome: BanOutcome::Banned,
    };
    let (state, action) = step(state, BanEvent::BanFailed);
    assert_eq!(
        state,
        BanState::Done {
            outcome: BanOutcome::Banned
        }
    );
    assert_eq!(action, None);
}

#[test]
fn preferred_name_prefers_display_name() {
    assert_eq!(
        preferred_name(String::from("alice"), Some(String::from("Alice A."))),
        "Alice A."
    );
    assert_eq!(preferred_name(String::from("alice"), None), "alice");
}

#[test]
fn hierarchy_blocks_only_without_ownership() {
    assert!(hierarchy_blocks(Some(5), Some(5), false));
    assert!(hierarchy_blocks(Some(5), Some(100), false));
    assert!(!hierarchy_blocks(Some(5), Some(4), false));
    assert!(!hierarchy_blocks(Some(5), Some(100), true));
    assert!(!hierarchy_blocks(None, Some(5), false));
    assert!(!hierarchy_blocks(Some(5), None, false));
}

#[test]
fn begin_carries_the_context_over() {
    let input = guild_input(
        8,
        Some(3),
        vec![
            ArgumentValue::UserRef(9),
            ArgumentValue::Text(String::from("rude")),
        ],
    );
    let (state, action) = begin(&input).unwrap();
    assert_eq!(action, BanAction::FetchUser { user_id: 9 });
    assert_eq!(
        state,
        BanState::ResolvingUser {
            ctx: BanContext {
                invoker_id: 8,
                invoker_role_position: Some(3),
                guild_id: Some(GUILD),
                target_id: 9,
                reason_argument: Some(ArgumentValue::Text(String::from("rude"))),
            }
        }
    );
}

#[test]
fn unsupported_argument_kinds_are_rejected() {
    let input = guild_input(1, Some(5), vec![ArgumentValue::Other]);
    assert_eq!(begin(&input), Err(BanError::InvalidTargetArgument));

    let input = guild_input(
        1,
        Some(5),
        vec![ArgumentValue::UserRef(2), ArgumentValue::Other],
    );
    let (state, _) = begin(&input).unwrap();
    let (state, _) = step(state, resolved_user("bob", None));
    let (state, _) = step(state, BanEvent::GuildResolved { owner_id: 99 });
    let (state, action) = step(
        state,
        BanEvent::MemberResolved {
            highest_role_position: Some(1),
        },
    );
    assert_eq!(
        state,
        BanState::Failed {
            error: BanError::InvalidReasonArgument
        }
    );
    assert_eq!(action, None);
}
