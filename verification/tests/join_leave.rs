use yamble::cmd::{join, leave, RequestArgs, RequestKind};
use yamble::discord::{ChannelType, ExecutionContext, GuildChannel, MessageContent, Outbound};
use yamble::effect::{Action, Event, SessionHandle};
use yamble::error::RequestError;
use yamble::invocation::{CommandOption, Invocation, OptionValue};
use yamble::run::replay;

fn guild_channels() -> Vec<GuildChannel> {
    vec![
        GuildChannel { id: 100, kind: ChannelType::Other, members: Some(vec![]) },
        GuildChannel { id: 200, kind: ChannelType::Voice, members: Some(vec![9]) },
        GuildChannel { id: 300, kind: ChannelType::Voice, members: Some(vec![]) },
    ]
}

fn invocation_of(name: &str, options: Vec<CommandOption>) -> Invocation {
    Invocation { name: name.to_owned(), guild_id: Some(1), user_id: 9, options }
}

fn target_option(id: u64) -> CommandOption {
    CommandOption { name: "target".to_owned(), value: OptionValue::Channel(id) }
}

fn initial(text: &str) -> Action {
    Action::Send(Outbound::Initial(MessageContent::Simple(text.to_owned())))
}

#[test]
fn join_without_target_joins_the_callers_channel() {
    let cmd = invocation_of("join", vec![]);
    let args = RequestKind::parse(&cmd).unwrap();
    let mut ctx = ExecutionContext::new(cmd.guild_id, cmd.user_id);
    let actions = replay(
        args,
        &mut ctx,
        vec![
            Event::Begin,
            Event::Channels(Some(guild_channels())),
            Event::Session(None),
            Event::Joined(true),
            Event::Sent(true),
        ],
    );
    assert_eq!(
        actions,
        vec![
            Action::LoadChannels { guild: 1 },
            Action::InspectSession { guild: 1 },
            Action::Join { guild: 1, channel: 200 },
            initial("Joined channel <#200>!"),
            Action::Finish(Ok(())),
        ]
    );
}

#[test]
fn second_join_for_the_same_channel_is_already_in() {
    let cmd = invocation_of("join", vec![target_option(200)]);
    let args = RequestKind::parse(&cmd).unwrap();
    let mut ctx = ExecutionContext::new(cmd.guild_id, cmd.user_id);
    let actions = replay(
        args,
        &mut ctx,
        vec![
            Event::Begin,
            Event::Channels(Some(guild_channels())),
            Event::Session(Some(SessionHandle { channel: Some(200) })),
            Event::Sent(true),
        ],
    );
    assert_eq!(
        actions,
        vec![
            Action::LoadChannels { guild: 1 },
            Action::InspectSession { guild: 1 },
            initial("Already in <#200>!"),
            Action::Finish(Ok(())),
        ]
    );
}

#[test]
fn join_for_another_channel_switches() {
    let cmd = invocation_of("join", vec![target_option(300)]);
    let args = RequestKind::parse(&cmd).unwrap();
    let mut ctx = ExecutionContext::new(cmd.guild_id, cmd.user_id);
    let actions = replay(
        args,
        &mut ctx,
        vec![
            Event::Begin,
            Event::Channels(Some(guild_channels())),
            Event::Session(Some(SessionHandle { channel: Some(200) })),
            Event::Joined(true),
            Event::Sent(true),
        ],
    );
    assert_eq!(
        actions,
        vec![
            Action::LoadChannels { guild: 1 },
            Action::InspectSession { guild: 1 },
            Action::Join { guild: 1, channel: 300 },
            initial("Switched to <#300> from <#200>!"),
            Action::Finish(Ok(())),
        ]
    );
}

#[test]
fn join_with_idle_session_joins() {
    let cmd = invocation_of("join", vec![target_option(300)]);
    let args = RequestKind::parse(&cmd).unwrap();
    let mut ctx = ExecutionContext::new(cmd.guild_id, cmd.user_id);
    let actions = replay(
        args,
        &mut ctx,
        vec![
            Event::Begin,
            Event::Channels(Some(guild_channels())),
            Event::Session(Some(SessionHandle { channel: None })),
            Event::Joined(true),
            Event::Sent(true),
        ],
    );
    assert_eq!(actions[2], Action::Join { guild: 1, channel: 300 });
    assert_eq!(actions[3], initial("Joined channel <#300>!"));
}

#[test]
fn refused_join_is_internal_and_unanswered() {
    let cmd = invocation_of("join", vec![target_option(300)]);
    let args = RequestKind::parse(&cmd).unwrap();
    let mut ctx = ExecutionContext::new(cmd.guild_id, cmd.user_id);
    let actions = replay(
        args,
        &mut ctx,
        vec![
            Event::Begin,
            Event::Channels(Some(guild_channels())),
            Event::Session(None),
            Event::Joined(false),
        ],
    );
    assert_eq!(
        actions,
        vec![
            Action::LoadChannels { guild: 1 },
            Action::InspectSession { guild: 1 },
            Action::Join { guild: 1, channel: 300 },
            Action::Finish(Err(RequestError::Internal("Voice channel join failed.".to_owned()))),
        ]
    );
}

#[test]
fn join_outside_a_guild_is_refused() {
    let cmd = Invocation { name: "join".to_owned(), guild_id: None, user_id: 9, options: vec![] };
    let args = RequestKind::parse(&cmd).unwrap();
    let mut ctx = ExecutionContext::new(cmd.guild_id, cmd.user_id);
    let actions = replay(args, &mut ctx, vec![Event::Begin]);
    assert_eq!(
        actions,
        vec![Action::Finish(Err(RequestError::User(
            "command only available in a server".to_owned()
        )))]
    );
}

#[test]
fn join_for_a_channel_of_another_guild_is_refused() {
    let cmd = invocation_of("join", vec![target_option(999)]);
    let args = RequestKind::parse(&cmd).unwrap();
    let mut ctx = ExecutionContext::new(cmd.guild_id, cmd.user_id);
    let actions = replay(
        args,
        &mut ctx,
        vec![Event::Begin, Event::Channels(Some(guild_channels()))],
    );
    assert_eq!(
        actions[1],
        Action::Finish(Err(RequestError::User("channel not in guild".to_owned())))
    );
}

#[test]
fn join_reply_that_is_not_delivered_fails() {
    let cmd = invocation_of("join", vec![target_option(200)]);
    let args = RequestKind::parse(&cmd).unwrap();
    let mut ctx = ExecutionContext::new(cmd.guild_id, cmd.user_id);
    let actions = replay(
        args,
        &mut ctx,
        vec![
            Event::Begin,
            Event::Channels(Some(guild_channels())),
            Event::Session(Some(SessionHandle { channel: Some(200) })),
            Event::Sent(false),
        ],
    );
    assert_eq!(
        actions[3],
        Action::Finish(Err(RequestError::Internal("Message failed to send.".to_owned())))
    );
}

#[test]
fn join_takes_the_first_target_and_passes_over_other_parameters() {
    let cmd = invocation_of(
        "join",
        vec![
            CommandOption { name: "target".to_owned(), value: OptionValue::Text("x".to_owned()) },
            CommandOption { name: "other".to_owned(), value: OptionValue::Channel(5) },
            target_option(300),
            target_option(200),
        ],
    );
    let request = join::Request::parse(&cmd).unwrap();
    assert_eq!(request.channel(), Some(300));
    assert_eq!(request.stage(), join::Stage::Start);
}

#[test]
fn join_event_out_of_turn_ends_the_run() {
    let cmd = invocation_of("join", vec![]);
    let args = RequestKind::parse(&cmd).unwrap();
    let mut ctx = ExecutionContext::new(cmd.guild_id, cmd.user_id);
    let actions = replay(args, &mut ctx, vec![Event::Begin, Event::Joined(true)]);
    assert_eq!(
        actions[1],
        Action::Finish(Err(RequestError::Internal(
            "Event does not answer the pending action.".to_owned()
        )))
    );
}

#[test]
fn leave_without_session_has_nothing_to_leave() {
    let cmd = invocation_of("leave", vec![]);
    let args = RequestKind::parse(&cmd).unwrap();
    let mut ctx = ExecutionContext::new(cmd.guild_id, cmd.user_id);
    let actions = replay(
        args,
        &mut ctx,
        vec![Event::Begin, Event::Session(None), Event::Sent(true)],
    );
    assert_eq!(
        actions,
        vec![
            Action::InspectSession { guild: 1 },
            initial(
                "No channel to leave! (If I am in a channel, you can remove me by running `/play` again followed by `/leave`.)"
            ),
            Action::Finish(Ok(())),
        ]
    );
}

#[test]
fn leave_with_session_leaves_once() {
    let cmd = invocation_of("leave", vec![]);
    let args = RequestKind::parse(&cmd).unwrap();
    let mut ctx = ExecutionContext::new(cmd.guild_id, cmd.user_id);
    let actions = replay(
        args,
        &mut ctx,
        vec![
            Event::Begin,
            Event::Session(Some(SessionHandle { channel: Some(200) })),
            Event::Left(true),
            Event::Sent(true),
        ],
    );
    assert_eq!(
        actions,
        vec![
            Action::InspectSession { guild: 1 },
            Action::Leave { guild: 1 },
            initial("Left channel -- we just don't know which one (yet)."),
            Action::Finish(Ok(())),
        ]
    );
}

#[test]
fn refused_leave_is_internal() {
    let cmd = invocation_of("leave", vec![]);
    let request = leave::Request::parse(&cmd).unwrap();
    assert_eq!(request.stage(), leave::Stage::Start);
    let mut ctx = ExecutionContext::new(cmd.guild_id, cmd.user_id);
    let actions = replay(
        RequestArgs::Leave(request),
        &mut ctx,
        vec![
            Event::Begin,
            Event::Session(Some(SessionHandle { channel: None })),
            Event::Left(false),
        ],
    );
    assert_eq!(
        actions[2],
        Action::Finish(Err(RequestError::Internal("Voice channel leave failed.".to_owned())))
    );
}

#[test]
fn leave_outside_a_guild_is_refused() {
    let cmd = Invocation { name: "leave".to_owned(), guild_id: None, user_id: 9, options: vec![] };
    let args = RequestKind::parse(&cmd).unwrap();
    let mut ctx = ExecutionContext::new(cmd.guild_id, cmd.user_id);
    let actions = replay(args, &mut ctx, vec![Event::Begin]);
    assert_eq!(
        actions,
        vec![Action::Finish(Err(RequestError::User(
            "command only available in a server".to_owned()
        )))]
    );
}

#[test]
fn ping_answers_pong() {
    let cmd = invocation_of("ping", vec![]);
    let args = RequestKind::parse(&cmd).unwrap();
    assert_eq!(args.kind(), RequestKind::Ping);
    let mut ctx = ExecutionContext::new(cmd.guild_id, cmd.user_id);
    let actions = replay(args, &mut ctx, vec![Event::Begin, Event::Sent(true)]);
    assert_eq!(actions, vec![initial("Pong!"), Action::Finish(Ok(()))]);
}

#[test]
fn ping_answers_the_start_only_once() {
    let cmd = invocation_of("ping", vec![]);
    let mut ctx = ExecutionContext::new(cmd.guild_id, cmd.user_id);
    let actions = replay(
        RequestKind::parse(&cmd).unwrap(),
        &mut ctx,
        vec![Event::Begin, Event::Begin, Event::Begin],
    );
    assert_eq!(
        actions,
        vec![
            initial("Pong!"),
            Action::Finish(Err(RequestError::Internal(
                "Event does not answer the pending action.".to_owned()
            ))),
        ]
    );
}

#[test]
fn ping_works_outside_a_guild() {
    let cmd = Invocation { name: "ping".to_owned(), guild_id: None, user_id: 9, options: vec![] };
    let mut ctx = ExecutionContext::new(cmd.guild_id, cmd.user_id);
    let actions = replay(RequestKind::parse(&cmd).unwrap(), &mut ctx, vec![Event::Begin, Event::Sent(false)]);
    assert_eq!(
        actions,
        vec![
            initial("Pong!"),
            Action::Finish(Err(RequestError::Internal("Message failed to send.".to_owned()))),
        ]
    );
}

#[test]
fn no_run_outlasts_fourteen_actions() {
    // Whatever is answered, a run ends: here every answer is the one that
    // keeps an upload going longest.
    let cmd = Invocation {
        name: "upload".to_owned(),
        guild_id: None,
        user_id: 9,
        options: vec![
            CommandOption { name: "name".to_owned(), value: OptionValue::Text("n".to_owned()) },
            CommandOption {
                name: "sound".to_owned(),
                value: OptionValue::Attachment(yamble::invocation::Attachment {
                    id: 1,
                    filename: "f".to_owned(),
                }),
            },
        ],
    };
    let mut ctx = ExecutionContext::new(cmd.guild_id, cmd.user_id);
    let mut events = vec![Event::Begin, Event::Sent(true)];
    for _ in 0..20 {
        events.push(Event::Claimed(false));
    }
    let actions = replay(RequestKind::parse(&cmd).unwrap(), &mut ctx, events);
    assert_eq!(actions.len(), 10);
    assert!(actions.len() <= 14);
    assert!(matches!(actions.last(), Some(Action::Finish(Err(_)))));
}

#[test]
fn replay_stops_at_the_end_of_the_run() {
    let cmd = invocation_of("ping", vec![]);
    let mut ctx = ExecutionContext::new(cmd.guild_id, cmd.user_id);
    let actions = replay(
        RequestKind::parse(&cmd).unwrap(),
        &mut ctx,
        vec![Event::Begin, Event::Sent(true), Event::Sent(true), Event::Begin],
    );
    assert_eq!(actions, vec![initial("Pong!"), Action::Finish(Ok(()))]);
    let mut ctx = ExecutionContext::new(cmd.guild_id, cmd.user_id);
    assert_eq!(replay(RequestKind::parse(&cmd).unwrap(), &mut ctx, vec![]), vec![]);
    let mut ctx = ExecutionContext::new(cmd.guild_id, cmd.user_id);
    assert_eq!(
        replay(RequestKind::parse(&cmd).unwrap(), &mut ctx, vec![Event::Begin]),
        vec![initial("Pong!")]
    );
}

#[test]
fn replay_leaves_the_reply_channel_as_the_run_left_it() {
    let cmd = invocation_of("ping", vec![]);
    let mut ctx = ExecutionContext::new(cmd.guild_id, cmd.user_id);
    replay(RequestKind::parse(&cmd).unwrap(), &mut ctx, vec![Event::Begin, Event::Sent(true)]);
    assert_eq!(ctx.guild_id(), Some(1));
    assert_eq!(ctx.user_id(), 9);
    assert_eq!(ctx.response_state(), yamble::discord::ResponseState::Sent);
    assert_eq!(
        ctx.reply("again".to_owned()),
        Outbound::Followup(MessageContent::Simple("again".to_owned()))
    );

    let outside = Invocation { name: "join".to_owned(), guild_id: None, user_id: 9, options: vec![] };
    let mut ctx = ExecutionContext::new(outside.guild_id, outside.user_id);
    replay(RequestKind::parse(&outside).unwrap(), &mut ctx, vec![Event::Begin]);
    assert_eq!(ctx.response_state(), yamble::discord::ResponseState::NotSent);
}
