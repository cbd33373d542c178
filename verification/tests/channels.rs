use yamble::discord::{ChannelType, ExecutionContext, GuildChannel};
use yamble::effect::SessionHandle;
use yamble::error::RequestError;
use yamble::mention::channel_mention;
use yamble::session::{current_channel, decide, has_channel, is_connected, resolve_target, Transition};

fn voice_with(id: u64, members: Vec<u64>) -> GuildChannel {
    GuildChannel { id, kind: ChannelType::Voice, members: Some(members) }
}

fn text_with(id: u64, members: Vec<u64>) -> GuildChannel {
    GuildChannel { id, kind: ChannelType::Other, members: Some(members) }
}

#[test]
fn caller_is_found_in_their_voice_channel() {
    let ctx = ExecutionContext::new(Some(1), 50);
    let channels = vec![
        text_with(10, vec![50]),
        voice_with(20, vec![51, 52]),
        voice_with(30, vec![53, 50]),
        voice_with(40, vec![50]),
    ];
    assert_eq!(ctx.find_interactor_voice_channel(&channels), Ok(30));
}

#[test]
fn caller_in_no_voice_channel_is_told_so() {
    let ctx = ExecutionContext::new(Some(1), 50);
    let channels = vec![text_with(10, vec![50]), voice_with(20, vec![51])];
    assert_eq!(
        ctx.find_interactor_voice_channel(&channels),
        Err(RequestError::User(
            "if no provided channel, caller must be in a voice channel".to_owned()
        ))
    );
    assert_eq!(
        ctx.find_interactor_voice_channel(&vec![]),
        Err(RequestError::User(
            "if no provided channel, caller must be in a voice channel".to_owned()
        ))
    );
}

#[test]
fn unreadable_members_stop_the_search() {
    let ctx = ExecutionContext::new(Some(1), 50);
    let channels = vec![
        voice_with(20, vec![51]),
        GuildChannel { id: 25, kind: ChannelType::Voice, members: None },
        voice_with(30, vec![50]),
    ];
    assert_eq!(
        ctx.find_interactor_voice_channel(&channels),
        Err(RequestError::Internal("channel members failed to load".to_owned()))
    );
}

#[test]
fn unreadable_members_after_the_find_do_not_matter() {
    let ctx = ExecutionContext::new(Some(1), 50);
    let channels = vec![
        GuildChannel { id: 5, kind: ChannelType::Other, members: None },
        voice_with(30, vec![50]),
        GuildChannel { id: 25, kind: ChannelType::Voice, members: None },
    ];
    assert_eq!(ctx.find_interactor_voice_channel(&channels), Ok(30));
}

#[test]
fn named_channel_must_be_in_the_guild() {
    let ctx = ExecutionContext::new(Some(1), 50);
    let channels = Some(vec![text_with(10, vec![]), voice_with(20, vec![50])]);
    assert_eq!(resolve_target(Some(10), &channels, &ctx), Ok(10));
    assert_eq!(resolve_target(Some(20), &channels, &ctx), Ok(20));
    assert_eq!(
        resolve_target(Some(99), &channels, &ctx),
        Err(RequestError::User("channel not in guild".to_owned()))
    );
    assert!(has_channel(channels.as_ref().unwrap(), 10));
    assert!(!has_channel(channels.as_ref().unwrap(), 11));
}

#[test]
fn unnamed_channel_is_the_callers() {
    let ctx = ExecutionContext::new(Some(1), 50);
    let channels = Some(vec![text_with(10, vec![]), voice_with(20, vec![50])]);
    assert_eq!(resolve_target(None, &channels, &ctx), Ok(20));
}

#[test]
fn channels_that_fail_to_load_are_internal() {
    let ctx = ExecutionContext::new(Some(1), 50);
    assert_eq!(
        resolve_target(Some(10), &None, &ctx),
        Err(RequestError::Internal("channel failed to load".to_owned()))
    );
    assert_eq!(
        resolve_target(None, &None, &ctx),
        Err(RequestError::Internal("channels failed to load".to_owned()))
    );
}

#[test]
fn policy_stays_enters_or_switches() {
    assert_eq!(decide(None, 5), Transition::Enter { from: None });
    assert_eq!(
        decide(Some(SessionHandle { channel: None }), 5),
        Transition::Enter { from: None }
    );
    assert_eq!(decide(Some(SessionHandle { channel: Some(5) }), 5), Transition::Stay);
    assert_eq!(
        decide(Some(SessionHandle { channel: Some(6) }), 5),
        Transition::Enter { from: Some(6) }
    );
}

#[test]
fn mentions_are_angle_hash_decimal() {
    assert_eq!(channel_mention(42), "<#42>");
    assert_eq!(channel_mention(1), "<#1>");
    assert_eq!(channel_mention(0), "<#0>");
    assert_eq!(channel_mention(1_000_000_007), "<#1000000007>");
    assert_eq!(channel_mention(u64::MAX), "<#18446744073709551615>");
}

#[test]
fn the_callers_only_channel_is_found_in_any_order() {
    let ctx = ExecutionContext::new(Some(1), 50);
    let orders: [[usize; 3]; 6] =
        [[0, 1, 2], [0, 2, 1], [1, 0, 2], [1, 2, 0], [2, 0, 1], [2, 1, 0]];
    for order in orders {
        let make = |which: usize| match which {
            0 => text_with(10, vec![50]),
            1 => voice_with(20, vec![51, 52]),
            _ => voice_with(30, vec![50]),
        };
        let channels: Vec<GuildChannel> = order.iter().map(|which| make(*which)).collect();
        assert_eq!(ctx.find_interactor_voice_channel(&channels), Ok(30));
    }
}

#[test]
fn a_session_is_connected_and_may_be_in_a_channel() {
    assert!(!is_connected(&None));
    assert!(is_connected(&Some(SessionHandle { channel: None })));
    assert!(is_connected(&Some(SessionHandle { channel: Some(4) })));
    assert_eq!(current_channel(&None), None);
    assert_eq!(current_channel(&Some(SessionHandle { channel: None })), None);
    assert_eq!(current_channel(&Some(SessionHandle { channel: Some(4) })), Some(4));
}
