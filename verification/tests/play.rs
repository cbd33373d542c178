use yamble::cmd::{play, RequestKind};
use yamble::discord::{ChannelType, ExecutionContext, GuildChannel, MessageContent, Outbound};
use yamble::effect::{Action, Event, Listing, Metadata, Payload, SessionHandle};
use yamble::error::RequestError;
use yamble::invocation::{CommandOption, Invocation, OptionValue};
use yamble::resolve::{media_location, select_payload};
use yamble::run::replay;

const ADDRESS: &str = "https://www.youtube.com/watch?v=xyz";

fn channels_of_guild() -> Vec<GuildChannel> {
    vec![
        GuildChannel { id: 200, kind: ChannelType::Voice, members: Some(vec![9]) },
        GuildChannel { id: 300, kind: ChannelType::Voice, members: Some(vec![]) },
    ]
}

fn play_invocation(music: &str, target: Option<u64>) -> Invocation {
    let mut options =
        vec![CommandOption { name: "music".to_owned(), value: OptionValue::Text(music.to_owned()) }];
    if let Some(id) = target {
        options.push(CommandOption { name: "target".to_owned(), value: OptionValue::Channel(id) });
    }
    Invocation { name: "play".to_owned(), guild_id: Some(1), user_id: 9, options }
}

fn is_driver_call(action: &Action) -> bool {
    matches!(
        action,
        Action::Join { .. } | Action::Leave { .. } | Action::Queue { .. } | Action::Enqueue { .. }
    )
}

#[test]
fn play_reads_its_parameters() {
    let cmd = Invocation {
        name: "play".to_owned(),
        guild_id: Some(1),
        user_id: 9,
        options: vec![
            CommandOption { name: "music".to_owned(), value: OptionValue::Text("first".to_owned()) },
            CommandOption { name: "target".to_owned(), value: OptionValue::Channel(200) },
            CommandOption { name: "music".to_owned(), value: OptionValue::Channel(5) },
            CommandOption { name: "clear_playlist".to_owned(), value: OptionValue::Boolean(true) },
            CommandOption { name: "music".to_owned(), value: OptionValue::Text("last".to_owned()) },
            CommandOption { name: "target".to_owned(), value: OptionValue::Channel(300) },
            CommandOption { name: "volume".to_owned(), value: OptionValue::Other },
        ],
    };
    let request = play::Request::parse(&cmd).unwrap();
    assert_eq!(request.music(), "last");
    assert_eq!(request.target(), Some(300));
}

#[test]
fn play_of_missing_stored_sound_touches_nothing() {
    let cmd = play_invocation("airhorn", None);
    let args = RequestKind::parse(&cmd).unwrap();
    let mut ctx = ExecutionContext::new(cmd.guild_id, cmd.user_id);
    let actions = replay(
        args,
        &mut ctx,
        vec![
            Event::Begin,
            Event::Channels(Some(channels_of_guild())),
            Event::Read(Payload::Missing),
        ],
    );
    assert_eq!(
        actions,
        vec![
            Action::LoadChannels { guild: 1 },
            Action::ReadPayload { path: "downloads/airhorn/data.mp3".to_owned() },
            Action::Finish(Err(RequestError::User(
                "bad input -- could not find sound".to_owned()
            ))),
        ]
    );
    assert!(actions.iter().all(|action| !is_driver_call(action)));
    assert!(actions.iter().all(|action| !matches!(action, Action::Send(_))));
}

#[test]
fn play_of_stored_sound_joins_and_plays() {
    let cmd = play_invocation("airhorn", None);
    let args = RequestKind::parse(&cmd).unwrap();
    let mut ctx = ExecutionContext::new(cmd.guild_id, cmd.user_id);
    let actions = replay(
        args,
        &mut ctx,
        vec![
            Event::Begin,
            Event::Channels(Some(channels_of_guild())),
            Event::Read(Payload::Loaded(vec![1, 2, 3])),
            Event::Session(None),
            Event::Joined(true),
            Event::Enqueued(true),
            Event::Sent(true),
        ],
    );
    assert_eq!(
        actions,
        vec![
            Action::LoadChannels { guild: 1 },
            Action::ReadPayload { path: "downloads/airhorn/data.mp3".to_owned() },
            Action::InspectSession { guild: 1 },
            Action::Join { guild: 1, channel: 200 },
            Action::Enqueue { guild: 1, audio: vec![1, 2, 3] },
            Action::Send(Outbound::Initial(MessageContent::Simple(
                "Joined channel <#200>!\nPlaying airhorn".to_owned()
            ))),
            Action::Finish(Ok(())),
        ]
    );
}

#[test]
fn play_in_the_current_channel_only_enqueues() {
    let cmd = play_invocation("airhorn", Some(300));
    let args = RequestKind::parse(&cmd).unwrap();
    let mut ctx = ExecutionContext::new(cmd.guild_id, cmd.user_id);
    let actions = replay(
        args,
        &mut ctx,
        vec![
            Event::Begin,
            Event::Channels(Some(channels_of_guild())),
            Event::Read(Payload::Loaded(vec![7])),
            Event::Session(Some(SessionHandle { channel: Some(300) })),
            Event::Enqueued(true),
            Event::Sent(true),
        ],
    );
    assert_eq!(
        actions,
        vec![
            Action::LoadChannels { guild: 1 },
            Action::ReadPayload { path: "downloads/airhorn/data.mp3".to_owned() },
            Action::InspectSession { guild: 1 },
            Action::Enqueue { guild: 1, audio: vec![7] },
            Action::Send(Outbound::Initial(MessageContent::Simple(
                "Playing airhorn in <#300>!".to_owned()
            ))),
            Action::Finish(Ok(())),
        ]
    );
}

#[test]
fn play_from_another_channel_switches() {
    let cmd = play_invocation("airhorn", Some(300));
    let args = RequestKind::parse(&cmd).unwrap();
    let mut ctx = ExecutionContext::new(cmd.guild_id, cmd.user_id);
    let actions = replay(
        args,
        &mut ctx,
        vec![
            Event::Begin,
            Event::Channels(Some(channels_of_guild())),
            Event::Read(Payload::Loaded(vec![7])),
            Event::Session(Some(SessionHandle { channel: Some(200) })),
            Event::Joined(true),
            Event::Enqueued(true),
            Event::Sent(true),
        ],
    );
    assert_eq!(actions[3], Action::Join { guild: 1, channel: 300 });
    assert_eq!(
        actions[5],
        Action::Send(Outbound::Initial(MessageContent::Simple(
            "Switched to <#300> from <#200>!\nPlaying airhorn".to_owned()
        )))
    );
    assert_eq!(actions.iter().filter(|action| matches!(action, Action::Join { .. })).count(), 1);
}

#[test]
fn play_failures_after_resolution_are_internal() {
    let cmd = play_invocation("airhorn", Some(300));
    let mut ctx = ExecutionContext::new(cmd.guild_id, cmd.user_id);
    let actions = replay(
        RequestKind::parse(&cmd).unwrap(),
        &mut ctx,
        vec![
            Event::Begin,
            Event::Channels(Some(channels_of_guild())),
            Event::Read(Payload::Loaded(vec![7])),
            Event::Session(None),
            Event::Joined(false),
        ],
    );
    assert_eq!(
        actions[4],
        Action::Finish(Err(RequestError::Internal("Voice channel join failed.".to_owned())))
    );
    let mut ctx = ExecutionContext::new(cmd.guild_id, cmd.user_id);
    let actions = replay(
        RequestKind::parse(&cmd).unwrap(),
        &mut ctx,
        vec![
            Event::Begin,
            Event::Channels(Some(channels_of_guild())),
            Event::Read(Payload::Loaded(vec![7])),
            Event::Session(None),
            Event::Joined(true),
            Event::Enqueued(false),
        ],
    );
    assert_eq!(
        actions[5],
        Action::Finish(Err(RequestError::Internal("Audio could not be queued.".to_owned())))
    );
}

#[test]
fn play_outside_a_guild_is_refused() {
    let mut cmd = play_invocation("airhorn", None);
    cmd.guild_id = None;
    let mut ctx = ExecutionContext::new(cmd.guild_id, cmd.user_id);
    let actions = replay(RequestKind::parse(&cmd).unwrap(), &mut ctx, vec![Event::Begin]);
    assert_eq!(
        actions,
        vec![Action::Finish(Err(RequestError::User(
            "command only available in a server".to_owned()
        )))]
    );
}

#[test]
fn play_of_remote_media_replies_with_a_followup() {
    let cmd = play_invocation(ADDRESS, None);
    let mut ctx = ExecutionContext::new(cmd.guild_id, cmd.user_id);
    let actions = replay(
        RequestKind::parse(&cmd).unwrap(),
        &mut ctx,
        vec![
            Event::Begin,
            Event::Channels(Some(channels_of_guild())),
            Event::Sent(true),
            Event::Listed(Listing::Entries(vec![Some("resources/bin/ytdlp/yt-dlp".to_owned())])),
            Event::Identified(Metadata::Video { id: "xyz".to_owned() }),
            Event::Listed(Listing::Missing),
            Event::MediaFetched(true),
            Event::Listed(Listing::Entries(vec![Some("downloads/xyz/a.webm".to_owned())])),
            Event::Read(Payload::Loaded(vec![4, 5])),
            Event::Session(Some(SessionHandle { channel: Some(200) })),
            Event::Enqueued(true),
            Event::Sent(true),
        ],
    );
    assert_eq!(
        actions,
        vec![
            Action::LoadChannels { guild: 1 },
            Action::Send(Outbound::Acknowledge),
            Action::ListDirectory { path: "resources/bin/ytdlp".to_owned(), create: true },
            Action::FetchMetadata {
                reference: ADDRESS.to_owned(),
                tool: "resources/bin/ytdlp/yt-dlp".to_owned(),
            },
            Action::ListDirectory { path: "downloads/xyz".to_owned(), create: false },
            Action::FetchMedia {
                reference: ADDRESS.to_owned(),
                tool: "resources/bin/ytdlp/yt-dlp".to_owned(),
                directory: "downloads/xyz".to_owned(),
            },
            Action::ListDirectory { path: "downloads/xyz".to_owned(), create: false },
            Action::ReadPayload { path: "downloads/xyz/a.webm".to_owned() },
            Action::InspectSession { guild: 1 },
            Action::Enqueue { guild: 1, audio: vec![4, 5] },
            Action::Send(Outbound::Followup(MessageContent::Simple(format!(
                "Playing {} in <#200>!",
                ADDRESS
            )))),
            Action::Finish(Ok(())),
        ]
    );
}

/// Files and a tool that work, for driving a resolution twice.
struct Shelf {
    directories: Vec<(String, Vec<String>)>,
    files: Vec<(String, Vec<u8>)>,
    downloads: usize,
}

fn answer_from_shelf(shelf: &mut Shelf, action: &Action) -> Event {
    match action {
        Action::LoadChannels { .. } => Event::Channels(Some(channels_of_guild())),
        Action::Send(_) => Event::Sent(true),
        Action::ListDirectory { path, create } => {
            if let Some((_, entries)) = shelf.directories.iter().find(|(name, _)| name == path) {
                Event::Listed(Listing::Entries(entries.iter().cloned().map(Some).collect()))
            } else if *create {
                shelf.directories.push((path.clone(), vec![]));
                Event::Listed(Listing::Entries(vec![]))
            } else {
                Event::Listed(Listing::Missing)
            }
        }
        Action::FetchTool { directory } => {
            let tool = format!("{}/yt-dlp", directory);
            for (name, entries) in shelf.directories.iter_mut() {
                if name == directory {
                    entries.push(tool.clone());
                }
            }
            Event::Tool(Some(tool))
        }
        Action::FetchMetadata { .. } => Event::Identified(Metadata::Video { id: "xyz".to_owned() }),
        Action::FetchMedia { directory, .. } => {
            let file = format!("{}/payload.webm", directory);
            shelf.directories.push((directory.clone(), vec![file.clone()]));
            shelf.files.push((file, vec![10, 20, 30]));
            shelf.downloads += 1;
            Event::MediaFetched(true)
        }
        Action::ReadPayload { path } => match shelf.files.iter().find(|(name, _)| name == path) {
            Some((_, bytes)) => Event::Read(Payload::Loaded(bytes.clone())),
            None => Event::Read(Payload::Missing),
        },
        Action::InspectSession { .. } => Event::Session(Some(SessionHandle { channel: Some(200) })),
        Action::Enqueue { .. } => Event::Enqueued(true),
        other => panic!("no answer for {:?}", other),
    }
}

fn play_on_shelf(shelf: &mut Shelf) -> Vec<Action> {
    let cmd = play_invocation(ADDRESS, None);
    let mut ctx = ExecutionContext::new(cmd.guild_id, cmd.user_id);
    let mut args = RequestKind::parse(&cmd).unwrap();
    let mut event = Event::Begin;
    let mut actions = Vec::new();
    for _ in 0..32 {
        let (next, action) = args.execute(&mut ctx, event);
        args = next;
        if matches!(action, Action::Finish(_)) {
            actions.push(action);
            return actions;
        }
        event = answer_from_shelf(shelf, &action);
        actions.push(action);
    }
    panic!("the run did not end")
}

#[test]
fn second_resolution_is_served_from_the_cache() {
    let mut shelf = Shelf { directories: vec![], files: vec![], downloads: 0 };
    let first = play_on_shelf(&mut shelf);
    assert_eq!(shelf.downloads, 1);
    assert_eq!(first.iter().filter(|action| matches!(action, Action::FetchTool { .. })).count(), 1);
    let second = play_on_shelf(&mut shelf);
    assert_eq!(shelf.downloads, 1);
    assert!(second.iter().all(|action| !matches!(action, Action::FetchMedia { .. })));
    assert!(second.iter().all(|action| !matches!(action, Action::FetchTool { .. })));
    let played = |actions: &Vec<Action>| -> Vec<u8> {
        for action in actions {
            if let Action::Enqueue { audio, .. } = action {
                return audio.clone();
            }
        }
        panic!("nothing was played")
    };
    assert_eq!(played(&first), vec![10, 20, 30]);
    assert_eq!(played(&second), played(&first));
    assert_eq!(first.last(), Some(&Action::Finish(Ok(()))));
    assert_eq!(second.last(), Some(&Action::Finish(Ok(()))));
}

#[test]
fn cache_helpers_agree_with_the_run() {
    assert_eq!(media_location("xyz"), "downloads/xyz");
    assert_eq!(
        select_payload(&vec![Some("downloads/xyz/payload.webm".to_owned())]),
        Ok("downloads/xyz/payload.webm".to_owned())
    );
}

#[test]
fn filled_media_cache_is_served_though_the_tool_is_not_there() {
    let mut shelf = Shelf {
        directories: vec![("downloads/xyz".to_owned(), vec!["downloads/xyz/old.webm".to_owned()])],
        files: vec![("downloads/xyz/old.webm".to_owned(), vec![5, 6, 7])],
        downloads: 0,
    };
    let actions = play_on_shelf(&mut shelf);
    assert_eq!(shelf.downloads, 0);
    assert!(actions.iter().all(|action| !matches!(action, Action::FetchMedia { .. })));
    assert_eq!(actions.iter().filter(|action| matches!(action, Action::FetchTool { .. })).count(), 1);
    assert!(actions.contains(&Action::Enqueue { guild: 1, audio: vec![5, 6, 7] }));
    assert_eq!(shelf.files, vec![("downloads/xyz/old.webm".to_owned(), vec![5, 6, 7])]);
    assert!(shelf
        .directories
        .contains(&("downloads/xyz".to_owned(), vec!["downloads/xyz/old.webm".to_owned()])));
    assert_eq!(actions.last(), Some(&Action::Finish(Ok(()))));
}
