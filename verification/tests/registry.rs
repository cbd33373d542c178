use yamble::cmd::{generate_command_descriptions, CommandTreeTop, RawCommandOptionEntry, RequestKind, REQUEST_KIND_COUNT};
use yamble::error::RequestError;
use yamble::invocation::{Attachment, CommandOption, Invocation, OptionValue};

#[test]
fn every_command_is_found_under_its_name() {
    for kind in RequestKind::all() {
        assert_eq!(RequestKind::from_name(kind.name()), Some(kind));
    }
}

#[test]
fn names_are_as_published() {
    let names: Vec<&str> = RequestKind::all().iter().map(|kind| kind.name()).collect();
    assert_eq!(
        names,
        vec!["ping", "join", "leave", "play", "pause", "resume", "stop", "next", "prev", "upload"]
    );
}

#[test]
fn names_are_pairwise_distinct() {
    let kinds = RequestKind::all();
    for (i, a) in kinds.iter().enumerate() {
        for (j, b) in kinds.iter().enumerate() {
            if i != j {
                assert_ne!(a.name(), b.name());
            }
        }
    }
}

#[test]
fn unknown_names_are_not_found() {
    assert_eq!(RequestKind::from_name(""), None);
    assert_eq!(RequestKind::from_name("Ping"), None);
    assert_eq!(RequestKind::from_name("pin"), None);
    assert_eq!(RequestKind::from_name("pings"), None);
    assert_eq!(RequestKind::from_name("shuffle"), None);
}

#[test]
fn catalogue_lists_every_command_once_in_order() {
    let entries = generate_command_descriptions();
    assert_eq!(entries.len(), REQUEST_KIND_COUNT);
    assert_eq!(entries.len(), 10);
    let kinds = RequestKind::all();
    for (entry, kind) in entries.iter().zip(kinds.iter()) {
        assert_eq!(*entry, CommandTreeTop::NakedChatInput(*kind));
    }
}

#[test]
fn descriptions_are_as_published() {
    assert_eq!(RequestKind::Ping.description(), "Ping!");
    assert_eq!(
        RequestKind::Join.description(),
        "Ask Yamble to join a voice channel. (Or the one you're in!)"
    );
    assert_eq!(RequestKind::Leave.description(), "Make Yamble leave voice.");
    assert_eq!(RequestKind::Play.description(), "Ask Yamble to play something.");
    assert_eq!(RequestKind::Pause.description(), "Ask Yamble to pause.");
    assert_eq!(RequestKind::Resume.description(), "Ask Yamble to resume.");
    assert_eq!(RequestKind::Stop.description(), "Stops Yamble from playing audio");
    assert_eq!(RequestKind::Next.description(), "Play the next thing in the queue.");
    assert_eq!(RequestKind::Prev.description(), "Play the previous thing in the queue.");
    assert_eq!(
        RequestKind::Upload.description(),
        "Upload an audio snippet that Yamble can play"
    );
}

#[test]
fn ping_and_leave_take_no_parameter() {
    assert_eq!(RequestKind::Ping.options(), vec![]);
    assert_eq!(RequestKind::Leave.options(), vec![]);
}

#[test]
fn join_declares_an_optional_target() {
    assert_eq!(
        RequestKind::Join.options(),
        vec![RawCommandOptionEntry::Channel {
            name: "target",
            description: "Channel to join",
            required: false,
        }]
    );
}

#[test]
fn play_declares_music_target_and_clear_playlist() {
    assert_eq!(
        RequestKind::Play.options(),
        vec![
            RawCommandOptionEntry::Text {
                name: "music",
                description: "Music to play (youtube url or name of uploaded sound)",
                required: true,
            },
            RawCommandOptionEntry::Channel {
                name: "target",
                description: "Channel to join",
                required: false,
            },
            RawCommandOptionEntry::Boolean {
                name: "clear_playlist",
                description:
                    "Clear the queue and immediately play the new song. By default queues the song at the end.",
                required: false,
            },
        ]
    );
}

#[test]
fn queue_commands_declare_the_channel_to_effect() {
    for kind in [
        RequestKind::Pause,
        RequestKind::Resume,
        RequestKind::Stop,
        RequestKind::Next,
        RequestKind::Prev,
    ] {
        assert_eq!(
            kind.options(),
            vec![RawCommandOptionEntry::Channel {
                name: "target",
                description: "Channel to effect",
                required: false,
            }]
        );
    }
}

#[test]
fn upload_declares_name_and_sound() {
    assert_eq!(
        RequestKind::Upload.options(),
        vec![
            RawCommandOptionEntry::Text {
                name: "name",
                description: "Name to save file as",
                required: true,
            },
            RawCommandOptionEntry::Attachment {
                name: "sound",
                description: "sound to upload",
                required: true,
            },
        ]
    );
}

fn declared(entry: &RawCommandOptionEntry) -> (&'static str, bool) {
    match entry {
        RawCommandOptionEntry::Text { name, required, .. } => (*name, *required),
        RawCommandOptionEntry::Boolean { name, required, .. } => (*name, *required),
        RawCommandOptionEntry::Channel { name, required, .. } => (*name, *required),
        RawCommandOptionEntry::Attachment { name, required, .. } => (*name, *required),
    }
}

fn supplied(entry: &RawCommandOptionEntry) -> CommandOption {
    match entry {
        RawCommandOptionEntry::Text { name, .. } => {
            CommandOption { name: (*name).to_owned(), value: OptionValue::Text("x".to_owned()) }
        }
        RawCommandOptionEntry::Boolean { name, .. } => {
            CommandOption { name: (*name).to_owned(), value: OptionValue::Boolean(true) }
        }
        RawCommandOptionEntry::Channel { name, .. } => {
            CommandOption { name: (*name).to_owned(), value: OptionValue::Channel(7) }
        }
        RawCommandOptionEntry::Attachment { name, .. } => CommandOption {
            name: (*name).to_owned(),
            value: OptionValue::Attachment(Attachment { id: 1, filename: "f".to_owned() }),
        },
    }
}

#[test]
fn only_music_name_and_sound_are_required() {
    for kind in RequestKind::all() {
        for entry in kind.options() {
            let (name, required) = declared(&entry);
            let expected = matches!(
                (kind, name),
                (RequestKind::Play, "music") | (RequestKind::Upload, "name") | (RequestKind::Upload, "sound")
            );
            assert_eq!(required, expected);
        }
    }
}

#[test]
fn a_parameter_is_required_exactly_where_the_parser_wants_it() {
    for kind in RequestKind::all() {
        let entries = kind.options();
        for (left_out, entry) in entries.iter().enumerate() {
            // Everything that is declared is supplied, but for one entry.
            let options: Vec<CommandOption> = entries
                .iter()
                .enumerate()
                .filter(|(at, _)| *at != left_out)
                .map(|(_, other)| supplied(other))
                .collect();
            let cmd = Invocation { name: kind.name().to_owned(), guild_id: Some(1), user_id: 2, options };
            let (name, required) = declared(entry);
            let result = kind.parse_arguments(&cmd);
            if required {
                assert_eq!(
                    result.err(),
                    Some(RequestError::User(format!("missing `{}` required parameter", name)))
                );
            } else {
                assert!(result.is_ok());
            }
        }
    }
}

#[test]
fn declared_names_are_distinct_within_a_command() {
    for kind in RequestKind::all() {
        let entries = kind.options();
        for (i, a) in entries.iter().enumerate() {
            for (j, b) in entries.iter().enumerate() {
                if i != j {
                    assert_ne!(declared(a).0, declared(b).0);
                }
            }
        }
    }
}
