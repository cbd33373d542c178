use yamble::cmd::{next, RequestKind};
use yamble::discord::{ExecutionContext, MessageContent, Outbound};
use yamble::effect::{Action, Event, QueueCommand, SessionHandle};
use yamble::error::RequestError;
use yamble::invocation::Invocation;
use yamble::queue::{done_reply, Stage};
use yamble::run::replay;

fn queue_invocation(name: &str) -> Invocation {
    Invocation { name: name.to_owned(), guild_id: Some(3), user_id: 9, options: vec![] }
}

fn drive_queue(name: &str, events: Vec<Event>) -> Vec<Action> {
    let cmd = queue_invocation(name);
    let mut ctx = ExecutionContext::new(cmd.guild_id, cmd.user_id);
    replay(RequestKind::parse(&cmd).unwrap(), &mut ctx, events)
}

fn whisper(text: &str) -> Action {
    Action::Send(Outbound::Initial(MessageContent::SimpleRestrictedMention(text.to_owned())))
}

fn connected() -> Event {
    Event::Session(Some(SessionHandle { channel: Some(200) }))
}

#[test]
fn queue_commands_need_a_session() {
    for name in ["pause", "resume", "stop", "next", "prev"] {
        let actions = drive_queue(name, vec![Event::Begin, Event::Session(None), Event::Sent(true)]);
        assert_eq!(
            actions,
            vec![
                Action::InspectSession { guild: 3 },
                whisper("Not currently playing, nothing to adjust."),
                Action::Finish(Ok(())),
            ]
        );
    }
}

#[test]
fn queue_commands_need_a_guild() {
    for name in ["pause", "resume", "stop", "next", "prev"] {
        let cmd = Invocation { name: name.to_owned(), guild_id: None, user_id: 9, options: vec![] };
        let mut ctx = ExecutionContext::new(cmd.guild_id, cmd.user_id);
        let (_, action) = RequestKind::parse(&cmd).unwrap().execute(&mut ctx, Event::Begin);
        assert_eq!(
            action,
            Action::Finish(Err(RequestError::User(
                "command only available in a server".to_owned()
            )))
        );
    }
}

#[test]
fn next_skips_to_the_next_track() {
    let actions = drive_queue(
        "next",
        vec![Event::Begin, connected(), Event::QueueChanged(true), Event::Sent(true)],
    );
    assert_eq!(
        actions,
        vec![
            Action::InspectSession { guild: 3 },
            Action::Queue { guild: 3, command: QueueCommand::Skip },
            whisper("Skipped to next track."),
            Action::Finish(Ok(())),
        ]
    );
}

#[test]
fn next_without_a_next_track_stops_playback() {
    let actions = drive_queue(
        "next",
        vec![
            Event::Begin,
            connected(),
            Event::QueueChanged(false),
            Event::QueueChanged(true),
            Event::Sent(true),
        ],
    );
    assert_eq!(
        actions,
        vec![
            Action::InspectSession { guild: 3 },
            Action::Queue { guild: 3, command: QueueCommand::Skip },
            Action::Queue { guild: 3, command: QueueCommand::Stop },
            whisper("No next track. Playback stopped."),
            Action::Finish(Ok(())),
        ]
    );
}

#[test]
fn stop_pause_and_resume_say_what_they_did() {
    for (name, command, text) in [
        ("stop", QueueCommand::Stop, "Playback stopped."),
        ("pause", QueueCommand::Pause, "Playback paused."),
        ("resume", QueueCommand::Resume, "Playback resumed."),
        ("prev", QueueCommand::Back, "Went back to the previous track."),
    ] {
        let actions = drive_queue(
            name,
            vec![Event::Begin, connected(), Event::QueueChanged(true), Event::Sent(true)],
        );
        assert_eq!(
            actions,
            vec![
                Action::InspectSession { guild: 3 },
                Action::Queue { guild: 3, command },
                whisper(text),
                Action::Finish(Ok(())),
            ]
        );
        assert_eq!(done_reply(command), text);
    }
    assert_eq!(done_reply(QueueCommand::Skip), "Skipped to next track.");
}

#[test]
fn stop_twice_is_the_same_as_once() {
    let once = drive_queue(
        "stop",
        vec![Event::Begin, connected(), Event::QueueChanged(true), Event::Sent(true)],
    );
    let again = drive_queue(
        "stop",
        vec![Event::Begin, connected(), Event::QueueChanged(true), Event::Sent(true)],
    );
    assert_eq!(once, again);
}

#[test]
fn prev_without_a_previous_track_says_so() {
    let actions = drive_queue(
        "prev",
        vec![Event::Begin, connected(), Event::QueueChanged(false), Event::Sent(true)],
    );
    assert_eq!(actions[2], whisper("No previous track."));
    assert_eq!(actions[3], Action::Finish(Ok(())));
}

#[test]
fn refused_queue_commands_are_internal() {
    for name in ["stop", "pause", "resume"] {
        let actions =
            drive_queue(name, vec![Event::Begin, connected(), Event::QueueChanged(false)]);
        assert_eq!(
            actions[2],
            Action::Finish(Err(RequestError::Internal("Playback control failed.".to_owned())))
        );
    }
}

#[test]
fn queue_request_starts_at_the_start() {
    let request = next::Request::parse(&queue_invocation("next")).unwrap();
    assert_eq!(request.stage(), Stage::Start);
    let mut ctx = ExecutionContext::new(Some(3), 9);
    let (request, action) = request.execute(&mut ctx, Event::Begin);
    assert_eq!(request.stage(), Stage::Inspecting { guild: 3 });
    assert_eq!(action, Action::InspectSession { guild: 3 });
}
