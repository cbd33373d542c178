use yamble::discord::{ExecutionContext, Outbound};
use yamble::effect::{Action, Event, Listing, Metadata, Payload};
use yamble::error::RequestError;
use yamble::resolve::{
    advance, begin, is_remote_reference, media_location, sanitized, select_payload,
    stored_sound_location, Progress, Stage, AUDIO_FORMAT, MEDIA_ROOT, PAYLOAD_NAME, REMOTE_PREFIX,
    SKIP_DOWNLOAD, SOCKET_TIMEOUT, SUBSTITUTE, TOOL_DIRECTORY,
};
use yamble::text::{chars_of, same_text, starts_with};

const VIDEO: &str = "https://www.youtube.com/watch?v=abc";

fn expect_next(progress: Progress) -> (Stage, Action) {
    match progress {
        Progress::Next(stage, action) => (stage, action),
        other => panic!("the resolution should go on, but gave {:?}", other),
    }
}

fn expect_failed(progress: Progress) -> RequestError {
    match progress {
        Progress::Failed(error) => error,
        other => panic!("the resolution should fail, but gave {:?}", other),
    }
}

#[test]
fn settings_are_as_the_tool_expects() {
    assert_eq!(REMOTE_PREFIX, "https://www.youtube.com/watch");
    assert_eq!(TOOL_DIRECTORY, "resources/bin/ytdlp");
    assert_eq!(MEDIA_ROOT, "downloads");
    assert_eq!(PAYLOAD_NAME, "data.mp3");
    assert_eq!(SOCKET_TIMEOUT, "15");
    assert_eq!(SKIP_DOWNLOAD, "--skip-download");
    assert_eq!(AUDIO_FORMAT, "ba");
    assert_eq!(SUBSTITUTE, '_');
}

#[test]
fn text_helpers_agree_with_std() {
    assert_eq!(chars_of("añb"), vec!['a', 'ñ', 'b']);
    assert!(same_text("target", "target"));
    assert!(!same_text("target", "targe"));
    assert!(!same_text("target", "targex"));
    assert!(same_text("", ""));
    assert!(starts_with("abcdef", "abc"));
    assert!(starts_with("abc", "abc"));
    assert!(starts_with("abc", ""));
    assert!(!starts_with("ab", "abc"));
    assert!(!starts_with("abd", "abc"));
}

#[test]
fn remote_references_start_like_a_video_address() {
    assert!(is_remote_reference(VIDEO));
    assert!(is_remote_reference("https://www.youtube.com/watch"));
    assert!(!is_remote_reference("https://www.youtube.com/watc"));
    assert!(!is_remote_reference("http://www.youtube.com/watch?v=abc"));
    assert!(!is_remote_reference(" https://www.youtube.com/watch?v=abc"));
    assert!(!is_remote_reference("airhorn"));
    assert!(!is_remote_reference(""));
}

#[test]
fn unsafe_only_reference_becomes_all_substitutes() {
    let reference = "日本語/\\é";
    let clean = sanitized(reference);
    assert_eq!(clean, "______");
    assert_eq!(clean.chars().count(), reference.chars().count());
}

#[test]
fn distinct_unsafe_references_collide() {
    assert_eq!(sanitized("ñandú"), sanitized("/and\\"));
    assert_eq!(sanitized("ñandú"), "_and_");
}

#[test]
fn safe_characters_are_kept() {
    assert_eq!(sanitized("air-horn_2.final"), "air-horn_2.final");
    assert_eq!(sanitized(""), "");
    assert_eq!(sanitized("\u{7f}~ "), "\u{7f}~ ");
}

#[test]
fn ascii_separators_are_replaced_too() {
    assert_eq!(sanitized("a/b"), "a_b");
    assert_eq!(sanitized("..\\..\\etc"), ".._.._etc");
    assert_eq!(sanitized("../../etc/passwd"), ".._.._etc_passwd");
}

#[test]
fn sanitizing_twice_changes_nothing() {
    for reference in ["a/b", "日本語", "plain", "\\\\", "mixé/d"] {
        let once = sanitized(reference);
        assert_eq!(sanitized(once.as_str()), once);
    }
}

#[test]
fn stored_sounds_lie_under_their_sanitized_name() {
    assert_eq!(stored_sound_location("airhorn"), "downloads/airhorn/data.mp3");
    assert_eq!(stored_sound_location("a/b"), "downloads/a_b/data.mp3");
    assert_eq!(stored_sound_location("é"), "downloads/_/data.mp3");
}

#[test]
fn media_is_cached_under_its_content_id() {
    assert_eq!(media_location("dQw4w9WgXcQ"), "downloads/dQw4w9WgXcQ");
}

#[test]
fn cache_directory_must_hold_one_readable_file() {
    assert_eq!(
        select_payload(&vec![Some("downloads/x/a.webm".to_owned())]),
        Ok("downloads/x/a.webm".to_owned())
    );
    assert_eq!(
        select_payload(&vec![]),
        Err(RequestError::Internal("dl failed".to_owned()))
    );
    assert_eq!(
        select_payload(&vec![Some("a".to_owned()), Some("b".to_owned())]),
        Err(RequestError::Internal("dl failed".to_owned()))
    );
    assert_eq!(
        select_payload(&vec![None]),
        Err(RequestError::Internal("dl files check failed".to_owned()))
    );
    assert_eq!(
        select_payload(&vec![Some("a".to_owned()), None]),
        Err(RequestError::Internal("dl files check failed".to_owned()))
    );
}

#[test]
fn stored_sound_is_read_at_once() {
    let mut ctx = ExecutionContext::new(Some(1), 2);
    let (stage, action) = expect_next(begin("airhorn", &mut ctx));
    assert_eq!(
        action,
        Action::ReadPayload { path: "downloads/airhorn/data.mp3".to_owned() }
    );
    assert_eq!(ctx.defer(), Some(Outbound::Acknowledge));
    let done = advance(stage, "airhorn", Event::Read(Payload::Loaded(vec![1, 2, 3])));
    assert!(matches!(done, Progress::Resolved(bytes) if bytes == vec![1, 2, 3]));
}

#[test]
fn missing_stored_sound_is_the_users_to_fix() {
    let mut ctx = ExecutionContext::new(Some(1), 2);
    let (stage, _) = expect_next(begin("airhorn", &mut ctx));
    let error = expect_failed(advance(stage, "airhorn", Event::Read(Payload::Missing)));
    assert_eq!(error, RequestError::User("bad input -- could not find sound".to_owned()));
}

#[test]
fn unreadable_stored_sound_is_internal() {
    let mut ctx = ExecutionContext::new(Some(1), 2);
    let (stage, _) = expect_next(begin("airhorn", &mut ctx));
    let error = expect_failed(advance(stage, "airhorn", Event::Read(Payload::Failed)));
    assert_eq!(error, RequestError::Internal("file not readable".to_owned()));
}

#[test]
fn remote_reference_is_acknowledged_first() {
    let mut ctx = ExecutionContext::new(Some(1), 2);
    let (stage, action) = expect_next(begin(VIDEO, &mut ctx));
    assert_eq!(action, Action::Send(Outbound::Acknowledge));
    assert_eq!(ctx.defer(), None);
    let (_, action) = expect_next(advance(stage, VIDEO, Event::Sent(true)));
    assert_eq!(
        action,
        Action::ListDirectory { path: "resources/bin/ytdlp".to_owned(), create: true }
    );
}

#[test]
fn remote_reference_after_a_reply_skips_the_acknowledgment() {
    let mut ctx = ExecutionContext::new(Some(1), 2);
    ctx.reply("working".to_owned());
    let (_, action) = expect_next(begin(VIDEO, &mut ctx));
    assert_eq!(
        action,
        Action::ListDirectory { path: "resources/bin/ytdlp".to_owned(), create: true }
    );
}

#[test]
fn refused_acknowledgment_ends_the_resolution() {
    let mut ctx = ExecutionContext::new(Some(1), 2);
    let (stage, _) = expect_next(begin(VIDEO, &mut ctx));
    let error = expect_failed(advance(stage, VIDEO, Event::Sent(false)));
    assert_eq!(error, RequestError::Internal("Message failed to send.".to_owned()));
}

#[test]
fn present_tool_is_trusted() {
    let listing = Listing::Entries(vec![Some("resources/bin/ytdlp/yt-dlp".to_owned()), None]);
    let (_, action) = expect_next(advance(Stage::CheckingTool, VIDEO, Event::Listed(listing)));
    assert_eq!(
        action,
        Action::FetchMetadata {
            reference: VIDEO.to_owned(),
            tool: "resources/bin/ytdlp/yt-dlp".to_owned(),
        }
    );
}

#[test]
fn absent_tool_is_downloaded_once() {
    let (stage, action) =
        expect_next(advance(Stage::CheckingTool, VIDEO, Event::Listed(Listing::Entries(vec![]))));
    assert_eq!(action, Action::FetchTool { directory: "resources/bin/ytdlp".to_owned() });
    let (_, action) = expect_next(advance(stage, VIDEO, Event::Tool(Some("bin/yt-dlp".to_owned()))));
    assert_eq!(
        action,
        Action::FetchMetadata { reference: VIDEO.to_owned(), tool: "bin/yt-dlp".to_owned() }
    );
}

#[test]
fn tool_failures_are_internal() {
    assert_eq!(
        expect_failed(advance(Stage::CheckingTool, VIDEO, Event::Listed(Listing::Unreadable))),
        RequestError::Internal("ytdlp check dir failed".to_owned())
    );
    assert_eq!(
        expect_failed(advance(Stage::CheckingTool, VIDEO, Event::Listed(Listing::Missing))),
        RequestError::Internal("ytdlp check dir failed".to_owned())
    );
    assert_eq!(
        expect_failed(advance(
            Stage::CheckingTool,
            VIDEO,
            Event::Listed(Listing::Entries(vec![None]))
        )),
        RequestError::Internal("ytdlp check failed".to_owned())
    );
    assert_eq!(
        expect_failed(advance(Stage::FetchingTool, VIDEO, Event::Tool(None))),
        RequestError::Internal("file present".to_owned())
    );
}

#[test]
fn unidentified_media_is_the_users_to_fix() {
    let stage = Stage::Identifying { tool: "t".to_owned() };
    assert_eq!(
        expect_failed(advance(stage, VIDEO, Event::Identified(Metadata::NotFound))),
        RequestError::User("bad input -- could not find video".to_owned())
    );
    let stage = Stage::Identifying { tool: "t".to_owned() };
    assert_eq!(
        expect_failed(advance(stage, VIDEO, Event::Identified(Metadata::Failed))),
        RequestError::Internal("ytdlp failed".to_owned())
    );
}

#[test]
fn identified_media_is_looked_for_in_the_cache() {
    let stage = Stage::Identifying { tool: "t".to_owned() };
    let (stage, action) = expect_next(advance(
        stage,
        VIDEO,
        Event::Identified(Metadata::Video { id: "abc".to_owned() }),
    ));
    assert_eq!(
        action,
        Action::ListDirectory { path: "downloads/abc".to_owned(), create: false }
    );
    assert_eq!(
        stage,
        Stage::Probing { tool: "t".to_owned(), directory: "downloads/abc".to_owned() }
    );
}

#[test]
fn cache_miss_downloads_then_reads() {
    let probing = Stage::Probing { tool: "t".to_owned(), directory: "downloads/abc".to_owned() };
    let (stage, action) = expect_next(advance(probing, VIDEO, Event::Listed(Listing::Missing)));
    assert_eq!(
        action,
        Action::FetchMedia {
            reference: VIDEO.to_owned(),
            tool: "t".to_owned(),
            directory: "downloads/abc".to_owned(),
        }
    );
    let (stage, action) = expect_next(advance(stage, VIDEO, Event::MediaFetched(true)));
    assert_eq!(
        action,
        Action::ListDirectory { path: "downloads/abc".to_owned(), create: false }
    );
    let listing = Listing::Entries(vec![Some("downloads/abc/song.webm".to_owned())]);
    let (stage, action) = expect_next(advance(stage, VIDEO, Event::Listed(listing)));
    assert_eq!(action, Action::ReadPayload { path: "downloads/abc/song.webm".to_owned() });
    let done = advance(stage, VIDEO, Event::Read(Payload::Loaded(vec![9, 8])));
    assert!(matches!(done, Progress::Resolved(bytes) if bytes == vec![9, 8]));
}

#[test]
fn empty_cache_directory_counts_as_a_miss() {
    let probing = Stage::Probing { tool: "t".to_owned(), directory: "downloads/abc".to_owned() };
    let (_, action) =
        expect_next(advance(probing, VIDEO, Event::Listed(Listing::Entries(vec![]))));
    assert!(matches!(action, Action::FetchMedia { .. }));
}

#[test]
fn cache_hit_downloads_nothing() {
    let probing = Stage::Probing { tool: "t".to_owned(), directory: "downloads/abc".to_owned() };
    let listing = Listing::Entries(vec![Some("downloads/abc/song.webm".to_owned())]);
    let (stage, action) = expect_next(advance(probing, VIDEO, Event::Listed(listing)));
    assert_eq!(action, Action::ReadPayload { path: "downloads/abc/song.webm".to_owned() });
    let done = advance(stage, VIDEO, Event::Read(Payload::Loaded(vec![9, 8])));
    assert!(matches!(done, Progress::Resolved(bytes) if bytes == vec![9, 8]));
}

#[test]
fn download_failures_are_internal() {
    let probing = Stage::Probing { tool: "t".to_owned(), directory: "d".to_owned() };
    assert_eq!(
        expect_failed(advance(probing, VIDEO, Event::Listed(Listing::Unreadable))),
        RequestError::Internal("vid dl check failure".to_owned())
    );
    let fetching = Stage::Fetching { directory: "d".to_owned() };
    assert_eq!(
        expect_failed(advance(fetching, VIDEO, Event::MediaFetched(false))),
        RequestError::Internal("ytdlp failed".to_owned())
    );
    assert_eq!(
        expect_failed(advance(Stage::Collecting, VIDEO, Event::Listed(Listing::Missing))),
        RequestError::Internal("video dl failure".to_owned())
    );
    assert_eq!(
        expect_failed(advance(Stage::Collecting, VIDEO, Event::Listed(Listing::Unreadable))),
        RequestError::Internal("video dl failure".to_owned())
    );
    assert_eq!(
        expect_failed(advance(Stage::Collecting, VIDEO, Event::Listed(Listing::Entries(vec![])))),
        RequestError::Internal("dl failed".to_owned())
    );
    assert_eq!(
        expect_failed(advance(
            Stage::Reading { remote: true },
            VIDEO,
            Event::Read(Payload::Missing)
        )),
        RequestError::Internal("file not readable".to_owned())
    );
}

#[test]
fn event_out_of_turn_ends_the_resolution() {
    assert_eq!(
        expect_failed(advance(Stage::CheckingTool, VIDEO, Event::Sent(true))),
        RequestError::Internal("Event does not answer the pending action.".to_owned())
    );
    assert_eq!(
        expect_failed(advance(Stage::Deferring, VIDEO, Event::Begin)),
        RequestError::Internal("Event does not answer the pending action.".to_owned())
    );
}
