//! From what a user asks to hear to the bytes to play.
//!
//! A reference that starts like a video address is remote: the download
//! tool is made sure of, the video's content id is found out, and the
//! payload is downloaded into a directory named after that id, unless the
//! directory holds a payload already. Any other reference names a stored
//! sound, whose payload lies under a directory named after the reference
//! with every unsafe character replaced.

use vstd::prelude::*;
use crate::discord::{ContextView, ExecutionContext, deferred, send_failure};
use crate::effect::{
    Action, ActionView, Event, EventView, Listing, ListingView, Metadata, MetadataView, Payload,
    PayloadView, out_of_turn, out_of_turn_error,
};
use crate::error::{RequestError, RequestErrorView};
use crate::text::{chars_of, push_char, starts_with};

verus! {

/// How a remote reference starts.
pub const REMOTE_PREFIX: &'static str = "https://www.youtube.com/watch";

/// The directory that holds the download tool and nothing else.
pub const TOOL_DIRECTORY: &'static str = "resources/bin/ytdlp";

/// The directory that holds one directory for each cached payload.
pub const MEDIA_ROOT: &'static str = "downloads";

/// The file name of a stored sound's payload.
pub const PAYLOAD_NAME: &'static str = "data.mp3";

/// The seconds that the tool waits on a silent connection.
pub const SOCKET_TIMEOUT: &'static str = "15";

/// The tool's argument that keeps it from downloading the payload.
pub const SKIP_DOWNLOAD: &'static str = "--skip-download";

/// The tool's name for the best format that holds audio only.
pub const AUDIO_FORMAT: &'static str = "ba";

/// The character that takes the place of an unsafe one.
pub const SUBSTITUTE: char = '_';

/// Whether a character is unsafe in a directory's name: whatever is not
/// ASCII, and the two path separators.
pub open spec fn is_unsafe(c: char) -> bool {
    c as u32 > 0x7f || c == '/' || c == '\\'
}

/// What stands for `c` in a directory's name.
pub open spec fn safe_char(c: char) -> char {
    if is_unsafe(c) {
        SUBSTITUTE
    } else {
        c
    }
}

/// `reference` with every unsafe character replaced by the substitute.
pub open spec fn sanitize(reference: Seq<char>) -> Seq<char> {
    Seq::new(reference.len(), |i: int| safe_char(reference[i]))
}

/// Whether a reference is remote.
pub open spec fn is_remote(reference: Seq<char>) -> bool {
    REMOTE_PREFIX@.is_prefix_of(reference)
}

/// Where the payload of the stored sound `reference` lies.
pub open spec fn stored_sound_path(reference: Seq<char>) -> Seq<char> {
    MEDIA_ROOT@ + "/"@ + sanitize(reference) + "/"@ + PAYLOAD_NAME@
}

/// The cache directory of the remote media with content id `id`.
pub open spec fn media_directory(id: Seq<char>) -> Seq<char> {
    MEDIA_ROOT@ + "/"@ + id
}

/// Whether some entry of a listing could not be read.
pub open spec fn has_unreadable(entries: Seq<Option<Seq<char>>>) -> bool {
    exists|i: int| 0 <= i < entries.len() && (#[trigger] entries[i]) is None
}

/// The one payload of a cache directory. A directory that does not hold
/// exactly one readable file is an internal failure.
pub open spec fn only_payload(entries: Seq<Option<Seq<char>>>) -> Result<Seq<char>, RequestErrorView> {
    if has_unreadable(entries) {
        Err(RequestErrorView::Internal("dl files check failed"@))
    } else if entries.len() == 1 {
        Ok(entries[0]->0)
    } else {
        Err(RequestErrorView::Internal("dl failed"@))
    }
}

/// How far a resolution has got.
#[derive(Debug, PartialEq, Eq)]
pub enum Stage {
    /// The "still working" acknowledgment has been handed to the transport.
    Deferring,
    /// The tool's directory has been asked for.
    CheckingTool,
    /// The tool's download has been asked for.
    FetchingTool,
    /// The content id has been asked for.
    Identifying { tool: String },
    /// The cache directory has been asked for, to see whether it holds a
    /// payload.
    Probing { tool: String, directory: String },
    /// The payload's download has been asked for.
    Fetching { directory: String },
    /// The cache directory has been asked for, after the download.
    Collecting,
    /// The payload's bytes have been asked for.
    Reading { remote: bool },
}

/// The mathematical value of a [`Stage`].
pub enum StageView {
    Deferring,
    CheckingTool,
    FetchingTool,
    Identifying { tool: Seq<char> },
    Probing { tool: Seq<char>, directory: Seq<char> },
    Fetching { directory: Seq<char> },
    Collecting,
    Reading { remote: bool },
}

impl View for Stage {
    type V = StageView;

    open spec fn view(&self) -> StageView {
        match self {
            Stage::Deferring => StageView::Deferring,
            Stage::CheckingTool => StageView::CheckingTool,
            Stage::FetchingTool => StageView::FetchingTool,
            Stage::Identifying { tool } => StageView::Identifying { tool: tool@ },
            Stage::Probing { tool, directory } => StageView::Probing { tool: tool@, directory: directory@ },
            Stage::Fetching { directory } => StageView::Fetching { directory: directory@ },
            Stage::Collecting => StageView::Collecting,
            Stage::Reading { remote } => StageView::Reading { remote: *remote },
        }
    }
}

/// Where a resolution stands after a step.
#[derive(Debug, PartialEq, Eq)]
pub enum Progress {
    /// The action is to be performed and its answer handed to the stage.
    Next(Stage, Action),
    /// The reference is resolved to these bytes.
    Resolved(Vec<u8>),
    /// The reference cannot be resolved.
    Failed(RequestError),
}

/// The mathematical value of a [`Progress`].
pub enum ProgressView {
    Next(StageView, ActionView),
    Resolved(Seq<u8>),
    Failed(RequestErrorView),
}

impl View for Progress {
    type V = ProgressView;

    open spec fn view(&self) -> ProgressView {
        match self {
            Progress::Next(stage, action) => ProgressView::Next(stage@, action@),
            Progress::Resolved(bytes) => ProgressView::Resolved(bytes@),
            Progress::Failed(error) => ProgressView::Failed(error@),
        }
    }
}

/// The step that asks for the tool's directory.
pub open spec fn check_tool() -> ProgressView {
    ProgressView::Next(
        StageView::CheckingTool,
        ActionView::ListDirectory { path: TOOL_DIRECTORY@, create: true },
    )
}

/// The step that asks for the content id of `reference`.
pub open spec fn identify(reference: Seq<char>, tool: Seq<char>) -> ProgressView {
    ProgressView::Next(StageView::Identifying { tool }, ActionView::FetchMetadata { reference, tool })
}

/// The step that follows a look into a cache directory that holds
/// something: its one payload is read.
pub open spec fn read_only_payload(entries: Seq<Option<Seq<char>>>) -> ProgressView {
    match only_payload(entries) {
        Ok(path) => ProgressView::Next(StageView::Reading { remote: true }, ActionView::ReadPayload { path }),
        Err(error) => ProgressView::Failed(error),
    }
}

/// The first step of a resolution, with the reply channel after it.
///
/// A remote reference takes a while, so the first thing is an acknowledgment
/// to the user, unless something has been sent already. A stored sound is
/// read at once.
pub open spec fn start(reference: Seq<char>, ctx: ContextView) -> (ContextView, ProgressView) {
    if is_remote(reference) {
        match deferred(ctx).1 {
            Some(outbound) => (
                deferred(ctx).0,
                ProgressView::Next(StageView::Deferring, ActionView::Send(outbound)),
            ),
            None => (ctx, check_tool()),
        }
    } else {
        (
            ctx,
            ProgressView::Next(
                StageView::Reading { remote: false },
                ActionView::ReadPayload { path: stored_sound_path(reference) },
            ),
        )
    }
}

/// One step of a resolution: where it stands after `event` has answered the
/// action that `stage` waits on.
///
/// - The tool's directory is trusted as it is found: its first entry is the
///   tool. Only an empty directory has the tool downloaded.
/// - A cache directory that holds anything counts as resolved, and nothing
///   is downloaded into it again.
/// - A stored sound that is not there is the user's to fix. Every other
///   failure of the file system or of the tool is internal.
pub open spec fn step(stage: StageView, reference: Seq<char>, event: EventView) -> ProgressView {
    match (stage, event) {
        (StageView::Deferring, EventView::Sent(delivered)) => if delivered {
            check_tool()
        } else {
            ProgressView::Failed(send_failure())
        },
        (StageView::CheckingTool, EventView::Listed(listing)) => match listing {
            ListingView::Entries(entries) => if entries.len() == 0 {
                ProgressView::Next(StageView::FetchingTool, ActionView::FetchTool { directory: TOOL_DIRECTORY@ })
            } else {
                match entries[0] {
                    Some(tool) => identify(reference, tool),
                    None => ProgressView::Failed(RequestErrorView::Internal("ytdlp check failed"@)),
                }
            },
            _ => ProgressView::Failed(RequestErrorView::Internal("ytdlp check dir failed"@)),
        },
        (StageView::FetchingTool, EventView::Tool(fetched)) => match fetched {
            Some(tool) => identify(reference, tool),
            None => ProgressView::Failed(RequestErrorView::Internal("file present"@)),
        },
        (StageView::Identifying { tool }, EventView::Identified(metadata)) => match metadata {
            MetadataView::Failed => ProgressView::Failed(RequestErrorView::Internal("ytdlp failed"@)),
            MetadataView::NotFound => ProgressView::Failed(
                RequestErrorView::User("bad input -- could not find video"@),
            ),
            MetadataView::Video { id } => ProgressView::Next(
                StageView::Probing { tool, directory: media_directory(id) },
                ActionView::ListDirectory { path: media_directory(id), create: false },
            ),
        },
        (StageView::Probing { tool, directory }, EventView::Listed(listing)) => match listing {
            ListingView::Unreadable => ProgressView::Failed(RequestErrorView::Internal("vid dl check failure"@)),
            ListingView::Entries(entries) if entries.len() > 0 => read_only_payload(entries),
            _ => ProgressView::Next(
                StageView::Fetching { directory },
                ActionView::FetchMedia { reference, tool, directory },
            ),
        },
        (StageView::Fetching { directory }, EventView::MediaFetched(fetched)) => if fetched {
            ProgressView::Next(StageView::Collecting, ActionView::ListDirectory { path: directory, create: false })
        } else {
            ProgressView::Failed(RequestErrorView::Internal("ytdlp failed"@))
        },
        (StageView::Collecting, EventView::Listed(listing)) => match listing {
            ListingView::Entries(entries) => read_only_payload(entries),
            _ => ProgressView::Failed(RequestErrorView::Internal("video dl failure"@)),
        },
        (StageView::Reading { remote }, EventView::Read(payload)) => match payload {
            PayloadView::Loaded(bytes) => ProgressView::Resolved(bytes),
            PayloadView::Missing => if remote {
                ProgressView::Failed(RequestErrorView::Internal("file not readable"@))
            } else {
                ProgressView::Failed(RequestErrorView::User("bad input -- could not find sound"@))
            },
            PayloadView::Failed => ProgressView::Failed(RequestErrorView::Internal("file not readable"@)),
        },
        _ => ProgressView::Failed(out_of_turn()),
    }
}

/// The most actions that a resolution at this stage still asks for, after
/// the one that it waits on.
pub open spec fn steps_left(stage: StageView) -> nat {
    match stage {
        StageView::Deferring => 7,
        StageView::CheckingTool => 6,
        StageView::FetchingTool => 5,
        StageView::Identifying { .. } => 4,
        StageView::Probing { .. } => 3,
        StageView::Fetching { .. } => 2,
        StageView::Collecting => 1,
        StageView::Reading { .. } => 0,
    }
}

/// Whether a reference is remote.
pub fn is_remote_reference(reference: &str) -> (remote: bool)
    ensures
        remote == is_remote(reference@),
{
    starts_with(reference, REMOTE_PREFIX)
}

/// `reference` with every character that is not ASCII, and every path
/// separator, replaced by the substitute. The result is as long as the
/// reference, and references that differ only in unsafe characters give the
/// same result.
pub fn sanitized(reference: &str) -> (clean: String)
    ensures
        clean@ == sanitize(reference@),
{
    let chars = chars_of(reference);
    let mut clean = String::new();
    let mut i: usize = 0;
    while i < chars.len()
        invariant
            i <= chars.len(),
            chars@ == reference@,
            clean@ == sanitize(reference@).take(i as int),
        decreases chars.len() - i,
    {
        let c = chars[i];
        let kept = if c as u32 > 0x7f || c == '/' || c == '\\' {
            SUBSTITUTE
        } else {
            c
        };
        push_char(&mut clean, kept);
        assert(sanitize(reference@).take(i + 1) =~= sanitize(reference@).take(i as int).push(kept));
        i = i + 1;
    }
    assert(sanitize(reference@).take(i as int) =~= sanitize(reference@));
    clean
}

/// Where the payload of the stored sound `reference` lies.
pub fn stored_sound_location(reference: &str) -> (path: String)
    ensures
        path@ == stored_sound_path(reference@),
{
    let mut path = MEDIA_ROOT.to_owned();
    path.append("/");
    path.append(sanitized(reference).as_str());
    path.append("/");
    path.append(PAYLOAD_NAME);
    path
}

/// The cache directory of the remote media with content id `id`.
pub fn media_location(id: &str) -> (directory: String)
    ensures
        directory@ == media_directory(id@),
{
    let mut directory = MEDIA_ROOT.to_owned();
    directory.append("/");
    directory.append(id);
    directory
}

/// The one payload of a cache directory.
pub fn select_payload(entries: &Vec<Option<String>>) -> (found: Result<String, RequestError>)
    ensures
        match found {
            Ok(path) => only_payload(entries.deep_view()) == Ok::<Seq<char>, RequestErrorView>(path@),
            Err(error) => only_payload(entries.deep_view()) == Err::<Seq<char>, RequestErrorView>(error@),
        },
{
    let mut i: usize = 0;
    while i < entries.len()
        invariant
            i <= entries.len(),
            forall|j: int| 0 <= j < i ==> (#[trigger] entries.deep_view()[j]) is Some,
        decreases entries.len() - i,
    {
        if entries[i].is_none() {
            assert(entries.deep_view()[i as int] is None);
            return Err(RequestError::internal("dl files check failed"));
        }
        i = i + 1;
    }
    if entries.len() == 1 {
        match &entries[0] {
            Some(path) => {
                assert(entries.deep_view()[0] == Some(path@));
                Ok(path.clone())
            },
            None => Err(RequestError::internal("dl files check failed")),
        }
    } else {
        Err(RequestError::internal("dl failed"))
    }
}

/// The step that asks for the tool's directory.
fn ask_for_tool() -> (progress: Progress)
    ensures
        progress@ == check_tool(),
{
    Progress::Next(Stage::CheckingTool, Action::ListDirectory { path: TOOL_DIRECTORY.to_owned(), create: true })
}

/// The step that asks for the content id of `reference`.
fn ask_for_identity(reference: &str, tool: String) -> (progress: Progress)
    ensures
        progress@ == identify(reference@, tool@),
{
    let action = Action::FetchMetadata { reference: reference.to_owned(), tool: tool.clone() };
    Progress::Next(Stage::Identifying { tool }, action)
}

/// The step that follows a look into a cache directory that holds
/// something.
fn ask_for_payload(entries: &Vec<Option<String>>) -> (progress: Progress)
    ensures
        progress@ == read_only_payload(entries.deep_view()),
{
    match select_payload(entries) {
        Ok(path) => Progress::Next(Stage::Reading { remote: true }, Action::ReadPayload { path }),
        Err(error) => Progress::Failed(error),
    }
}

/// Starts resolving `reference`.
pub fn begin(reference: &str, ctx: &mut ExecutionContext) -> (progress: Progress)
    ensures
        (final(ctx)@, progress@) == start(reference@, old(ctx)@),
{
    if is_remote_reference(reference) {
        match ctx.defer() {
            Some(outbound) => Progress::Next(Stage::Deferring, Action::Send(outbound)),
            None => ask_for_tool(),
        }
    } else {
        Progress::Next(
            Stage::Reading { remote: false },
            Action::ReadPayload { path: stored_sound_location(reference) },
        )
    }
}

/// Carries the resolution of `reference` one step further: takes the answer
/// to the action that `stage` waits on.
pub fn advance(stage: Stage, reference: &str, event: Event) -> (progress: Progress)
    ensures
        progress@ == step(stage@, reference@, event@),
{
    match (stage, event) {
        (Stage::Deferring, Event::Sent(delivered)) => if delivered {
            ask_for_tool()
        } else {
            Progress::Failed(RequestError::internal("Message failed to send."))
        },
        (Stage::CheckingTool, Event::Listed(listing)) => match listing {
            Listing::Entries(entries) => if entries.len() == 0 {
                Progress::Next(Stage::FetchingTool, Action::FetchTool { directory: TOOL_DIRECTORY.to_owned() })
            } else {
                match &entries[0] {
                    Some(tool) => ask_for_identity(reference, tool.clone()),
                    None => Progress::Failed(RequestError::internal("ytdlp check failed")),
                }
            },
            _ => Progress::Failed(RequestError::internal("ytdlp check dir failed")),
        },
        (Stage::FetchingTool, Event::Tool(fetched)) => match fetched {
            Some(tool) => ask_for_identity(reference, tool),
            None => Progress::Failed(RequestError::internal("file present")),
        },
        (Stage::Identifying { tool }, Event::Identified(metadata)) => match metadata {
            Metadata::Failed => Progress::Failed(RequestError::internal("ytdlp failed")),
            Metadata::NotFound => Progress::Failed(RequestError::user("bad input -- could not find video")),
            Metadata::Video { id } => {
                let directory = media_location(id.as_str());
                let action = Action::ListDirectory { path: directory.clone(), create: false };
                Progress::Next(Stage::Probing { tool, directory }, action)
            },
        },
        (Stage::Probing { tool, directory }, Event::Listed(listing)) => match listing {
            Listing::Unreadable => Progress::Failed(RequestError::internal("vid dl check failure")),
            Listing::Entries(entries) => if entries.len() > 0 {
                ask_for_payload(&entries)
            } else {
                let action = Action::FetchMedia {
                    reference: reference.to_owned(),
                    tool,
                    directory: directory.clone(),
                };
                Progress::Next(Stage::Fetching { directory }, action)
            },
            Listing::Missing => {
                let action = Action::FetchMedia {
                    reference: reference.to_owned(),
                    tool,
                    directory: directory.clone(),
                };
                Progress::Next(Stage::Fetching { directory }, action)
            },
        },
        (Stage::Fetching { directory }, Event::MediaFetched(fetched)) => if fetched {
            Progress::Next(Stage::Collecting, Action::ListDirectory { path: directory, create: false })
        } else {
            Progress::Failed(RequestError::internal("ytdlp failed"))
        },
        (Stage::Collecting, Event::Listed(listing)) => match listing {
            Listing::Entries(entries) => ask_for_payload(&entries),
            _ => Progress::Failed(RequestError::internal("video dl failure")),
        },
        (Stage::Reading { remote }, Event::Read(payload)) => match payload {
            Payload::Loaded(bytes) => Progress::Resolved(bytes),
            Payload::Missing => if remote {
                Progress::Failed(RequestError::internal("file not readable"))
            } else {
                Progress::Failed(RequestError::user("bad input -- could not find sound"))
            },
            Payload::Failed => Progress::Failed(RequestError::internal("file not readable")),
        },
        _ => Progress::Failed(out_of_turn_error()),
    }
}

/// A reference made of nothing but unsafe characters is sanitized to as
/// many substitute characters, whatever the characters were: two such
/// references of one length share a directory.
pub proof fn lemma_sanitize_replaces_all_unsafe(reference: Seq<char>)
    requires
        forall|i: int| 0 <= i < reference.len() ==> is_unsafe(#[trigger] reference[i]),
    ensures
        sanitize(reference).len() == reference.len(),
        forall|i: int| 0 <= i < reference.len() ==> #[trigger] sanitize(reference)[i] == SUBSTITUTE,
        sanitize(reference) == Seq::new(reference.len(), |i: int| SUBSTITUTE),
{
    assert(sanitize(reference) =~= Seq::new(reference.len(), |i: int| SUBSTITUTE));
}

/// Sanitizing keeps the length and every safe character, leaves no unsafe
/// character behind, and changes nothing when done again.
pub proof fn lemma_sanitize_is_safe(reference: Seq<char>)
    ensures
        sanitize(reference).len() == reference.len(),
        forall|i: int| 0 <= i < reference.len() ==> !is_unsafe(#[trigger] sanitize(reference)[i]),
        forall|i: int|
            0 <= i < reference.len() && !is_unsafe(reference[i]) ==> #[trigger] sanitize(reference)[i]
                == reference[i],
        sanitize(sanitize(reference)) == sanitize(reference),
{
    assert(sanitize(sanitize(reference)) =~= sanitize(reference));
}

/// Every step of a resolution ends it or leaves less to do than there was,
/// and none that goes on asks to finish.
pub proof fn lemma_step_makes_progress(stage: StageView, reference: Seq<char>, event: EventView)
    ensures
        step(stage, reference, event) matches ProgressView::Next(next, action) ==> steps_left(next) < steps_left(
            stage,
        ) && !(action is Finish),
{
}

/// A resolution starts with at most eight actions ahead of it.
pub proof fn lemma_start_is_bounded(reference: Seq<char>, ctx: ContextView)
    ensures
        start(reference, ctx).1 matches ProgressView::Next(next, action) ==> steps_left(next) <= 7 && !(action
            is Finish),
{
}

/// A resolution sends nothing but the acknowledgment that it may start
/// with.
pub proof fn lemma_resolution_sends_in_order(stage: StageView, reference: Seq<char>, event: EventView, ctx: ContextView)
    ensures
        step(stage, reference, event) matches ProgressView::Next(_, action) ==> !(action is Send),
        start(reference, ctx).1 matches ProgressView::Next(_, action) ==> crate::effect::sends_in_order(
            ctx,
            start(reference, ctx).0,
            action,
        ),
        !(start(reference, ctx).1 is Next) ==> start(reference, ctx).0 == ctx,
{
}

/// References that differ only in unsafe characters are sanitized to the
/// same name, and so share one stored sound.
pub proof fn lemma_sanitize_collides(a: Seq<char>, b: Seq<char>)
    requires
        a.len() == b.len(),
        forall|i: int| 0 <= i < a.len() ==> a[i] == b[i] || (is_unsafe(a[i]) && is_unsafe(b[i])),
    ensures
        sanitize(a) == sanitize(b),
        stored_sound_path(a) == stored_sound_path(b),
{
    assert(sanitize(a) =~= sanitize(b));
}

} // verus!
