//! The media cache, reasoned about against a model of the files and of the
//! tool that a resolution deals with.
//!
//! The model is of surroundings that work: listing, reading, sending and the
//! tool all succeed, and nobody else writes to the directories. Against such
//! surroundings, resolving a remote reference a second time downloads
//! nothing and gives the bytes that the first time gave, and a media cache
//! that holds a payload is served from and never written to, whether or not
//! the tool has been downloaded before.

use vstd::prelude::*;
use crate::discord::ContextView;
use crate::effect::{ActionView, EventView, ListingView, MetadataView, PayloadView};
use crate::resolve::{ProgressView, TOOL_DIRECTORY, is_remote, media_directory, start, step};

verus! {

/// The files that a resolution deals with.
pub struct Files {
    /// What each directory holds. A path that is no key is no directory.
    pub directories: Map<Seq<char>, Seq<Option<Seq<char>>>>,
    /// What each file holds. A path that is no key is no file.
    pub contents: Map<Seq<char>, Seq<u8>>,
    /// How many payloads have been downloaded so far.
    pub downloads: nat,
}

/// What the tool gives for the one reference that is looked at.
pub struct Remote {
    /// Where a download of the tool puts it.
    pub tool: Seq<char>,
    /// The content id of the reference.
    pub id: Seq<char>,
    /// The file that a download of the reference's payload creates.
    pub file: Seq<char>,
    /// What that file then holds.
    pub payload: Seq<u8>,
}

/// The files after `action` has been performed, and the event that answers
/// it, in surroundings that work.
pub open spec fn answer(files: Files, remote: Remote, action: ActionView) -> (Files, EventView) {
    match action {
        ActionView::Send(_) => (files, EventView::Sent(true)),
        ActionView::ListDirectory { path, create } => if files.directories.dom().contains(path) {
            (files, EventView::Listed(ListingView::Entries(files.directories[path])))
        } else if create {
            (
                Files { directories: files.directories.insert(path, Seq::empty()), ..files },
                EventView::Listed(ListingView::Entries(Seq::empty())),
            )
        } else {
            (files, EventView::Listed(ListingView::Missing))
        },
        ActionView::FetchTool { directory } => (
            Files { directories: files.directories.insert(directory, seq![Some(remote.tool)]), ..files },
            EventView::Tool(Some(remote.tool)),
        ),
        ActionView::FetchMetadata { reference, tool } => (
            files,
            EventView::Identified(MetadataView::Video { id: remote.id }),
        ),
        ActionView::FetchMedia { reference, tool, directory } => (
            Files {
                directories: files.directories.insert(directory, seq![Some(remote.file)]),
                contents: files.contents.insert(remote.file, remote.payload),
                downloads: files.downloads + 1,
            },
            EventView::MediaFetched(true),
        ),
        ActionView::ReadPayload { path } => if files.contents.dom().contains(path) {
            (files, EventView::Read(PayloadView::Loaded(files.contents[path])))
        } else {
            (files, EventView::Read(PayloadView::Missing))
        },
        _ => (files, EventView::Begin),
    }
}

/// Where a resolution that stands at `progress` ends, and the files after
/// it, when at most `turns` actions are performed.
pub open spec fn settle(files: Files, remote: Remote, reference: Seq<char>, progress: ProgressView, turns: nat) -> (
    Files,
    ProgressView,
)
    decreases turns,
{
    match progress {
        ProgressView::Next(stage, action) => if turns == 0 {
            (files, progress)
        } else {
            let answered = answer(files, remote, action);
            settle(answered.0, remote, reference, step(stage, reference, answered.1), (turns - 1) as nat)
        },
        _ => (files, progress),
    }
}

/// The most actions that one resolution asks for.
pub open spec fn longest_resolution() -> nat {
    8
}

/// Where the resolution of `reference` ends, and the files after it.
pub open spec fn resolve_in(files: Files, remote: Remote, reference: Seq<char>, ctx: ContextView) -> (
    Files,
    ProgressView,
) {
    settle(files, remote, reference, start(reference, ctx).1, longest_resolution())
}

/// Whether the files hold, for the content id, exactly one payload with
/// these bytes.
pub open spec fn holds_payload(files: Files, remote: Remote, bytes: Seq<u8>) -> bool {
    let cached = media_directory(remote.id);
    &&& files.directories.dom().contains(cached)
    &&& files.directories[cached].len() == 1
    &&& files.directories[cached][0] matches Some(path) && files.contents.dom().contains(path)
        && files.contents[path] == bytes
}

/// Whether the files hold the tool.
pub open spec fn holds_tool(files: Files) -> bool {
    &&& files.directories.dom().contains(TOOL_DIRECTORY@)
    &&& files.directories[TOOL_DIRECTORY@].len() > 0
    &&& files.directories[TOOL_DIRECTORY@][0] is Some
}

/// Whether the tool can be had: it is held, or its directory is not there
/// or is empty, so that the tool is downloaded. What is left out is a
/// directory whose first entry cannot be read.
pub open spec fn tool_can_be_had(files: Files) -> bool {
    ||| holds_tool(files)
    ||| !files.directories.dom().contains(TOOL_DIRECTORY@)
    ||| files.directories[TOOL_DIRECTORY@].len() == 0
}

/// Whether the files hold the tool and, for the content id, exactly one
/// payload with these bytes.
pub open spec fn holds(files: Files, remote: Remote, bytes: Seq<u8>) -> bool {
    holds_tool(files) && holds_payload(files, remote, bytes)
}

/// Whether two sets of files differ in nothing but what the tool's
/// directory holds.
pub open spec fn same_but_for_tool(before: Files, after: Files) -> bool {
    &&& after.downloads == before.downloads
    &&& after.contents == before.contents
    &&& forall|path: Seq<char>|
        path != TOOL_DIRECTORY@ ==> (#[trigger] after.directories.dom().contains(path))
            == before.directories.dom().contains(path)
    &&& forall|path: Seq<char>|
        path != TOOL_DIRECTORY@ && before.directories.dom().contains(path) ==> #[trigger] after.directories[path]
            == before.directories[path]
}

/// No cache directory is the tool's directory.
pub proof fn lemma_cache_is_apart_from_tool(id: Seq<char>)
    ensures
        media_directory(id) != TOOL_DIRECTORY@,
{
    reveal_strlit("downloads");
    reveal_strlit("resources/bin/ytdlp");
    reveal_strlit("/");
    assert(media_directory(id)[0] == 'd');
    assert(TOOL_DIRECTORY@[0] == 'r');
}

/// A resolution of a remote reference that ends with bytes leaves the tool
/// and the payload behind, and has downloaded at most one payload.
#[verifier::rlimit(40)]
pub proof fn lemma_resolution_fills_cache(files: Files, remote: Remote, reference: Seq<char>, ctx: ContextView)
    requires
        is_remote(reference),
    ensures
        resolve_in(files, remote, reference, ctx).1 matches ProgressView::Resolved(bytes) ==> holds(
            resolve_in(files, remote, reference, ctx).0,
            remote,
            bytes,
        ),
        files.downloads <= resolve_in(files, remote, reference, ctx).0.downloads <= files.downloads + 1,
        !(resolve_in(files, remote, reference, ctx).1 is Next),
{
    reveal_with_fuel(settle, 9);
    lemma_cache_is_apart_from_tool(remote.id);
}

/// A resolution of a remote reference whose payload is held ends with the
/// payload's bytes and changes nothing: it downloads neither tool nor
/// payload.
#[verifier::rlimit(40)]
pub proof fn lemma_cache_hit(files: Files, remote: Remote, reference: Seq<char>, ctx: ContextView, bytes: Seq<u8>)
    requires
        is_remote(reference),
        holds(files, remote, bytes),
    ensures
        resolve_in(files, remote, reference, ctx) == (files, ProgressView::Resolved(bytes)),
{
    reveal_with_fuel(settle, 9);
    lemma_cache_is_apart_from_tool(remote.id);
}

/// Resolving the same remote reference twice downloads its payload at most
/// once: where the first resolution ends with bytes, the second one ends
/// with the same bytes, downloads nothing and leaves the files as they are.
pub proof fn lemma_cache_is_idempotent(
    files: Files,
    remote: Remote,
    reference: Seq<char>,
    first_ctx: ContextView,
    second_ctx: ContextView,
)
    requires
        is_remote(reference),
    ensures
        ({
            let first = resolve_in(files, remote, reference, first_ctx);
            let second = resolve_in(first.0, remote, reference, second_ctx);
            &&& first.0.downloads <= files.downloads + 1
            &&& first.1 matches ProgressView::Resolved(bytes) ==> second == (first.0, ProgressView::Resolved(bytes))
        }),
{
    let first = resolve_in(files, remote, reference, first_ctx);
    lemma_resolution_fills_cache(files, remote, reference, first_ctx);
    match first.1 {
        ProgressView::Resolved(bytes) => {
            lemma_cache_hit(first.0, remote, reference, second_ctx, bytes);
        },
        _ => {},
    }
}

/// A cache directory that holds anything is never written to again: a
/// resolution that finds it so downloads nothing and leaves the directory
/// and every file as they are, whether or not it can make sense of what the
/// directory holds.
#[verifier::rlimit(40)]
pub proof fn lemma_cache_is_never_rewritten(files: Files, remote: Remote, reference: Seq<char>, ctx: ContextView)
    requires
        is_remote(reference),
        files.directories.dom().contains(media_directory(remote.id)),
        files.directories[media_directory(remote.id)].len() > 0,
    ensures
        ({
            let after = resolve_in(files, remote, reference, ctx).0;
            &&& after.downloads == files.downloads
            &&& after.contents == files.contents
            &&& after.directories.dom().contains(media_directory(remote.id))
            &&& after.directories[media_directory(remote.id)] == files.directories[media_directory(remote.id)]
        }),
{
    reveal_with_fuel(settle, 9);
    lemma_cache_is_apart_from_tool(remote.id);
}

/// A media cache that holds the payload already is served from, whether
/// or not the tool has been downloaded before: the resolution ends with
/// the payload's bytes, downloads no payload, writes no file, and changes
/// nothing but the tool's directory, which it fills where the tool was not
/// there.
#[verifier::rlimit(40)]
pub proof fn lemma_filled_cache_is_served(
    files: Files,
    remote: Remote,
    reference: Seq<char>,
    ctx: ContextView,
    bytes: Seq<u8>,
)
    requires
        is_remote(reference),
        holds_payload(files, remote, bytes),
        tool_can_be_had(files),
    ensures
        resolve_in(files, remote, reference, ctx).1 == ProgressView::Resolved(bytes),
        same_but_for_tool(files, resolve_in(files, remote, reference, ctx).0),
        holds(resolve_in(files, remote, reference, ctx).0, remote, bytes),
{
    reveal_with_fuel(settle, 9);
    lemma_cache_is_apart_from_tool(remote.id);
}

} // verus!
