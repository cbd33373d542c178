//! What a handler asks of its surroundings, and what they answer.
//!
//! A handler never sends, joins, downloads or reads anything itself. It is
//! advanced one step at a time: each step takes the answer to the action
//! that the step before asked for, and returns the next action. Whoever
//! drives the handler performs the action and comes back with the event that
//! tells how it went, until the action is `Finish`.

use vstd::prelude::*;
use crate::db::{LedgerOutcome, NewAudioLedgerEntry, NewAudioLedgerEntryView};
use crate::discord::{
    ContextView, ExecutionContext, GuildChannel, GuildChannelView, MessageContentView, Outbound,
    OutboundView, delivery, replied,
};
use crate::error::{RequestError, RequestErrorView, result_view};

verus! {

/// A guild's voice session as the driver reports it: the channel that the
/// bot is in, if it is in one.
#[derive(Clone, Copy, Debug, PartialEq, Eq)]
pub struct SessionHandle {
    pub channel: Option<u64>,
}

/// What can be asked of a session's queue.
#[derive(Clone, Copy, Debug, PartialEq, Eq)]
pub enum QueueCommand {
    Pause,
    Resume,
    Stop,
    Skip,
    Back,
}

/// What a directory holds. An entry is `None` where the directory has it but
/// its path could not be read.
#[derive(Debug, PartialEq, Eq)]
pub enum Listing {
    Missing,
    Unreadable,
    Entries(Vec<Option<String>>),
}

/// The mathematical value of a [`Listing`].
pub enum ListingView {
    Missing,
    Unreadable,
    Entries(Seq<Option<Seq<char>>>),
}

impl View for Listing {
    type V = ListingView;

    open spec fn view(&self) -> ListingView {
        match self {
            Listing::Missing => ListingView::Missing,
            Listing::Unreadable => ListingView::Unreadable,
            Listing::Entries(entries) => ListingView::Entries(entries.deep_view()),
        }
    }
}

/// What the download tool found out about a remote reference.
#[derive(Debug, PartialEq, Eq)]
pub enum Metadata {
    /// The tool could not be run or gave no usable answer.
    Failed,
    /// The reference does not name a single video.
    NotFound,
    /// The reference names the video with this content id.
    Video { id: String },
}

/// The mathematical value of a [`Metadata`].
pub enum MetadataView {
    Failed,
    NotFound,
    Video { id: Seq<char> },
}

impl View for Metadata {
    type V = MetadataView;

    open spec fn view(&self) -> MetadataView {
        match self {
            Metadata::Failed => MetadataView::Failed,
            Metadata::NotFound => MetadataView::NotFound,
            Metadata::Video { id } => MetadataView::Video { id: id@ },
        }
    }
}

/// What came of reading or fetching a payload.
#[derive(Debug, PartialEq, Eq)]
pub enum Payload {
    Loaded(Vec<u8>),
    Missing,
    Failed,
}

/// The mathematical value of a [`Payload`].
pub enum PayloadView {
    Loaded(Seq<u8>),
    Missing,
    Failed,
}

impl View for Payload {
    type V = PayloadView;

    open spec fn view(&self) -> PayloadView {
        match self {
            Payload::Loaded(bytes) => PayloadView::Loaded(bytes@),
            Payload::Missing => PayloadView::Missing,
            Payload::Failed => PayloadView::Failed,
        }
    }
}

/// What a handler asks of its surroundings.
#[derive(Debug, PartialEq, Eq)]
pub enum Action {
    /// Load the guild's channels, with the users present in each voice
    /// channel. Answered by `Event::Channels`.
    LoadChannels { guild: u64 },
    /// Look the guild's voice session up. Answered by `Event::Session`.
    InspectSession { guild: u64 },
    /// Have the driver join the channel, leaving any other channel of the
    /// guild. Answered by `Event::Joined`.
    Join { guild: u64, channel: u64 },
    /// Have the driver leave the guild's voice session. Answered by
    /// `Event::Left`.
    Leave { guild: u64 },
    /// Have the session's queue do something. Answered by
    /// `Event::QueueChanged`.
    Queue { guild: u64, command: QueueCommand },
    /// Put the audio at the end of the session's queue, which plays it at
    /// once if nothing else is playing. Answered by `Event::Enqueued`.
    Enqueue { guild: u64, audio: Vec<u8> },
    /// Have the transport carry something. Answered by `Event::Sent`.
    Send(Outbound),
    /// List a directory, after creating it where `create` is set. Answered
    /// by `Event::Listed`.
    ListDirectory { path: String, create: bool },
    /// Download the tool into the directory. Answered by `Event::Tool`.
    FetchTool { directory: String },
    /// Run the tool on the reference without downloading anything. Answered
    /// by `Event::Identified`.
    FetchMetadata { reference: String, tool: String },
    /// Run the tool on the reference and download the best audio-only format
    /// into the directory. Answered by `Event::MediaFetched`.
    FetchMedia { reference: String, tool: String, directory: String },
    /// Read a file into memory. Answered by `Event::Read`.
    ReadPayload { path: String },
    /// Create the file, which must not exist yet. Answered by
    /// `Event::Claimed`.
    ClaimPath { path: String },
    /// Download the attachment. Answered by `Event::Read`.
    FetchAttachment { id: u64 },
    /// Write the bytes to the claimed file. Answered by `Event::Stored`.
    StorePayload { path: String, bytes: Vec<u8> },
    /// Append the entry to the ledger. Answered by `Event::Recorded`.
    Record(NewAudioLedgerEntry),
    /// Nothing is left to do: the invocation ends with this result.
    Finish(Result<(), RequestError>),
}

/// The mathematical value of an [`Action`].
pub enum ActionView {
    LoadChannels { guild: u64 },
    InspectSession { guild: u64 },
    Join { guild: u64, channel: u64 },
    Leave { guild: u64 },
    Queue { guild: u64, command: QueueCommand },
    Enqueue { guild: u64, audio: Seq<u8> },
    Send(OutboundView),
    ListDirectory { path: Seq<char>, create: bool },
    FetchTool { directory: Seq<char> },
    FetchMetadata { reference: Seq<char>, tool: Seq<char> },
    FetchMedia { reference: Seq<char>, tool: Seq<char>, directory: Seq<char> },
    ReadPayload { path: Seq<char> },
    ClaimPath { path: Seq<char> },
    FetchAttachment { id: u64 },
    StorePayload { path: Seq<char>, bytes: Seq<u8> },
    Record(NewAudioLedgerEntryView),
    Finish(Result<(), RequestErrorView>),
}

impl View for Action {
    type V = ActionView;

    open spec fn view(&self) -> ActionView {
        match self {
            Action::LoadChannels { guild } => ActionView::LoadChannels { guild: *guild },
            Action::InspectSession { guild } => ActionView::InspectSession { guild: *guild },
            Action::Join { guild, channel } => ActionView::Join { guild: *guild, channel: *channel },
            Action::Leave { guild } => ActionView::Leave { guild: *guild },
            Action::Queue { guild, command } => ActionView::Queue { guild: *guild, command: *command },
            Action::Enqueue { guild, audio } => ActionView::Enqueue { guild: *guild, audio: audio@ },
            Action::Send(outbound) => ActionView::Send(outbound@),
            Action::ListDirectory { path, create } => ActionView::ListDirectory { path: path@, create: *create },
            Action::FetchTool { directory } => ActionView::FetchTool { directory: directory@ },
            Action::FetchMetadata { reference, tool } => ActionView::FetchMetadata {
                reference: reference@,
                tool: tool@,
            },
            Action::FetchMedia { reference, tool, directory } => ActionView::FetchMedia {
                reference: reference@,
                tool: tool@,
                directory: directory@,
            },
            Action::ReadPayload { path } => ActionView::ReadPayload { path: path@ },
            Action::ClaimPath { path } => ActionView::ClaimPath { path: path@ },
            Action::FetchAttachment { id } => ActionView::FetchAttachment { id: *id },
            Action::StorePayload { path, bytes } => ActionView::StorePayload { path: path@, bytes: bytes@ },
            Action::Record(entry) => ActionView::Record(entry@),
            Action::Finish(result) => ActionView::Finish(result_view(*result)),
        }
    }
}

impl DeepView for Action {
    type V = ActionView;

    open spec fn deep_view(&self) -> ActionView {
        self@
    }
}

/// What the surroundings answer.
#[derive(Debug, PartialEq, Eq)]
pub enum Event {
    /// The invocation starts: nothing has been asked yet.
    Begin,
    /// Whether the transport carried what it was handed.
    Sent(bool),
    /// The guild's channels, or `None` where they could not be loaded.
    Channels(Option<Vec<GuildChannel>>),
    /// The guild's voice session, or `None` where it has none.
    Session(Option<SessionHandle>),
    /// Whether the driver joined the channel.
    Joined(bool),
    /// Whether the driver left the session.
    Left(bool),
    /// Whether the queue did what was asked.
    QueueChanged(bool),
    /// Whether the audio was put into the queue.
    Enqueued(bool),
    /// What the directory holds.
    Listed(Listing),
    /// The path of the downloaded tool, or `None` where the download failed.
    Tool(Option<String>),
    /// What the tool found out about the reference.
    Identified(Metadata),
    /// Whether the media was downloaded.
    MediaFetched(bool),
    /// What came of reading a file or fetching an attachment.
    Read(Payload),
    /// Whether the file was created.
    Claimed(bool),
    /// Whether the bytes were written.
    Stored(bool),
    /// What the recorder said of the append.
    Recorded(LedgerOutcome),
}

/// The mathematical value of an [`Event`].
pub enum EventView {
    Begin,
    Sent(bool),
    Channels(Option<Seq<GuildChannelView>>),
    Session(Option<SessionHandle>),
    Joined(bool),
    Left(bool),
    QueueChanged(bool),
    Enqueued(bool),
    Listed(ListingView),
    Tool(Option<Seq<char>>),
    Identified(MetadataView),
    MediaFetched(bool),
    Read(PayloadView),
    Claimed(bool),
    Stored(bool),
    Recorded(LedgerOutcome),
}

impl View for Event {
    type V = EventView;

    open spec fn view(&self) -> EventView {
        match self {
            Event::Begin => EventView::Begin,
            Event::Sent(delivered) => EventView::Sent(*delivered),
            Event::Channels(channels) => EventView::Channels(channels.deep_view()),
            Event::Session(session) => EventView::Session(*session),
            Event::Joined(joined) => EventView::Joined(*joined),
            Event::Left(left) => EventView::Left(*left),
            Event::QueueChanged(changed) => EventView::QueueChanged(*changed),
            Event::Enqueued(queued) => EventView::Enqueued(*queued),
            Event::Listed(listing) => EventView::Listed(listing@),
            Event::Tool(path) => EventView::Tool(path.deep_view()),
            Event::Identified(metadata) => EventView::Identified(metadata@),
            Event::MediaFetched(fetched) => EventView::MediaFetched(*fetched),
            Event::Read(payload) => EventView::Read(payload@),
            Event::Claimed(claimed) => EventView::Claimed(*claimed),
            Event::Stored(stored) => EventView::Stored(*stored),
            Event::Recorded(outcome) => EventView::Recorded(*outcome),
        }
    }
}

impl DeepView for Event {
    type V = EventView;

    open spec fn deep_view(&self) -> EventView {
        self@
    }
}

/// The failure that an event is answered with when it does not answer the
/// action that was asked last.
pub open spec fn out_of_turn() -> RequestErrorView {
    RequestErrorView::Internal("Event does not answer the pending action."@)
}

/// The failure of an invocation that needs a guild and came from none.
pub open spec fn outside_guild() -> RequestErrorView {
    RequestErrorView::User("command only available in a server"@)
}

/// Whether the action calls on the voice driver.
pub open spec fn is_driver_call(action: ActionView) -> bool {
    action is Join || action is Leave || action is Queue || action is Enqueue
}

/// The failure that an event is answered with when it does not answer the
/// action that was asked last.
pub fn out_of_turn_error() -> (error: RequestError)
    ensures
        error@ == out_of_turn(),
{
    RequestError::internal("Event does not answer the pending action.")
}

/// The failure of an invocation that needs a guild and came from none.
pub fn outside_guild_error() -> (error: RequestError)
    ensures
        error@ == outside_guild(),
{
    RequestError::user("command only available in a server")
}

/// The reply channel after plain text has been handed to it, and the action
/// that has the transport carry the text.
pub open spec fn say(ctx: ContextView, text: Seq<char>) -> (ContextView, ActionView) {
    let handed = replied(ctx, MessageContentView::Simple(text));
    (handed.0, ActionView::Send(handed.1))
}

/// The reply channel after text for the invoking user alone has been handed
/// to it, and the action that has the transport carry the text.
pub open spec fn say_restricted(ctx: ContextView, text: Seq<char>) -> (ContextView, ActionView) {
    let handed = replied(ctx, MessageContentView::SimpleRestrictedMention(text));
    (handed.0, ActionView::Send(handed.1))
}

/// The invocation's result when `event` answers the last reply.
pub open spec fn conclusion(event: EventView) -> Result<(), RequestErrorView> {
    match event {
        EventView::Sent(delivered) => delivery(delivered),
        _ => Err(out_of_turn()),
    }
}

/// Hands plain text to the reply channel and asks the transport to carry it.
pub fn say_text(ctx: &mut ExecutionContext, text: String) -> (action: Action)
    ensures
        (final(ctx)@, action@) == say(old(ctx)@, text@),
{
    Action::Send(ctx.reply(text))
}

/// Hands text for the invoking user alone to the reply channel and asks the
/// transport to carry it.
pub fn say_text_restricted(ctx: &mut ExecutionContext, text: String) -> (action: Action)
    ensures
        (final(ctx)@, action@) == say_restricted(old(ctx)@, text@),
{
    Action::Send(ctx.reply_restricted(text))
}

/// The invocation's result when `event` answers the last reply.
pub fn conclude(event: &Event) -> (result: Result<(), RequestError>)
    ensures
        result_view(result) == conclusion(event@),
{
    match event {
        Event::Sent(delivered) => ExecutionContext::delivered(*delivered),
        _ => Err(out_of_turn_error()),
    }
}

/// Whether a step that finds the reply channel as `before` and leaves it
/// as `after`, asking for `action`, keeps to the order of replies: it
/// leaves the channel alone unless it sends, what it sends is a followup
/// exactly where the initial response has gone out before, and after a send
/// the initial response has gone out.
pub open spec fn sends_in_order(before: ContextView, after: ContextView, action: ActionView) -> bool {
    &&& after.guild_id == before.guild_id
    &&& after.user_id == before.user_id
    &&& before.state is Sent ==> after.state is Sent
    &&& !(action is Send) ==> after == before
    &&& action matches ActionView::Send(outbound) ==> after.state is Sent && (outbound is Followup
        <==> before.state is Sent)
}

} // verus!
