//! One invocation as the handlers see it: who sent it and from where, and
//! the reply channel that hands every answer to the transport, the first as
//! the initial response and all later ones as followups.

use vstd::prelude::*;
use crate::error::{RequestError, RequestErrorView, shown_text};

verus! {

/// What a handler wants said.
#[derive(Debug, PartialEq, Eq)]
pub enum MessageContent {
    /// Plain text.
    Simple(String),
    /// Text that may notify nobody but the invoking user.
    SimpleRestrictedMention(String),
}

/// The mathematical value of a [`MessageContent`].
pub enum MessageContentView {
    Simple(Seq<char>),
    SimpleRestrictedMention(Seq<char>),
}

impl View for MessageContent {
    type V = MessageContentView;

    open spec fn view(&self) -> MessageContentView {
        match self {
            MessageContent::Simple(text) => MessageContentView::Simple(text@),
            MessageContent::SimpleRestrictedMention(text) => MessageContentView::SimpleRestrictedMention(text@),
        }
    }
}

/// What the transport is asked to carry for one invocation.
#[derive(Debug, PartialEq, Eq)]
pub enum Outbound {
    /// The initial response to the invocation.
    Initial(MessageContent),
    /// A message after the initial response.
    Followup(MessageContent),
    /// The "still working" acknowledgment, which counts as the initial
    /// response.
    Acknowledge,
}

/// The mathematical value of an [`Outbound`].
pub enum OutboundView {
    Initial(MessageContentView),
    Followup(MessageContentView),
    Acknowledge,
}

impl View for Outbound {
    type V = OutboundView;

    open spec fn view(&self) -> OutboundView {
        match self {
            Outbound::Initial(content) => OutboundView::Initial(content@),
            Outbound::Followup(content) => OutboundView::Followup(content@),
            Outbound::Acknowledge => OutboundView::Acknowledge,
        }
    }
}

/// Whether the invocation has had its initial response.
#[derive(Clone, Copy, Debug, PartialEq, Eq)]
pub enum ResponseState {
    NotSent,
    Sent,
}

/// The kinds of channel that the handlers tell apart.
#[derive(Clone, Copy, Debug, PartialEq, Eq)]
pub enum ChannelType {
    Voice,
    Other,
}

/// A channel of a guild with the users present in it. `members` is `None`
/// where the member list could not be had.
#[derive(Debug, PartialEq, Eq)]
pub struct GuildChannel {
    pub id: u64,
    pub kind: ChannelType,
    pub members: Option<Vec<u64>>,
}

/// The mathematical value of a [`GuildChannel`].
pub struct GuildChannelView {
    pub id: u64,
    pub kind: ChannelType,
    pub members: Option<Seq<u64>>,
}

impl View for GuildChannel {
    type V = GuildChannelView;

    open spec fn view(&self) -> GuildChannelView {
        GuildChannelView {
            id: self.id,
            kind: self.kind,
            members: match self.members {
                Some(list) => Some(list@),
                None => None,
            },
        }
    }
}

impl DeepView for GuildChannel {
    type V = GuildChannelView;

    open spec fn deep_view(&self) -> GuildChannelView {
        self@
    }
}

/// The mathematical value of an [`ExecutionContext`].
pub struct ContextView {
    /// The guild that the invocation came from, if it came from one.
    pub guild_id: Option<u64>,
    /// The invoking user.
    pub user_id: u64,
    /// Whether the initial response has been handed to the transport.
    pub state: ResponseState,
}

/// One invocation's origin and reply channel.
///
/// The channel's only state is whether the initial response has been handed
/// over. `send_reply` and `defer` test and set it in one step, before the
/// transport is asked to send anything, so a caller that serialises its calls
/// (by a lock around the context) can never hand over two initial responses.
#[derive(Debug)]
pub struct ExecutionContext {
    guild_id: Option<u64>,
    user_id: u64,
    state: ResponseState,
}

impl View for ExecutionContext {
    type V = ContextView;

    closed spec fn view(&self) -> ContextView {
        ContextView { guild_id: self.guild_id, user_id: self.user_id, state: self.state }
    }
}

/// The reply channel after `content` has been handed to it, and what the
/// transport is to carry.
pub open spec fn replied(ctx: ContextView, content: MessageContentView) -> (ContextView, OutboundView) {
    match ctx.state {
        ResponseState::NotSent => (
            ContextView { state: ResponseState::Sent, ..ctx },
            OutboundView::Initial(content),
        ),
        ResponseState::Sent => (ctx, OutboundView::Followup(content)),
    }
}

/// The reply channel after a deferral, and what the transport is to carry,
/// if anything.
pub open spec fn deferred(ctx: ContextView) -> (ContextView, Option<OutboundView>) {
    match ctx.state {
        ResponseState::NotSent => (
            ContextView { state: ResponseState::Sent, ..ctx },
            Some(OutboundView::Acknowledge),
        ),
        ResponseState::Sent => (ctx, None),
    }
}

/// The text of the failure that a refused send is reported as.
pub open spec fn send_failure() -> RequestErrorView {
    RequestErrorView::Internal("Message failed to send."@)
}

/// The invocation's result once the transport has said whether a send went
/// through.
pub open spec fn delivery(delivered: bool) -> Result<(), RequestErrorView> {
    if delivered {
        Ok(())
    } else {
        Err(send_failure())
    }
}

/// The voice channel that `user` is in: the first voice channel of
/// `channels` that lists the user. A voice channel whose members could not
/// be had stops the search with an internal failure; a search that finds
/// nothing is the user's to fix.
pub open spec fn interactor_channel(channels: Seq<GuildChannelView>, user: u64) -> Result<u64, RequestErrorView>
    decreases channels.len(),
{
    if channels.len() == 0 {
        Err(RequestErrorView::User("if no provided channel, caller must be in a voice channel"@))
    } else if channels[0].kind is Voice {
        match channels[0].members {
            None => Err(RequestErrorView::Internal("channel members failed to load"@)),
            Some(present) => if present.contains(user) {
                Ok(channels[0].id)
            } else {
                interactor_channel(channels.drop_first(), user)
            },
        }
    } else {
        interactor_channel(channels.drop_first(), user)
    }
}

/// Whether `user` is among `present`.
pub fn is_present(present: &Vec<u64>, user: u64) -> (found: bool)
    ensures
        found == present@.contains(user),
{
    let mut i: usize = 0;
    while i < present.len()
        invariant
            i <= present.len(),
            forall|j: int| 0 <= j < i ==> present@[j] != user,
        decreases present.len() - i,
    {
        if present[i] == user {
            return true;
        }
        i = i + 1;
    }
    false
}

impl ExecutionContext {
    /// The context of a fresh invocation: nothing has been sent yet.
    pub fn new(guild_id: Option<u64>, user_id: u64) -> (ctx: ExecutionContext)
        ensures
            ctx@ == (ContextView { guild_id, user_id, state: ResponseState::NotSent }),
    {
        ExecutionContext { guild_id, user_id, state: ResponseState::NotSent }
    }

    /// The guild that the invocation came from, if it came from one.
    pub fn guild_id(&self) -> (guild: Option<u64>)
        ensures
            guild == self@.guild_id,
    {
        self.guild_id
    }

    /// The invoking user.
    pub fn user_id(&self) -> (user: u64)
        ensures
            user == self@.user_id,
    {
        self.user_id
    }

    /// Whether the initial response has been handed to the transport.
    pub fn response_state(&self) -> (state: ResponseState)
        ensures
            state == self@.state,
    {
        self.state
    }

    /// Hands plain text to the reply channel.
    pub fn reply(&mut self, content: String) -> (out: Outbound)
        ensures
            (final(self)@, out@) == replied(old(self)@, MessageContentView::Simple(content@)),
    {
        self.send_reply(MessageContent::Simple(content))
    }

    /// Hands text to the reply channel that may notify nobody but the
    /// invoking user.
    pub fn reply_restricted(&mut self, content: String) -> (out: Outbound)
        ensures
            (final(self)@, out@) == replied(
                old(self)@,
                MessageContentView::SimpleRestrictedMention(content@),
            ),
    {
        self.send_reply(MessageContent::SimpleRestrictedMention(content))
    }

    /// Hands `content` to the reply channel: it goes out as the initial
    /// response if none has gone out yet, and as a followup otherwise. The
    /// channel counts the initial response as sent from here on, whether or
    /// not the transport gets it through.
    pub fn send_reply(&mut self, content: MessageContent) -> (out: Outbound)
        ensures
            (final(self)@, out@) == replied(old(self)@, content@),
    {
        match self.state {
            ResponseState::NotSent => {
                self.state = ResponseState::Sent;
                Outbound::Initial(content)
            },
            ResponseState::Sent => Outbound::Followup(content),
        }
    }

    /// Asks for the "still working" acknowledgment, which takes the place of
    /// the initial response. Once anything has been sent this does nothing.
    pub fn defer(&mut self) -> (out: Option<Outbound>)
        ensures
            final(self)@ == deferred(old(self)@).0,
            match out {
                Some(carried) => deferred(old(self)@).1 == Some(carried@),
                None => deferred(old(self)@).1 is None,
            },
    {
        match self.state {
            ResponseState::NotSent => {
                self.state = ResponseState::Sent;
                Some(Outbound::Acknowledge)
            },
            ResponseState::Sent => None,
        }
    }

    /// Hands the reply channel what the user is told of a failed invocation:
    /// the failure's own text where it is the user's to fix, and an apology
    /// that gives no detail away where it is not.
    pub fn report(&mut self, error: &RequestError) -> (out: Outbound)
        ensures
            (final(self)@, out@) == replied(old(self)@, MessageContentView::Simple(shown_text(error@))),
    {
        self.reply(error.public_text())
    }

    /// The invocation's result once the transport has said whether a send
    /// went through: a refused send is an internal failure and is not tried
    /// again.
    pub fn delivered(delivered: bool) -> (result: Result<(), RequestError>)
        ensures
            crate::error::result_view(result) == delivery(delivered),
    {
        if delivered {
            Ok(())
        } else {
            Err(RequestError::internal("Message failed to send."))
        }
    }

    /// The voice channel that the invoking user is in, among `channels`.
    pub fn find_interactor_voice_channel(&self, channels: &Vec<GuildChannel>) -> (found: Result<u64, RequestError>)
        ensures
            match found {
                Ok(id) => interactor_channel(channels.deep_view(), self@.user_id) == Ok::<u64, RequestErrorView>(id),
                Err(error) => interactor_channel(channels.deep_view(), self@.user_id) == Err::<u64, RequestErrorView>(error@),
            },
    {
        let ghost all = channels.deep_view();
        assert(all.skip(0) =~= all);
        let mut i: usize = 0;
        while i < channels.len()
            invariant
                i <= channels.len(),
                all == channels.deep_view(),
                interactor_channel(all, self@.user_id) == interactor_channel(all.skip(i as int), self@.user_id),
            decreases channels.len() - i,
        {
            let channel = &channels[i];
            proof {
                let rest = all.skip(i as int);
                assert(rest[0] == channel@);
                assert(rest.drop_first() =~= all.skip(i + 1));
            }
            match channel.kind {
                ChannelType::Voice => {
                    match &channel.members {
                        None => {
                            return Err(RequestError::internal("channel members failed to load"));
                        },
                        Some(present) => {
                            if is_present(present, self.user_id) {
                                return Ok(channel.id);
                            }
                        },
                    }
                },
                ChannelType::Other => {},
            }
            i = i + 1;
        }
        assert(all.skip(i as int).len() == 0);
        Err(RequestError::user("if no provided channel, caller must be in a voice channel"))
    }
}

/// One call on the reply channel.
pub enum ReplyCall {
    Defer,
    Reply(MessageContentView),
}

/// The channel after one call.
pub open spec fn after_call(ctx: ContextView, call: ReplyCall) -> ContextView {
    match call {
        ReplyCall::Defer => deferred(ctx).0,
        ReplyCall::Reply(content) => replied(ctx, content).0,
    }
}

/// Everything that the transport is asked to carry, in order, when `calls`
/// are made one after the other on a channel that starts as `ctx`.
pub open spec fn transcript(ctx: ContextView, calls: Seq<ReplyCall>) -> Seq<OutboundView>
    decreases calls.len(),
{
    if calls.len() == 0 {
        Seq::empty()
    } else {
        let rest = transcript(after_call(ctx, calls[0]), calls.drop_first());
        match calls[0] {
            ReplyCall::Defer => match deferred(ctx).1 {
                Some(carried) => seq![carried] + rest,
                None => rest,
            },
            ReplyCall::Reply(content) => seq![replied(ctx, content).1] + rest,
        }
    }
}

/// Once the initial response has gone out, whatever is said goes out as a
/// followup.
pub proof fn lemma_followups_after_first(ctx: ContextView, calls: Seq<ReplyCall>)
    requires
        ctx.state is Sent,
    ensures
        forall|i: int| 0 <= i < transcript(ctx, calls).len() ==> transcript(ctx, calls)[i] is Followup,
    decreases calls.len(),
{
    if calls.len() > 0 {
        lemma_followups_after_first(after_call(ctx, calls[0]), calls.drop_first());
    }
}

/// Whatever calls are made on an invocation's reply channel, and in whatever
/// order, at most one initial response goes out: the first thing carried is
/// the initial response or the acknowledgment that stands for it, and
/// everything after it is a followup.
pub proof fn lemma_single_initial_response(ctx: ContextView, calls: Seq<ReplyCall>)
    requires
        ctx.state is NotSent,
    ensures
        transcript(ctx, calls).len() > 0 ==> !(transcript(ctx, calls)[0] is Followup),
        forall|i: int| 0 < i < transcript(ctx, calls).len() ==> transcript(ctx, calls)[i] is Followup,
    decreases calls.len(),
{
    if calls.len() > 0 {
        let next = after_call(ctx, calls[0]);
        assert(next.state is Sent);
        lemma_followups_after_first(next, calls.drop_first());
    }
}

/// Where the members of every voice channel are known and the user is in
/// exactly one voice channel, that channel is found, in whatever order the
/// channels come.
pub proof fn lemma_only_voice_channel_is_found(channels: Seq<GuildChannelView>, user: u64, at: int)
    requires
        0 <= at < channels.len(),
        forall|i: int|
            0 <= i < channels.len() && (#[trigger] channels[i]).kind is Voice ==> channels[i].members is Some,
        channels[at].kind is Voice,
        channels[at].members->0.contains(user),
        forall|i: int|
            0 <= i < channels.len() && i != at && (#[trigger] channels[i]).kind is Voice
                ==> !channels[i].members->0.contains(user),
    ensures
        interactor_channel(channels, user) == Ok::<u64, RequestErrorView>(channels[at].id),
    decreases channels.len(),
{
    if at > 0 {
        let rest = channels.drop_first();
        assert forall|i: int| 0 <= i < rest.len() implies rest[i] == channels[i + 1] by {}
        lemma_only_voice_channel_is_found(rest, user, at - 1);
    }
}

/// Whether the search for the user's voice channel stops at `channel`: at
/// a voice channel whose members are not known, or that the user is in.
pub open spec fn stops_search(channel: GuildChannelView, user: u64) -> bool {
    channel.kind is Voice && (channel.members matches Some(present) ==> present.contains(user))
}

/// The search gives what the first channel that stops it gives: the channel
/// where its members are known, and an internal failure where they are not.
pub proof fn lemma_search_ends_at_first_stop(channels: Seq<GuildChannelView>, user: u64, at: int)
    requires
        0 <= at < channels.len(),
        stops_search(channels[at], user),
        forall|i: int| 0 <= i < at ==> !stops_search(#[trigger] channels[i], user),
    ensures
        interactor_channel(channels, user) == match channels[at].members {
            Some(_) => Ok::<u64, RequestErrorView>(channels[at].id),
            None => Err(RequestErrorView::Internal("channel members failed to load"@)),
        },
    decreases channels.len(),
{
    if at > 0 {
        let rest = channels.drop_first();
        assert(!stops_search(channels[0], user));
        assert forall|i: int| 0 <= i < at - 1 implies !stops_search(#[trigger] rest[i], user) by {
            assert(rest[i] == channels[i + 1]);
        }
        lemma_search_ends_at_first_stop(rest, user, at - 1);
    }
}

/// A search that nothing stops fails as the user's to fix.
pub proof fn lemma_search_without_stop(channels: Seq<GuildChannelView>, user: u64)
    requires
        forall|i: int| 0 <= i < channels.len() ==> !stops_search(#[trigger] channels[i], user),
    ensures
        interactor_channel(channels, user) == Err::<u64, RequestErrorView>(
            RequestErrorView::User("if no provided channel, caller must be in a voice channel"@),
        ),
    decreases channels.len(),
{
    if channels.len() > 0 {
        let rest = channels.drop_first();
        assert(!stops_search(channels[0], user));
        assert forall|i: int| 0 <= i < rest.len() implies !stops_search(#[trigger] rest[i], user) by {
            assert(rest[i] == channels[i + 1]);
        }
        lemma_search_without_stop(rest, user);
    }
}

} // verus!
