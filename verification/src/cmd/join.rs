//! `join`: bring the bot into a voice channel.

use vstd::prelude::*;
use crate::discord::{ContextView, ExecutionContext};
use crate::effect::{
    Action, ActionView, Event, EventView, conclude, conclusion, out_of_turn, out_of_turn_error,
    outside_guild, outside_guild_error, say, say_text, sends_in_order,
};
use crate::error::{RequestError, RequestErrorView};
use crate::invocation::{Invocation, first_channel};
use crate::mention::{channel_mention, mention_text};
use crate::session::{Transition, decide, resolve_target, target_channel, transition};

verus! {

/// How far a `join` has been carried out.
#[derive(Clone, Copy, Debug, PartialEq, Eq)]
pub enum Stage {
    /// Nothing has been asked yet.
    Start,
    /// The guild's channels have been asked for.
    Locating { guild: u64 },
    /// The session has been asked for.
    Inspecting { guild: u64, target: u64 },
    /// The driver has been asked to join `target`.
    Joining { guild: u64, target: u64, from: Option<u64> },
    /// The reply has been handed to the transport.
    Replying,
    /// The invocation has ended.
    Finished,
}

/// A request to join a voice channel, and how far it has been carried out.
#[derive(Debug)]
pub struct Request {
    channel: Option<u64>,
    stage: Stage,
}

/// The mathematical value of a [`Request`].
pub struct RequestView {
    /// The channel that the request names, if it names one.
    pub channel: Option<u64>,
    pub stage: Stage,
}

impl View for Request {
    type V = RequestView;

    closed spec fn view(&self) -> RequestView {
        RequestView { channel: self.channel, stage: self.stage }
    }
}

/// The reply to a request for the channel that the session is in.
pub open spec fn already_in_text(target: u64) -> Seq<char> {
    "Already in "@ + mention_text(target) + "!"@
}

/// The reply after joining from outside any channel.
pub open spec fn joined_text(target: u64) -> Seq<char> {
    "Joined channel "@ + mention_text(target) + "!"@
}

/// The reply after joining from another channel.
pub open spec fn switched_text(target: u64, from: u64) -> Seq<char> {
    "Switched to "@ + mention_text(target) + " from "@ + mention_text(from) + "!"@
}

/// The reply after the driver has joined `target`.
pub open spec fn arrival_text(target: u64, from: Option<u64>) -> Seq<char> {
    match from {
        Some(left) => switched_text(target, left),
        None => joined_text(target),
    }
}

/// The failure of a join that the driver refused.
pub open spec fn join_failure() -> RequestErrorView {
    RequestErrorView::Internal("Voice channel join failed."@)
}

/// The request as parsed from an invocation's parameters: it names the
/// channel of the first `target` parameter that holds a channel.
pub open spec fn parsed(options: Seq<crate::invocation::CommandOptionView>) -> RequestView {
    RequestView { channel: first_channel(options, "target"@), stage: Stage::Start }
}

/// The request with the invocation ended.
pub open spec fn halted(req: RequestView) -> RequestView {
    RequestView { stage: Stage::Finished, ..req }
}

/// One step of a `join`: the request and the reply channel after `event`,
/// and the action to perform next.
///
/// - The invocation must come from a guild.
/// - The target is the channel that the request names, or the voice channel
///   that the invoking user is in.
/// - A session that is in the target already is left alone and the user is
///   told so. Otherwise the driver joins the target, and the reply says
///   which channel was left for it, if any.
pub open spec fn step(req: RequestView, ctx: ContextView, event: EventView) -> (RequestView, ContextView, ActionView) {
    match (req.stage, event) {
        (Stage::Start, EventView::Begin) => match ctx.guild_id {
            None => (halted(req), ctx, ActionView::Finish(Err(outside_guild()))),
            Some(guild) => (
                RequestView { stage: Stage::Locating { guild }, ..req },
                ctx,
                ActionView::LoadChannels { guild },
            ),
        },
        (Stage::Locating { guild }, EventView::Channels(channels)) => match target_channel(
            req.channel,
            channels,
            ctx.user_id,
        ) {
            Err(error) => (halted(req), ctx, ActionView::Finish(Err(error))),
            Ok(target) => (
                RequestView { stage: Stage::Inspecting { guild, target }, ..req },
                ctx,
                ActionView::InspectSession { guild },
            ),
        },
        (Stage::Inspecting { guild, target }, EventView::Session(session)) => match transition(session, target) {
            Transition::Stay => (
                RequestView { stage: Stage::Replying, ..req },
                say(ctx, already_in_text(target)).0,
                say(ctx, already_in_text(target)).1,
            ),
            Transition::Enter { from } => (
                RequestView { stage: Stage::Joining { guild, target, from }, ..req },
                ctx,
                ActionView::Join { guild, channel: target },
            ),
        },
        (Stage::Joining { guild, target, from }, EventView::Joined(joined)) => if joined {
            (
                RequestView { stage: Stage::Replying, ..req },
                say(ctx, arrival_text(target, from)).0,
                say(ctx, arrival_text(target, from)).1,
            )
        } else {
            (halted(req), ctx, ActionView::Finish(Err(join_failure())))
        },
        (Stage::Replying, _) => (halted(req), ctx, ActionView::Finish(conclusion(event))),
        _ => (halted(req), ctx, ActionView::Finish(Err(out_of_turn()))),
    }
}

/// The most actions that a `join` at this stage still asks for.
pub open spec fn steps_left(stage: Stage) -> nat {
    match stage {
        Stage::Start => 5,
        Stage::Locating { .. } => 4,
        Stage::Inspecting { .. } => 3,
        Stage::Joining { .. } => 2,
        Stage::Replying => 1,
        Stage::Finished => 1,
    }
}

/// The reply to a request for the channel that the session is in.
pub fn already_in(target: u64) -> (text: String)
    ensures
        text@ == already_in_text(target),
{
    let mut text = "Already in ".to_owned();
    text.append(channel_mention(target).as_str());
    text.append("!");
    text
}

/// The reply after the driver has joined `target`.
pub fn arrival(target: u64, from: Option<u64>) -> (text: String)
    ensures
        text@ == arrival_text(target, from),
{
    match from {
        Some(left) => {
            let mut text = "Switched to ".to_owned();
            text.append(channel_mention(target).as_str());
            text.append(" from ");
            text.append(channel_mention(left).as_str());
            text.append("!");
            text
        },
        None => {
            let mut text = "Joined channel ".to_owned();
            text.append(channel_mention(target).as_str());
            text.append("!");
            text
        },
    }
}

impl Request {
    /// Reads the request from an invocation's parameters. A `join` has no
    /// required parameter, so this succeeds on every invocation.
    pub fn parse(cmd: &Invocation) -> (result: Result<Request, RequestError>)
        ensures
            result matches Ok(req) && req@ == parsed(cmd@.options),
    {
        Ok(Request { channel: cmd.first_channel("target"), stage: Stage::Start })
    }

    /// The channel that the request names, if it names one.
    pub fn channel(&self) -> (channel: Option<u64>)
        ensures
            channel == self@.channel,
    {
        self.channel
    }

    /// How far the request has been carried out.
    pub fn stage(&self) -> (stage: Stage)
        ensures
            stage == self@.stage,
    {
        self.stage
    }

    /// Carries the request one step further: takes the answer to the action
    /// that was asked last and returns the request as it stands now with the
    /// action to perform next.
    pub fn execute(self, ctx: &mut ExecutionContext, event: Event) -> (next: (Request, Action))
        ensures
            (next.0@, final(ctx)@, next.1@) == step(self@, old(ctx)@, event@),
    {
        let channel = self.channel;
        match (self.stage, event) {
            (Stage::Start, Event::Begin) => match ctx.guild_id() {
                None => (Request { channel, stage: Stage::Finished }, Action::Finish(Err(outside_guild_error()))),
                Some(guild) => (
                    Request { channel, stage: Stage::Locating { guild } },
                    Action::LoadChannels { guild },
                ),
            },
            (Stage::Locating { guild }, Event::Channels(channels)) => match resolve_target(channel, &channels, ctx) {
                Err(error) => (Request { channel, stage: Stage::Finished }, Action::Finish(Err(error))),
                Ok(target) => (
                    Request { channel, stage: Stage::Inspecting { guild, target } },
                    Action::InspectSession { guild },
                ),
            },
            (Stage::Inspecting { guild, target }, Event::Session(session)) => match decide(session, target) {
                Transition::Stay => {
                    let action = say_text(ctx, already_in(target));
                    (Request { channel, stage: Stage::Replying }, action)
                },
                Transition::Enter { from } => (
                    Request { channel, stage: Stage::Joining { guild, target, from } },
                    Action::Join { guild, channel: target },
                ),
            },
            (Stage::Joining { guild, target, from }, Event::Joined(joined)) => if joined {
                let action = say_text(ctx, arrival(target, from));
                (Request { channel, stage: Stage::Replying }, action)
            } else {
                (
                    Request { channel, stage: Stage::Finished },
                    Action::Finish(Err(RequestError::internal("Voice channel join failed."))),
                )
            },
            (Stage::Replying, event) => (
                Request { channel, stage: Stage::Finished },
                Action::Finish(conclude(&event)),
            ),
            _ => (Request { channel, stage: Stage::Finished }, Action::Finish(Err(out_of_turn_error()))),
        }
    }
}

/// Every step of a `join` finishes it or leaves less to do than there was.
pub proof fn lemma_step_makes_progress(req: RequestView, ctx: ContextView, event: EventView)
    ensures
        1 <= steps_left(req.stage) <= 5,
        step(req, ctx, event).2 is Finish || steps_left(step(req, ctx, event).0.stage) < steps_left(req.stage),
{
}

/// Every step keeps to the order of replies.
pub proof fn lemma_step_sends_in_order(req: RequestView, ctx: ContextView, event: EventView)
    ensures
        sends_in_order(ctx, step(req, ctx, event).1, step(req, ctx, event).2),
{
}

} // verus!
