//! `play`: resolve what the user asks to hear, bring the bot into the
//! channel and put the audio into the session's queue.
//!
//! The reference is resolved before the driver is touched: a request for
//! something that cannot be had changes nothing in voice.

use vstd::prelude::*;
use crate::discord::{ContextView, ExecutionContext};
use crate::effect::{
    Action, ActionView, Event, EventView, conclude, conclusion, out_of_turn, out_of_turn_error,
    outside_guild, outside_guild_error, say, say_text, sends_in_order,
};
use crate::error::{RequestError, RequestErrorView};
use crate::invocation::{
    CommandOptionView, Invocation, last_channel, last_text, missing, missing_parameter,
};
use crate::mention::{channel_mention, mention_text};
use crate::resolve::{Progress, ProgressView};
use crate::session::{Transition, decide, resolve_target, target_channel, transition};

verus! {

/// How far a `play` has been carried out.
#[derive(Debug, PartialEq, Eq)]
pub enum Stage {
    /// Nothing has been asked yet.
    Start,
    /// The guild's channels have been asked for.
    Locating { guild: u64 },
    /// The reference is being resolved.
    Resolving { guild: u64, target: u64, inner: crate::resolve::Stage },
    /// The session has been asked for.
    Inspecting { guild: u64, target: u64, audio: Vec<u8> },
    /// The driver has been asked to join `target`.
    Joining { guild: u64, target: u64, from: Option<u64>, audio: Vec<u8> },
    /// The driver has been asked to take the audio.
    Enqueueing { target: u64, arrival: Transition },
    /// The reply has been handed to the transport.
    Replying,
    /// The invocation has ended.
    Finished,
}

/// The mathematical value of a [`Stage`].
pub enum StageView {
    Start,
    Locating { guild: u64 },
    Resolving { guild: u64, target: u64, inner: crate::resolve::StageView },
    Inspecting { guild: u64, target: u64, audio: Seq<u8> },
    Joining { guild: u64, target: u64, from: Option<u64>, audio: Seq<u8> },
    Enqueueing { target: u64, arrival: Transition },
    Replying,
    Finished,
}

impl View for Stage {
    type V = StageView;

    open spec fn view(&self) -> StageView {
        match self {
            Stage::Start => StageView::Start,
            Stage::Locating { guild } => StageView::Locating { guild: *guild },
            Stage::Resolving { guild, target, inner } => StageView::Resolving {
                guild: *guild,
                target: *target,
                inner: inner@,
            },
            Stage::Inspecting { guild, target, audio } => StageView::Inspecting {
                guild: *guild,
                target: *target,
                audio: audio@,
            },
            Stage::Joining { guild, target, from, audio } => StageView::Joining {
                guild: *guild,
                target: *target,
                from: *from,
                audio: audio@,
            },
            Stage::Enqueueing { target, arrival } => StageView::Enqueueing { target: *target, arrival: *arrival },
            Stage::Replying => StageView::Replying,
            Stage::Finished => StageView::Finished,
        }
    }
}

/// A request to play something, and how far it has been carried out.
#[derive(Debug)]
pub struct Request {
    music: String,
    target: Option<u64>,
    stage: Stage,
}

/// The mathematical value of a [`Request`].
pub struct RequestView {
    /// What to play: a video's address or the name of a stored sound.
    pub music: Seq<char>,
    /// The channel that the request names, if it names one.
    pub target: Option<u64>,
    pub stage: StageView,
}

impl View for Request {
    type V = RequestView;

    closed spec fn view(&self) -> RequestView {
        RequestView { music: self.music@, target: self.target, stage: self.stage@ }
    }
}

/// The failure of a join that the driver refused.
pub open spec fn join_failure() -> RequestErrorView {
    RequestErrorView::Internal("Voice channel join failed."@)
}

/// The failure of audio that the driver did not take.
pub open spec fn enqueue_failure() -> RequestErrorView {
    RequestErrorView::Internal("Audio could not be queued."@)
}

/// The request as parsed from an invocation's parameters: what to play is
/// the text of the last `music` parameter that holds text, and is required;
/// the channel is that of the last `target` parameter that holds a channel.
pub open spec fn parsed(options: Seq<CommandOptionView>) -> Result<RequestView, RequestErrorView> {
    match last_text(options, "music"@) {
        Some(music) => Ok(
            RequestView { music, target: last_channel(options, "target"@), stage: StageView::Start },
        ),
        None => Err(missing("music"@)),
    }
}

/// The reply once the audio is in the queue. It says how the session came to
/// be in the channel, and what is played.
pub open spec fn playing_text(music: Seq<char>, target: u64, arrival: Transition) -> Seq<char> {
    match arrival {
        Transition::Stay => "Playing "@ + music + " in "@ + mention_text(target) + "!"@,
        Transition::Enter { from: None } => "Joined channel "@ + mention_text(target) + "!\nPlaying "@ + music,
        Transition::Enter { from: Some(left) } => "Switched to "@ + mention_text(target) + " from "@
            + mention_text(left) + "!\nPlaying "@ + music,
    }
}

/// The request with the invocation ended.
pub open spec fn halted(req: RequestView) -> RequestView {
    RequestView { stage: StageView::Finished, ..req }
}

/// What a step of the resolution means for the request: the resolution goes
/// on, or the session is asked for now that the audio is there, or the
/// invocation ends with the resolution's failure.
pub open spec fn resolving(
    req: RequestView,
    guild: u64,
    target: u64,
    ctx: ContextView,
    progress: ProgressView,
) -> (RequestView, ContextView, ActionView) {
    match progress {
        ProgressView::Next(inner, action) => (
            RequestView { stage: StageView::Resolving { guild, target, inner }, ..req },
            ctx,
            action,
        ),
        ProgressView::Resolved(audio) => (
            RequestView { stage: StageView::Inspecting { guild, target, audio }, ..req },
            ctx,
            ActionView::InspectSession { guild },
        ),
        ProgressView::Failed(error) => (halted(req), ctx, ActionView::Finish(Err(error))),
    }
}

/// One step of a `play`: the request and the reply channel after `event`,
/// and the action to perform next.
///
/// - The invocation must come from a guild.
/// - The target is the channel that the request names, or the voice channel
///   that the invoking user is in.
/// - The reference is resolved to bytes. Where that fails, the invocation
///   ends with the failure and the driver has not been called.
/// - The session is brought into the target as a `join` would bring it.
/// - The audio is put into the session's queue, and the reply says so.
pub open spec fn step(req: RequestView, ctx: ContextView, event: EventView) -> (RequestView, ContextView, ActionView) {
    match (req.stage, event) {
        (StageView::Start, EventView::Begin) => match ctx.guild_id {
            None => (halted(req), ctx, ActionView::Finish(Err(outside_guild()))),
            Some(guild) => (
                RequestView { stage: StageView::Locating { guild }, ..req },
                ctx,
                ActionView::LoadChannels { guild },
            ),
        },
        (StageView::Locating { guild }, EventView::Channels(channels)) => match target_channel(
            req.target,
            channels,
            ctx.user_id,
        ) {
            Err(error) => (halted(req), ctx, ActionView::Finish(Err(error))),
            Ok(target) => resolving(
                req,
                guild,
                target,
                crate::resolve::start(req.music, ctx).0,
                crate::resolve::start(req.music, ctx).1,
            ),
        },
        (StageView::Resolving { guild, target, inner }, _) => resolving(
            req,
            guild,
            target,
            ctx,
            crate::resolve::step(inner, req.music, event),
        ),
        (StageView::Inspecting { guild, target, audio }, EventView::Session(session)) => match transition(
            session,
            target,
        ) {
            Transition::Stay => (
                RequestView { stage: StageView::Enqueueing { target, arrival: Transition::Stay }, ..req },
                ctx,
                ActionView::Enqueue { guild, audio },
            ),
            Transition::Enter { from } => (
                RequestView { stage: StageView::Joining { guild, target, from, audio }, ..req },
                ctx,
                ActionView::Join { guild, channel: target },
            ),
        },
        (StageView::Joining { guild, target, from, audio }, EventView::Joined(joined)) => if joined {
            (
                RequestView { stage: StageView::Enqueueing { target, arrival: Transition::Enter { from } }, ..req },
                ctx,
                ActionView::Enqueue { guild, audio },
            )
        } else {
            (halted(req), ctx, ActionView::Finish(Err(join_failure())))
        },
        (StageView::Enqueueing { target, arrival }, EventView::Enqueued(queued)) => if queued {
            (
                RequestView { stage: StageView::Replying, ..req },
                say(ctx, playing_text(req.music, target, arrival)).0,
                say(ctx, playing_text(req.music, target, arrival)).1,
            )
        } else {
            (halted(req), ctx, ActionView::Finish(Err(enqueue_failure())))
        },
        (StageView::Replying, _) => (halted(req), ctx, ActionView::Finish(conclusion(event))),
        _ => (halted(req), ctx, ActionView::Finish(Err(out_of_turn()))),
    }
}

/// The most actions that a `play` at this stage still asks for.
pub open spec fn steps_left(stage: StageView) -> nat {
    match stage {
        StageView::Start => 14,
        StageView::Locating { .. } => 13,
        StageView::Resolving { inner, .. } => 5 + crate::resolve::steps_left(inner),
        StageView::Inspecting { .. } => 4,
        StageView::Joining { .. } => 3,
        StageView::Enqueueing { .. } => 2,
        StageView::Replying => 1,
        StageView::Finished => 1,
    }
}

/// The reply once the audio is in the queue.
pub fn playing(music: &str, target: u64, arrival: Transition) -> (text: String)
    ensures
        text@ == playing_text(music@, target, arrival),
{
    match arrival {
        Transition::Stay => {
            let mut text = "Playing ".to_owned();
            text.append(music);
            text.append(" in ");
            text.append(channel_mention(target).as_str());
            text.append("!");
            text
        },
        Transition::Enter { from: None } => {
            let mut text = "Joined channel ".to_owned();
            text.append(channel_mention(target).as_str());
            text.append("!\nPlaying ");
            text.append(music);
            text
        },
        Transition::Enter { from: Some(left) } => {
            let mut text = "Switched to ".to_owned();
            text.append(channel_mention(target).as_str());
            text.append(" from ");
            text.append(channel_mention(left).as_str());
            text.append("!\nPlaying ");
            text.append(music);
            text
        },
    }
}

impl Request {
    /// Reads the request from an invocation's parameters. It fails, with a
    /// failure that names the parameter, exactly where no `music` parameter
    /// holds text.
    pub fn parse(cmd: &Invocation) -> (result: Result<Request, RequestError>)
        ensures
            match result {
                Ok(req) => parsed(cmd@.options) == Ok::<RequestView, RequestErrorView>(req@),
                Err(error) => parsed(cmd@.options) == Err::<RequestView, RequestErrorView>(error@),
            },
    {
        match cmd.last_text("music") {
            Some(music) => Ok(Request { music, target: cmd.last_channel("target"), stage: Stage::Start }),
            None => Err(missing_parameter("music")),
        }
    }

    /// What to play.
    pub fn music(&self) -> (music: &str)
        ensures
            music@ == self@.music,
    {
        self.music.as_str()
    }

    /// The channel that the request names, if it names one.
    pub fn target(&self) -> (target: Option<u64>)
        ensures
            target == self@.target,
    {
        self.target
    }

    /// The request at a new stage after a step of the resolution.
    fn resolved(
        music: String,
        requested: Option<u64>,
        guild: u64,
        target: u64,
        progress: Progress,
    ) -> (next: (Request, Action))
        ensures
            forall|ctx: ContextView, stage: StageView|
                (next.0@, ctx, next.1@) == #[trigger] resolving(
                    RequestView { music: music@, target: requested, stage },
                    guild,
                    target,
                    ctx,
                    progress@,
                ),
    {
        match progress {
            Progress::Next(inner, action) => (
                Request { music, target: requested, stage: Stage::Resolving { guild, target, inner } },
                action,
            ),
            Progress::Resolved(audio) => (
                Request { music, target: requested, stage: Stage::Inspecting { guild, target, audio } },
                Action::InspectSession { guild },
            ),
            Progress::Failed(error) => (
                Request { music, target: requested, stage: Stage::Finished },
                Action::Finish(Err(error)),
            ),
        }
    }

    /// Carries the request one step further: takes the answer to the action
    /// that was asked last and returns the request as it stands now with the
    /// action to perform next.
    pub fn execute(self, ctx: &mut ExecutionContext, event: Event) -> (next: (Request, Action))
        ensures
            (next.0@, final(ctx)@, next.1@) == step(self@, old(ctx)@, event@),
    {
        let music = self.music;
        let requested = self.target;
        match (self.stage, event) {
            (Stage::Start, Event::Begin) => match ctx.guild_id() {
                None => (
                    Request { music, target: requested, stage: Stage::Finished },
                    Action::Finish(Err(outside_guild_error())),
                ),
                Some(guild) => (
                    Request { music, target: requested, stage: Stage::Locating { guild } },
                    Action::LoadChannels { guild },
                ),
            },
            (Stage::Locating { guild }, Event::Channels(channels)) => match resolve_target(requested, &channels, ctx) {
                Err(error) => (
                    Request { music, target: requested, stage: Stage::Finished },
                    Action::Finish(Err(error)),
                ),
                Ok(target) => {
                    let progress = crate::resolve::begin(music.as_str(), ctx);
                    Request::resolved(music, requested, guild, target, progress)
                },
            },
            (Stage::Resolving { guild, target, inner }, event) => {
                let progress = crate::resolve::advance(inner, music.as_str(), event);
                Request::resolved(music, requested, guild, target, progress)
            },
            (Stage::Inspecting { guild, target, audio }, Event::Session(session)) => match decide(session, target) {
                Transition::Stay => (
                    Request {
                        music,
                        target: requested,
                        stage: Stage::Enqueueing { target, arrival: Transition::Stay },
                    },
                    Action::Enqueue { guild, audio },
                ),
                Transition::Enter { from } => {
                    let action = Action::Join { guild, channel: target };
                    (Request { music, target: requested, stage: Stage::Joining { guild, target, from, audio } }, action)
                },
            },
            (Stage::Joining { guild, target, from, audio }, Event::Joined(joined)) => if joined {
                (
                    Request {
                        music,
                        target: requested,
                        stage: Stage::Enqueueing { target, arrival: Transition::Enter { from } },
                    },
                    Action::Enqueue { guild, audio },
                )
            } else {
                (
                    Request { music, target: requested, stage: Stage::Finished },
                    Action::Finish(Err(RequestError::internal("Voice channel join failed."))),
                )
            },
            (Stage::Enqueueing { target, arrival }, Event::Enqueued(queued)) => if queued {
                let action = say_text(ctx, playing(music.as_str(), target, arrival));
                (Request { music, target: requested, stage: Stage::Replying }, action)
            } else {
                (
                    Request { music, target: requested, stage: Stage::Finished },
                    Action::Finish(Err(RequestError::internal("Audio could not be queued."))),
                )
            },
            (Stage::Replying, event) => (
                Request { music, target: requested, stage: Stage::Finished },
                Action::Finish(conclude(&event)),
            ),
            _ => (
                Request { music, target: requested, stage: Stage::Finished },
                Action::Finish(Err(out_of_turn_error())),
            ),
        }
    }
}

/// Every step of a `play` finishes it or leaves less to do than there was.
pub proof fn lemma_step_makes_progress(req: RequestView, ctx: ContextView, event: EventView)
    ensures
        1 <= steps_left(req.stage) <= 14,
        step(req, ctx, event).2 is Finish || steps_left(step(req, ctx, event).0.stage) < steps_left(req.stage),
{
    match req.stage {
        StageView::Locating { .. } => {
            crate::resolve::lemma_start_is_bounded(req.music, ctx);
        },
        StageView::Resolving { inner, .. } => {
            crate::resolve::lemma_step_makes_progress(inner, req.music, event);
        },
        _ => {},
    }
}

/// Every step keeps to the order of replies.
pub proof fn lemma_step_sends_in_order(req: RequestView, ctx: ContextView, event: EventView)
    ensures
        sends_in_order(ctx, step(req, ctx, event).1, step(req, ctx, event).2),
{
    match req.stage {
        StageView::Locating { .. } => {
            crate::resolve::lemma_resolution_sends_in_order(crate::resolve::StageView::Collecting, req.music, event, ctx);
        },
        StageView::Resolving { inner, .. } => {
            crate::resolve::lemma_resolution_sends_in_order(inner, req.music, event, ctx);
        },
        _ => {},
    }
}

} // verus!
