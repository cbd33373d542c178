//! `leave`: take the bot out of voice.

use vstd::prelude::*;
use crate::discord::{ContextView, ExecutionContext};
use crate::effect::{
    Action, ActionView, Event, EventView, conclude, conclusion, out_of_turn, out_of_turn_error,
    outside_guild, outside_guild_error, say, say_text, sends_in_order,
};
use crate::error::{RequestError, RequestErrorView};
use crate::invocation::Invocation;
use crate::session::is_connected;

verus! {

/// How far a `leave` has been carried out.
#[derive(Clone, Copy, Debug, PartialEq, Eq)]
pub enum Stage {
    /// Nothing has been asked yet.
    Start,
    /// The session has been asked for.
    Inspecting { guild: u64 },
    /// The driver has been asked to leave.
    Leaving,
    /// The reply has been handed to the transport.
    Replying,
    /// The invocation has ended.
    Finished,
}

/// A request to leave voice, and how far it has been carried out.
#[derive(Debug)]
pub struct Request {
    stage: Stage,
}

/// The mathematical value of a [`Request`].
pub struct RequestView {
    pub stage: Stage,
}

impl View for Request {
    type V = RequestView;

    closed spec fn view(&self) -> RequestView {
        RequestView { stage: self.stage }
    }
}

/// The reply where the guild has no session to leave.
pub open spec fn nothing_to_leave_text() -> Seq<char> {
    "No channel to leave! (If I am in a channel, you can remove me by running `/play` again followed by `/leave`.)"@
}

/// The reply after the driver has left.
pub open spec fn left_text() -> Seq<char> {
    "Left channel -- we just don't know which one (yet)."@
}

/// The failure of a leave that the driver refused.
pub open spec fn leave_failure() -> RequestErrorView {
    RequestErrorView::Internal("Voice channel leave failed."@)
}

/// One step of a `leave`: the request and the reply channel after `event`,
/// and the action to perform next.
///
/// - The invocation must come from a guild.
/// - Where the guild has no session, the driver is left alone and the user
///   is told that there is nothing to leave; this is no failure.
/// - Otherwise the driver leaves, once.
pub open spec fn step(req: RequestView, ctx: ContextView, event: EventView) -> (RequestView, ContextView, ActionView) {
    let halted = RequestView { stage: Stage::Finished };
    let replying = RequestView { stage: Stage::Replying };
    match (req.stage, event) {
        (Stage::Start, EventView::Begin) => match ctx.guild_id {
            None => (halted, ctx, ActionView::Finish(Err(outside_guild()))),
            Some(guild) => (
                RequestView { stage: Stage::Inspecting { guild } },
                ctx,
                ActionView::InspectSession { guild },
            ),
        },
        (Stage::Inspecting { guild }, EventView::Session(session)) => match session {
            None => (replying, say(ctx, nothing_to_leave_text()).0, say(ctx, nothing_to_leave_text()).1),
            Some(_) => (RequestView { stage: Stage::Leaving }, ctx, ActionView::Leave { guild }),
        },
        (Stage::Leaving, EventView::Left(left)) => if left {
            (replying, say(ctx, left_text()).0, say(ctx, left_text()).1)
        } else {
            (halted, ctx, ActionView::Finish(Err(leave_failure())))
        },
        (Stage::Replying, _) => (halted, ctx, ActionView::Finish(conclusion(event))),
        _ => (halted, ctx, ActionView::Finish(Err(out_of_turn()))),
    }
}

/// The most actions that a `leave` at this stage still asks for.
pub open spec fn steps_left(stage: Stage) -> nat {
    match stage {
        Stage::Start => 4,
        Stage::Inspecting { .. } => 3,
        Stage::Leaving => 2,
        Stage::Replying => 1,
        Stage::Finished => 1,
    }
}

impl Request {
    /// Reads the request from an invocation. A `leave` takes no parameter,
    /// so this succeeds on every invocation.
    pub fn parse(_cmd: &Invocation) -> (result: Result<Request, RequestError>)
        ensures
            result matches Ok(req) && req@ == (RequestView { stage: Stage::Start }),
    {
        Ok(Request { stage: Stage::Start })
    }

    /// How far the request has been carried out.
    pub fn stage(&self) -> (stage: Stage)
        ensures
            stage == self@.stage,
    {
        self.stage
    }

    /// Carries the request one step further: takes the answer to the action
    /// that was asked last and returns the request as it stands now with the
    /// action to perform next.
    pub fn execute(self, ctx: &mut ExecutionContext, event: Event) -> (next: (Request, Action))
        ensures
            (next.0@, final(ctx)@, next.1@) == step(self@, old(ctx)@, event@),
    {
        match (self.stage, event) {
            (Stage::Start, Event::Begin) => match ctx.guild_id() {
                None => (Request { stage: Stage::Finished }, Action::Finish(Err(outside_guild_error()))),
                Some(guild) => (Request { stage: Stage::Inspecting { guild } }, Action::InspectSession { guild }),
            },
            (Stage::Inspecting { guild }, Event::Session(session)) => if is_connected(&session) {
                (Request { stage: Stage::Leaving }, Action::Leave { guild })
            } else {
                let text = "No channel to leave! (If I am in a channel, you can remove me by running `/play` again followed by `/leave`.)".to_owned();
                let action = say_text(ctx, text);
                (Request { stage: Stage::Replying }, action)
            },
            (Stage::Leaving, Event::Left(left)) => if left {
                let action = say_text(ctx, "Left channel -- we just don't know which one (yet).".to_owned());
                (Request { stage: Stage::Replying }, action)
            } else {
                (
                    Request { stage: Stage::Finished },
                    Action::Finish(Err(RequestError::internal("Voice channel leave failed."))),
                )
            },
            (Stage::Replying, event) => (Request { stage: Stage::Finished }, Action::Finish(conclude(&event))),
            _ => (Request { stage: Stage::Finished }, Action::Finish(Err(out_of_turn_error()))),
        }
    }
}

/// Every step of a `leave` finishes it or leaves less to do than there was.
pub proof fn lemma_step_makes_progress(req: RequestView, ctx: ContextView, event: EventView)
    ensures
        1 <= steps_left(req.stage) <= 4,
        step(req, ctx, event).2 is Finish || steps_left(step(req, ctx, event).0.stage) < steps_left(req.stage),
{
}

/// Every step keeps to the order of replies.
pub proof fn lemma_step_sends_in_order(req: RequestView, ctx: ContextView, event: EventView)
    ensures
        sends_in_order(ctx, step(req, ctx, event).1, step(req, ctx, event).2),
{
}

} // verus!
