//! `ping`: answer that the bot is there.

use vstd::prelude::*;
use crate::discord::{ContextView, ExecutionContext};
use crate::effect::{
    Action, ActionView, Event, EventView, conclude, conclusion, out_of_turn, out_of_turn_error, say,
    say_text, sends_in_order,
};
use crate::error::RequestError;
use crate::invocation::Invocation;

verus! {

/// How far a `ping` has been carried out.
#[derive(Clone, Copy, Debug, PartialEq, Eq)]
pub enum Stage {
    /// Nothing has been asked yet.
    Start,
    /// The reply has been handed to the transport.
    Replying,
    /// The invocation has ended.
    Finished,
}

/// A request for a sign of life, and how far it has been carried out.
#[derive(Debug)]
pub struct Request {
    stage: Stage,
}

impl View for Request {
    type V = Stage;

    closed spec fn view(&self) -> Stage {
        self.stage
    }
}

/// The reply to a `ping`.
pub open spec fn pong_text() -> Seq<char> {
    "Pong!"@
}

/// One step of a `ping`: the stage and the reply channel after `event`, and
/// the action to perform next. A `ping` works anywhere, in a guild or not.
pub open spec fn step(stage: Stage, ctx: ContextView, event: EventView) -> (Stage, ContextView, ActionView) {
    match (stage, event) {
        (Stage::Start, EventView::Begin) => (Stage::Replying, say(ctx, pong_text()).0, say(ctx, pong_text()).1),
        (Stage::Replying, _) => (Stage::Finished, ctx, ActionView::Finish(conclusion(event))),
        _ => (Stage::Finished, ctx, ActionView::Finish(Err(out_of_turn()))),
    }
}

/// The most actions that a `ping` at this stage still asks for.
pub open spec fn steps_left(stage: Stage) -> nat {
    match stage {
        Stage::Start => 2,
        Stage::Replying => 1,
        Stage::Finished => 1,
    }
}

impl Request {
    /// Reads the request from an invocation. A `ping` takes no parameter,
    /// so this succeeds on every invocation.
    pub fn parse(_cmd: &Invocation) -> (result: Result<Request, RequestError>)
        ensures
            result matches Ok(req) && req@ == Stage::Start,
    {
        Ok(Request { stage: Stage::Start })
    }

    /// How far the request has been carried out.
    pub fn stage(&self) -> (stage: Stage)
        ensures
            stage == self@,
    {
        self.stage
    }

    /// Carries the request one step further: takes the answer to the action
    /// that was asked last and returns the request as it stands now with the
    /// action to perform next.
    pub fn execute(self, ctx: &mut ExecutionContext, event: Event) -> (next: (Request, Action))
        ensures
            (next.0@, final(ctx)@, next.1@) == step(self@, old(ctx)@, event@),
    {
        match (self.stage, event) {
            (Stage::Start, Event::Begin) => {
                let action = say_text(ctx, "Pong!".to_owned());
                (Request { stage: Stage::Replying }, action)
            },
            (Stage::Replying, event) => (Request { stage: Stage::Finished }, Action::Finish(conclude(&event))),
            _ => (Request { stage: Stage::Finished }, Action::Finish(Err(out_of_turn_error()))),
        }
    }
}

/// Every step of a `ping` finishes it or leaves less to do than there was.
pub proof fn lemma_step_makes_progress(stage: Stage, ctx: ContextView, event: EventView)
    ensures
        1 <= steps_left(stage) <= 2,
        step(stage, ctx, event).2 is Finish || steps_left(step(stage, ctx, event).0) < steps_left(stage),
{
}

/// Every step keeps to the order of replies.
pub proof fn lemma_step_sends_in_order(stage: Stage, ctx: ContextView, event: EventView)
    ensures
        sends_in_order(ctx, step(stage, ctx, event).1, step(stage, ctx, event).2),
{
}

} // verus!
