//! `next`: play the next track of the queue, or stop where there is none.

use vstd::prelude::*;
use crate::discord::{ContextView, ExecutionContext};
use crate::effect::{Action, ActionView, Event, EventView, QueueCommand};
use crate::error::RequestError;
use crate::invocation::Invocation;
use crate::queue::{Stage, advance};

verus! {

/// A request to skip to the next track, and how far it has been carried out.
#[derive(Debug)]
pub struct Request {
    stage: Stage,
}

impl View for Request {
    type V = Stage;

    closed spec fn view(&self) -> Stage {
        self.stage
    }
}

/// One step of a `next`: the stage and the reply channel after `event`, and
/// the action to perform next.
pub open spec fn step(stage: Stage, ctx: ContextView, event: EventView) -> (Stage, ContextView, ActionView) {
    crate::queue::step(QueueCommand::Skip, stage, ctx, event)
}

impl Request {
    /// Reads the request from an invocation. Nothing in the parameters is
    /// required, so this succeeds on every invocation.
    pub fn parse(_cmd: &Invocation) -> (result: Result<Request, RequestError>)
        ensures
            result matches Ok(req) && req@ == Stage::Start,
    {
        Ok(Request { stage: Stage::Start })
    }

    /// How far the request has been carried out.
    pub fn stage(&self) -> (stage: Stage)
        ensures
            stage == self@,
    {
        self.stage
    }

    /// Carries the request one step further: takes the answer to the action
    /// that was asked last and returns the request as it stands now with the
    /// action to perform next.
    pub fn execute(self, ctx: &mut ExecutionContext, event: Event) -> (next: (Request, Action))
        ensures
            (next.0@, final(ctx)@, next.1@) == step(self@, old(ctx)@, event@),
    {
        let (stage, action) = advance(QueueCommand::Skip, self.stage, ctx, event);
        (Request { stage }, action)
    }
}

} // verus!
