//! The commands that act on a session's queue: `pause`, `resume`, `stop`,
//! `next` and `prev`. They differ in what they ask of the queue and in what
//! they tell the user, and share everything else.

use vstd::prelude::*;
use crate::discord::{ContextView, ExecutionContext};
use crate::effect::{
    Action, ActionView, Event, EventView, QueueCommand, conclude, conclusion, out_of_turn,
    out_of_turn_error, outside_guild, outside_guild_error, say_restricted, say_text_restricted,
    sends_in_order,
};
use crate::error::{RequestError, RequestErrorView};
use crate::session::is_connected;

verus! {

/// How far a queue command has been carried out.
#[derive(Clone, Copy, Debug, PartialEq, Eq)]
pub enum Stage {
    /// Nothing has been asked yet.
    Start,
    /// The session has been asked for.
    Inspecting { guild: u64 },
    /// The queue has been asked to do what the command is for.
    Commanding { guild: u64 },
    /// The queue had no next track and has been asked to stop.
    Halting,
    /// The reply has been handed to the transport.
    Replying,
    /// The invocation has ended.
    Finished,
}

/// The reply where the guild has no session.
pub open spec fn not_playing_text() -> Seq<char> {
    "Not currently playing, nothing to adjust."@
}

/// The reply after the queue has done what `command` asked.
pub open spec fn done_text(command: QueueCommand) -> Seq<char> {
    match command {
        QueueCommand::Pause => "Playback paused."@,
        QueueCommand::Resume => "Playback resumed."@,
        QueueCommand::Stop => "Playback stopped."@,
        QueueCommand::Skip => "Skipped to next track."@,
        QueueCommand::Back => "Went back to the previous track."@,
    }
}

/// The reply after a skip found no next track and playback was stopped.
pub open spec fn no_next_text() -> Seq<char> {
    "No next track. Playback stopped."@
}

/// The reply after the queue had no track to go back to.
pub open spec fn no_previous_text() -> Seq<char> {
    "No previous track."@
}

/// The failure of a command that the queue refused.
pub open spec fn control_failure() -> RequestErrorView {
    RequestErrorView::Internal("Playback control failed."@)
}

/// One step of a queue command: the stage and the reply channel after
/// `event`, and the action to perform next.
///
/// - The invocation must come from a guild.
/// - Where the guild has no session, the user is told that nothing is
///   playing; this is no failure, and the driver is left alone.
/// - Otherwise the queue is asked to do what the command is for. A skip
///   that finds no next track stops playback and says so; a step back that
///   finds no previous track says so; any other refusal is an internal
///   failure.
/// - Every reply is for the invoking user alone.
pub open spec fn step(command: QueueCommand, stage: Stage, ctx: ContextView, event: EventView) -> (Stage, ContextView, ActionView) {
    match (stage, event) {
        (Stage::Start, EventView::Begin) => match ctx.guild_id {
            None => (Stage::Finished, ctx, ActionView::Finish(Err(outside_guild()))),
            Some(guild) => (Stage::Inspecting { guild }, ctx, ActionView::InspectSession { guild }),
        },
        (Stage::Inspecting { guild }, EventView::Session(session)) => match session {
            None => (
                Stage::Replying,
                say_restricted(ctx, not_playing_text()).0,
                say_restricted(ctx, not_playing_text()).1,
            ),
            Some(_) => (Stage::Commanding { guild }, ctx, ActionView::Queue { guild, command }),
        },
        (Stage::Commanding { guild }, EventView::QueueChanged(changed)) => if changed {
            (Stage::Replying, say_restricted(ctx, done_text(command)).0, say_restricted(ctx, done_text(command)).1)
        } else {
            match command {
                QueueCommand::Skip => (
                    Stage::Halting,
                    ctx,
                    ActionView::Queue { guild, command: QueueCommand::Stop },
                ),
                QueueCommand::Back => (
                    Stage::Replying,
                    say_restricted(ctx, no_previous_text()).0,
                    say_restricted(ctx, no_previous_text()).1,
                ),
                _ => (Stage::Finished, ctx, ActionView::Finish(Err(control_failure()))),
            }
        },
        (Stage::Halting, EventView::QueueChanged(_)) => (
            Stage::Replying,
            say_restricted(ctx, no_next_text()).0,
            say_restricted(ctx, no_next_text()).1,
        ),
        (Stage::Replying, _) => (Stage::Finished, ctx, ActionView::Finish(conclusion(event))),
        _ => (Stage::Finished, ctx, ActionView::Finish(Err(out_of_turn()))),
    }
}

/// The most actions that a queue command at this stage still asks for.
pub open spec fn steps_left(stage: Stage) -> nat {
    match stage {
        Stage::Start => 5,
        Stage::Inspecting { .. } => 4,
        Stage::Commanding { .. } => 3,
        Stage::Halting => 2,
        Stage::Replying => 1,
        Stage::Finished => 1,
    }
}

/// The reply after the queue has done what `command` asked.
pub fn done_reply(command: QueueCommand) -> (text: String)
    ensures
        text@ == done_text(command),
{
    match command {
        QueueCommand::Pause => "Playback paused.".to_owned(),
        QueueCommand::Resume => "Playback resumed.".to_owned(),
        QueueCommand::Stop => "Playback stopped.".to_owned(),
        QueueCommand::Skip => "Skipped to next track.".to_owned(),
        QueueCommand::Back => "Went back to the previous track.".to_owned(),
    }
}

/// Carries a queue command one step further.
pub fn advance(command: QueueCommand, stage: Stage, ctx: &mut ExecutionContext, event: Event) -> (next: (Stage, Action))
    ensures
        (next.0, final(ctx)@, next.1@) == step(command, stage, old(ctx)@, event@),
{
    match (stage, event) {
        (Stage::Start, Event::Begin) => match ctx.guild_id() {
            None => (Stage::Finished, Action::Finish(Err(outside_guild_error()))),
            Some(guild) => (Stage::Inspecting { guild }, Action::InspectSession { guild }),
        },
        (Stage::Inspecting { guild }, Event::Session(session)) => if is_connected(&session) {
            (Stage::Commanding { guild }, Action::Queue { guild, command })
        } else {
            let action = say_text_restricted(ctx, "Not currently playing, nothing to adjust.".to_owned());
            (Stage::Replying, action)
        },
        (Stage::Commanding { guild }, Event::QueueChanged(changed)) => if changed {
            let action = say_text_restricted(ctx, done_reply(command));
            (Stage::Replying, action)
        } else {
            match command {
                QueueCommand::Skip => (Stage::Halting, Action::Queue { guild, command: QueueCommand::Stop }),
                QueueCommand::Back => {
                    let action = say_text_restricted(ctx, "No previous track.".to_owned());
                    (Stage::Replying, action)
                },
                _ => (Stage::Finished, Action::Finish(Err(RequestError::internal("Playback control failed.")))),
            }
        },
        (Stage::Halting, Event::QueueChanged(_)) => {
            let action = say_text_restricted(ctx, "No next track. Playback stopped.".to_owned());
            (Stage::Replying, action)
        },
        (Stage::Replying, event) => (Stage::Finished, Action::Finish(conclude(&event))),
        _ => (Stage::Finished, Action::Finish(Err(out_of_turn_error()))),
    }
}

/// Every step of a queue command finishes it or leaves less to do than
/// there was.
pub proof fn lemma_step_makes_progress(command: QueueCommand, stage: Stage, ctx: ContextView, event: EventView)
    ensures
        1 <= steps_left(stage) <= 5,
        step(command, stage, ctx, event).2 is Finish || steps_left(step(command, stage, ctx, event).0)
            < steps_left(stage),
{
}

/// Every step keeps to the order of replies.
pub proof fn lemma_step_sends_in_order(command: QueueCommand, stage: Stage, ctx: ContextView, event: EventView)
    ensures
        sends_in_order(ctx, step(command, stage, ctx, event).1, step(command, stage, ctx, event).2),
{
}

} // verus!
