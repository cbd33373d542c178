//! Whole runs of a command, from its first step to its last, and what holds
//! of every one of them.
//!
//! A run is told by its `trace`: the actions that the command asks for when
//! it is handed a sequence of events. The laws below speak of traces;
//! `replay` produces them, for trying a command against a script.

use vstd::prelude::*;
use crate::cmd::{RequestArgs, RequestArgsView, join, leave, ping, play, step, upload};
use crate::discord::{ContextView, ExecutionContext, GuildChannelView};
use crate::effect::{
    Action, ActionView, Event, EventView, PayloadView, QueueCommand, SessionHandle, is_driver_call,
    say, say_restricted, sends_in_order,
};
use crate::error::RequestErrorView;
use crate::resolve::{is_remote, stored_sound_path};
use crate::session::target_channel;

verus! {

/// One turn of whoever drives a command: the event that is handed in, and
/// the storage id that the step draws if it draws one.
pub struct Turn {
    pub event: EventView,
    pub fresh: Seq<char>,
}

/// The actions that a command asks for, in order, when it is driven through
/// `turns`. The run ends with the first `Finish`.
pub open spec fn trace(args: RequestArgsView, ctx: ContextView, turns: Seq<Turn>) -> Seq<ActionView>
    decreases turns.len(),
{
    if turns.len() == 0 {
        Seq::empty()
    } else {
        let next = step(args, ctx, turns[0].event, turns[0].fresh);
        if next.2 is Finish {
            seq![next.2]
        } else {
            seq![next.2] + trace(next.0, next.1, turns.drop_first())
        }
    }
}

/// The command and the reply channel as the run through `turns` leaves
/// them.
pub open spec fn after(args: RequestArgsView, ctx: ContextView, turns: Seq<Turn>) -> (RequestArgsView, ContextView)
    decreases turns.len(),
{
    if turns.len() == 0 {
        (args, ctx)
    } else {
        let next = step(args, ctx, turns[0].event, turns[0].fresh);
        if next.2 is Finish {
            (next.0, next.1)
        } else {
            after(next.0, next.1, turns.drop_first())
        }
    }
}

/// Whether a run has ended.
pub open spec fn ended(actions: Seq<ActionView>) -> bool {
    actions.len() > 0 && actions.last() is Finish
}

/// Whether `turns` hand in `events`, one by one, each with a storage id to
/// draw.
pub open spec fn scripted(events: Seq<EventView>, turns: Seq<Turn>) -> bool {
    &&& turns.len() == events.len()
    &&& forall|i: int|
        0 <= i < turns.len() ==> (#[trigger] turns[i]).event == events[i] && upload::is_storage_id(turns[i].fresh)
}

/// Whether the action hands the transport an initial response: a first
/// reply, or the acknowledgment that stands for it.
pub open spec fn is_initial_response(action: ActionView) -> bool {
    action matches ActionView::Send(outbound) && !(outbound is Followup)
}

/// Every step of every command keeps to the order of replies.
pub proof fn lemma_step_sends_in_order(args: RequestArgsView, ctx: ContextView, event: EventView, fresh: Seq<char>)
    ensures
        sends_in_order(ctx, step(args, ctx, event, fresh).1, step(args, ctx, event, fresh).2),
{
    match args {
        RequestArgsView::Ping(stage) => ping::lemma_step_sends_in_order(stage, ctx, event),
        RequestArgsView::Join(req) => join::lemma_step_sends_in_order(req, ctx, event),
        RequestArgsView::Leave(req) => leave::lemma_step_sends_in_order(req, ctx, event),
        RequestArgsView::Play(req) => play::lemma_step_sends_in_order(req, ctx, event),
        RequestArgsView::Pause(stage) => crate::queue::lemma_step_sends_in_order(
            QueueCommand::Pause,
            stage,
            ctx,
            event,
        ),
        RequestArgsView::Resume(stage) => crate::queue::lemma_step_sends_in_order(
            QueueCommand::Resume,
            stage,
            ctx,
            event,
        ),
        RequestArgsView::Stop(stage) => crate::queue::lemma_step_sends_in_order(
            QueueCommand::Stop,
            stage,
            ctx,
            event,
        ),
        RequestArgsView::Next(stage) => crate::queue::lemma_step_sends_in_order(
            QueueCommand::Skip,
            stage,
            ctx,
            event,
        ),
        RequestArgsView::Prev(stage) => crate::queue::lemma_step_sends_in_order(
            QueueCommand::Back,
            stage,
            ctx,
            event,
        ),
        RequestArgsView::Upload(req) => upload::lemma_step_sends_in_order(req, ctx, event, fresh),
    }
}

/// Once the initial response has gone out, a run sends nothing but
/// followups.
pub proof fn lemma_run_follows_up(args: RequestArgsView, ctx: ContextView, turns: Seq<Turn>)
    requires
        ctx.state is Sent,
    ensures
        forall|i: int| 0 <= i < trace(args, ctx, turns).len() ==> !is_initial_response(#[trigger] trace(args, ctx, turns)[i]),
    decreases turns.len(),
{
    if turns.len() > 0 {
        let next = step(args, ctx, turns[0].event, turns[0].fresh);
        lemma_step_sends_in_order(args, ctx, turns[0].event, turns[0].fresh);
        if !(next.2 is Finish) {
            let rest = trace(next.0, next.1, turns.drop_first());
            lemma_run_follows_up(next.0, next.1, turns.drop_first());
            let whole = trace(args, ctx, turns);
            assert(whole == seq![next.2] + rest);
            assert forall|i: int| 0 <= i < whole.len() implies !is_initial_response(#[trigger] whole[i]) by {
                if i > 0 {
                    assert(whole[i] == rest[i - 1]);
                }
            }
        }
    }
}

/// Whatever command is run, on whatever invocation and through whatever
/// events, the transport is handed at most one initial response: of any two
/// things sent, the later is a followup.
pub proof fn lemma_one_initial_response_per_run(args: RequestArgsView, ctx: ContextView, turns: Seq<Turn>)
    ensures
        forall|i: int, j: int|
            0 <= i < j < trace(args, ctx, turns).len() && (#[trigger] trace(args, ctx, turns)[i] is Send)
                ==> !is_initial_response(#[trigger] trace(args, ctx, turns)[j]),
    decreases turns.len(),
{
    if turns.len() > 0 {
        let next = step(args, ctx, turns[0].event, turns[0].fresh);
        lemma_step_sends_in_order(args, ctx, turns[0].event, turns[0].fresh);
        if !(next.2 is Finish) {
            let rest = trace(next.0, next.1, turns.drop_first());
            lemma_one_initial_response_per_run(next.0, next.1, turns.drop_first());
            if next.2 is Send {
                lemma_run_follows_up(next.0, next.1, turns.drop_first());
            }
            let whole = trace(args, ctx, turns);
            assert(whole == seq![next.2] + rest);
            assert forall|i: int, j: int|
                0 <= i < j < whole.len() && (#[trigger] whole[i] is Send) implies !is_initial_response(
                #[trigger] whole[j],
            ) by {
                assert(whole[j] == rest[j - 1]);
                if i > 0 {
                    assert(whole[i] == rest[i - 1]);
                }
            }
        }
    }
}

/// A run starts with the action of its first step, and goes on with the run
/// of what the step leaves, unless the step finishes.
pub proof fn lemma_trace_unfolds(args: RequestArgsView, ctx: ContextView, turns: Seq<Turn>)
    requires
        turns.len() > 0,
    ensures
        ({
            let next = step(args, ctx, turns[0].event, turns[0].fresh);
            let rest = trace(next.0, next.1, turns.drop_first());
            let actions = trace(args, ctx, turns);
            &&& actions.len() >= 1
            &&& actions[0] == next.2
            &&& next.2 is Finish ==> actions.len() == 1
            &&& !(next.2 is Finish) ==> actions.len() == 1 + rest.len()
            &&& !(next.2 is Finish) ==> forall|i: int| 1 <= i < actions.len() ==> #[trigger] actions[i] == rest[i - 1]
        }),
{
}

/// A run of a `join` that has said its last ends with the next turn.
pub proof fn lemma_join_reply_ends_run(req: join::RequestView, ctx: ContextView, turns: Seq<Turn>)
    requires
        req.stage is Replying,
    ensures
        ({
            let actions = trace(RequestArgsView::Join(req), ctx, turns);
            &&& actions.len() <= 1
            &&& forall|i: int| 0 <= i < actions.len() ==> (#[trigger] actions[i]) is Finish
        }),
{
    if turns.len() > 0 {
        lemma_trace_unfolds(RequestArgsView::Join(req), ctx, turns);
    }
}

/// Where a `join` is for the channel that the session is in already, the
/// driver is not called at all and the user gets one reply, that the bot is
/// in the channel already.
pub proof fn lemma_join_stays_where_it_is(
    req: join::RequestView,
    ctx: ContextView,
    channels: Option<Seq<GuildChannelView>>,
    session: SessionHandle,
    target: u64,
    turns: Seq<Turn>,
)
    requires
        req.stage is Start,
        ctx.guild_id is Some,
        turns.len() >= 3,
        turns[0].event is Begin,
        turns[1].event == EventView::Channels(channels),
        turns[2].event == EventView::Session(Some(session)),
        target_channel(req.channel, channels, ctx.user_id) == Ok::<u64, RequestErrorView>(target),
        session.channel == Some(target),
    ensures
        ({
            let actions = trace(RequestArgsView::Join(req), ctx, turns);
            &&& 3 <= actions.len() <= 4
            &&& actions[2] == say(ctx, join::already_in_text(target)).1
            &&& forall|i: int| 0 <= i < actions.len() ==> !is_driver_call(#[trigger] actions[i])
            &&& forall|i: int| 0 <= i < actions.len() && i != 2 ==> !((#[trigger] actions[i]) is Send)
        }),
{
    let args0 = RequestArgsView::Join(req);
    let s0 = step(args0, ctx, turns[0].event, turns[0].fresh);
    let t1 = turns.drop_first();
    let s1 = step(s0.0, s0.1, t1[0].event, t1[0].fresh);
    let t2 = t1.drop_first();
    let s2 = step(s1.0, s1.1, t2[0].event, t2[0].fresh);
    let t3 = t2.drop_first();
    lemma_trace_unfolds(args0, ctx, turns);
    lemma_trace_unfolds(s0.0, s0.1, t1);
    lemma_trace_unfolds(s1.0, s1.1, t2);
    lemma_join_reply_ends_run(s2.0->Join_0, s2.1, t3);
    let actions = trace(args0, ctx, turns);
    let r1 = trace(s0.0, s0.1, t1);
    let r2 = trace(s1.0, s1.1, t2);
    let r3 = trace(s2.0, s2.1, t3);
    assert(actions[1] == r1[0]);
    assert(actions[2] == r1[1] && r1[1] == r2[0]);
    assert forall|i: int| 0 <= i < actions.len() implies !is_driver_call(#[trigger] actions[i]) && (i != 2
        ==> !(actions[i] is Send)) by {
        if i == 3 {
            assert(actions[3] == r1[2] && r1[2] == r2[1] && r2[1] == r3[0]);
        }
    }
}

/// Where a `join` is for another channel than the session is in, or the
/// guild has no session or the session is in no channel, the driver is
/// called exactly once, to join the target, whatever comes of it. Where the
/// driver joins, the user gets one reply: that the bot switched, naming the
/// target and the channel it left, or that it joined, naming the target.
pub proof fn lemma_join_enters_once(
    req: join::RequestView,
    ctx: ContextView,
    channels: Option<Seq<GuildChannelView>>,
    session: Option<SessionHandle>,
    target: u64,
    turns: Seq<Turn>,
)
    requires
        req.stage is Start,
        ctx.guild_id is Some,
        turns.len() >= 3,
        turns[0].event is Begin,
        turns[1].event == EventView::Channels(channels),
        turns[2].event == EventView::Session(session),
        target_channel(req.channel, channels, ctx.user_id) == Ok::<u64, RequestErrorView>(target),
        !(session matches Some(handle) && handle.channel == Some(target)),
    ensures
        ({
            let actions = trace(RequestArgsView::Join(req), ctx, turns);
            let from = match session {
                Some(handle) => handle.channel,
                None => None,
            };
            &&& 3 <= actions.len() <= 5
            &&& actions[2] == (ActionView::Join { guild: ctx.guild_id->0, channel: target })
            &&& forall|i: int| 0 <= i < actions.len() && i != 2 ==> !is_driver_call(#[trigger] actions[i])
            &&& forall|i: int| 0 <= i < actions.len() && i != 3 ==> !((#[trigger] actions[i]) is Send)
            &&& turns.len() >= 4 && turns[3].event == EventView::Joined(true) ==> actions.len() >= 4 && actions[3]
                == say(ctx, join::arrival_text(target, from)).1
            &&& from matches Some(left) ==> join::arrival_text(target, from) == join::switched_text(target, left)
            &&& from is None ==> join::arrival_text(target, from) == join::joined_text(target)
        }),
{
    let args0 = RequestArgsView::Join(req);
    let s0 = step(args0, ctx, turns[0].event, turns[0].fresh);
    let t1 = turns.drop_first();
    let s1 = step(s0.0, s0.1, t1[0].event, t1[0].fresh);
    let t2 = t1.drop_first();
    let s2 = step(s1.0, s1.1, t2[0].event, t2[0].fresh);
    let t3 = t2.drop_first();
    lemma_trace_unfolds(args0, ctx, turns);
    lemma_trace_unfolds(s0.0, s0.1, t1);
    lemma_trace_unfolds(s1.0, s1.1, t2);
    let actions = trace(args0, ctx, turns);
    let r1 = trace(s0.0, s0.1, t1);
    let r2 = trace(s1.0, s1.1, t2);
    let r3 = trace(s2.0, s2.1, t3);
    assert(actions[1] == r1[0]);
    assert(actions[2] == r1[1] && r1[1] == r2[0]);
    if t3.len() > 0 {
        lemma_trace_unfolds(s2.0, s2.1, t3);
        let s3 = step(s2.0, s2.1, t3[0].event, t3[0].fresh);
        let t4 = t3.drop_first();
        let r4 = trace(s3.0, s3.1, t4);
        assert(t3[0] == turns[3]);
        assert(actions[3] == r1[2] && r1[2] == r2[1] && r2[1] == r3[0]);
        if !(s3.2 is Finish) {
            lemma_join_reply_ends_run(s3.0->Join_0, s3.1, t4);
            assert forall|i: int| 4 <= i < actions.len() implies (#[trigger] actions[i]) is Finish by {
                assert(actions[i] == r1[i - 1] && r1[i - 1] == r2[i - 2] && r2[i - 2] == r3[i - 3] && r3[i - 3]
                    == r4[i - 4]);
            }
        }
    }
}

/// A run of a `leave` that has said its last ends with the next turn.
pub proof fn lemma_leave_reply_ends_run(req: leave::RequestView, ctx: ContextView, turns: Seq<Turn>)
    requires
        req.stage is Replying,
    ensures
        ({
            let actions = trace(RequestArgsView::Leave(req), ctx, turns);
            &&& actions.len() <= 1
            &&& forall|i: int| 0 <= i < actions.len() ==> (#[trigger] actions[i]) is Finish
        }),
{
    if turns.len() > 0 {
        lemma_trace_unfolds(RequestArgsView::Leave(req), ctx, turns);
    }
}

/// Where the guild has no session, a `leave` does not call the driver at
/// all, and the user gets one reply, that there is nothing to leave. The
/// invocation does not fail for it.
pub proof fn lemma_leave_without_session(req: leave::RequestView, ctx: ContextView, turns: Seq<Turn>)
    requires
        req.stage is Start,
        ctx.guild_id is Some,
        turns.len() >= 2,
        turns[0].event is Begin,
        turns[1].event == EventView::Session(None),
    ensures
        ({
            let actions = trace(RequestArgsView::Leave(req), ctx, turns);
            &&& 2 <= actions.len() <= 3
            &&& actions[1] == say(ctx, leave::nothing_to_leave_text()).1
            &&& forall|i: int| 0 <= i < actions.len() ==> !is_driver_call(#[trigger] actions[i])
            &&& forall|i: int| 0 <= i < actions.len() && i != 1 ==> !((#[trigger] actions[i]) is Send)
            &&& turns.len() >= 3 && turns[2].event == EventView::Sent(true) ==> actions.len() == 3 && actions[2]
                == ActionView::Finish(Ok(()))
        }),
{
    let args0 = RequestArgsView::Leave(req);
    let s0 = step(args0, ctx, turns[0].event, turns[0].fresh);
    let t1 = turns.drop_first();
    let s1 = step(s0.0, s0.1, t1[0].event, t1[0].fresh);
    let t2 = t1.drop_first();
    lemma_trace_unfolds(args0, ctx, turns);
    lemma_trace_unfolds(s0.0, s0.1, t1);
    lemma_leave_reply_ends_run(s1.0->Leave_0, s1.1, t2);
    let actions = trace(args0, ctx, turns);
    let r1 = trace(s0.0, s0.1, t1);
    let r2 = trace(s1.0, s1.1, t2);
    assert(actions[1] == r1[0]);
    if t2.len() > 0 {
        lemma_trace_unfolds(s1.0, s1.1, t2);
        assert(t2[0] == turns[2]);
        assert(actions[2] == r1[1] && r1[1] == r2[0]);
    }
}

/// Where the guild has a session, a `leave` calls the driver exactly once,
/// to leave, whatever comes of it.
pub proof fn lemma_leave_with_session(
    req: leave::RequestView,
    ctx: ContextView,
    session: SessionHandle,
    turns: Seq<Turn>,
)
    requires
        req.stage is Start,
        ctx.guild_id is Some,
        turns.len() >= 2,
        turns[0].event is Begin,
        turns[1].event == EventView::Session(Some(session)),
    ensures
        ({
            let actions = trace(RequestArgsView::Leave(req), ctx, turns);
            &&& 2 <= actions.len() <= 4
            &&& actions[1] == (ActionView::Leave { guild: ctx.guild_id->0 })
            &&& forall|i: int| 0 <= i < actions.len() && i != 1 ==> !is_driver_call(#[trigger] actions[i])
            &&& turns.len() >= 3 && turns[2].event == EventView::Left(true) ==> actions.len() >= 3 && actions[2]
                == say(ctx, leave::left_text()).1
        }),
{
    let args0 = RequestArgsView::Leave(req);
    let s0 = step(args0, ctx, turns[0].event, turns[0].fresh);
    let t1 = turns.drop_first();
    let s1 = step(s0.0, s0.1, t1[0].event, t1[0].fresh);
    let t2 = t1.drop_first();
    lemma_trace_unfolds(args0, ctx, turns);
    lemma_trace_unfolds(s0.0, s0.1, t1);
    let actions = trace(args0, ctx, turns);
    let r1 = trace(s0.0, s0.1, t1);
    let r2 = trace(s1.0, s1.1, t2);
    assert(actions[1] == r1[0]);
    if t2.len() > 0 {
        lemma_trace_unfolds(s1.0, s1.1, t2);
        let s2 = step(s1.0, s1.1, t2[0].event, t2[0].fresh);
        let t3 = t2.drop_first();
        let r3 = trace(s2.0, s2.1, t3);
        assert(t2[0] == turns[2]);
        assert(actions[2] == r1[1] && r1[1] == r2[0]);
        if !(s2.2 is Finish) {
            lemma_leave_reply_ends_run(s2.0->Leave_0, s2.1, t3);
            assert forall|i: int| 3 <= i < actions.len() implies (#[trigger] actions[i]) is Finish by {
                assert(actions[i] == r1[i - 1] && r1[i - 1] == r2[i - 2] && r2[i - 2] == r3[i - 3]);
            }
        }
    }
}

/// Whether the arguments are those of a command that acts on the queue.
pub open spec fn acts_on_queue(args: RequestArgsView) -> bool {
    args is Pause || args is Resume || args is Stop || args is Next || args is Prev
}

/// The stage of a command that acts on the queue.
pub open spec fn queue_stage(args: RequestArgsView) -> crate::queue::Stage {
    match args {
        RequestArgsView::Pause(stage) => stage,
        RequestArgsView::Resume(stage) => stage,
        RequestArgsView::Stop(stage) => stage,
        RequestArgsView::Next(stage) => stage,
        RequestArgsView::Prev(stage) => stage,
        _ => crate::queue::Stage::Finished,
    }
}

/// Where the guild has no session, a command that acts on the queue does
/// not call the driver at all, and the invoking user alone is told that
/// nothing is playing. The invocation does not fail for it.
pub proof fn lemma_queue_command_without_session(args: RequestArgsView, ctx: ContextView, turns: Seq<Turn>)
    requires
        acts_on_queue(args),
        queue_stage(args) is Start,
        ctx.guild_id is Some,
        turns.len() >= 2,
        turns[0].event is Begin,
        turns[1].event == EventView::Session(None),
    ensures
        ({
            let actions = trace(args, ctx, turns);
            &&& 2 <= actions.len() <= 3
            &&& actions[1] == say_restricted(ctx, crate::queue::not_playing_text()).1
            &&& forall|i: int| 0 <= i < actions.len() ==> !is_driver_call(#[trigger] actions[i])
            &&& forall|i: int| 0 <= i < actions.len() && i != 1 ==> !((#[trigger] actions[i]) is Send)
            &&& turns.len() >= 3 && turns[2].event == EventView::Sent(true) ==> actions.len() == 3 && actions[2]
                == ActionView::Finish(Ok(()))
        }),
{
    let s0 = step(args, ctx, turns[0].event, turns[0].fresh);
    let t1 = turns.drop_first();
    let s1 = step(s0.0, s0.1, t1[0].event, t1[0].fresh);
    let t2 = t1.drop_first();
    lemma_trace_unfolds(args, ctx, turns);
    lemma_trace_unfolds(s0.0, s0.1, t1);
    let actions = trace(args, ctx, turns);
    let r1 = trace(s0.0, s0.1, t1);
    let r2 = trace(s1.0, s1.1, t2);
    assert(actions[1] == r1[0]);
    if t2.len() > 0 {
        lemma_trace_unfolds(s1.0, s1.1, t2);
        assert(t2[0] == turns[2]);
        assert(actions[2] == r1[1] && r1[1] == r2[0]);
    }
}

/// Until its reference is resolved, a `play` asks nothing of the driver:
/// a step from before the resolution's end calls the driver only to ask for
/// the session, and that only once the bytes are there.
pub proof fn lemma_play_resolves_first(req: play::RequestView, ctx: ContextView, event: EventView)
    requires
        req.stage is Start || req.stage is Locating || req.stage is Resolving,
    ensures
        ({
            let next = play::step(req, ctx, event);
            &&& !is_driver_call(next.2)
            &&& next.0.stage is Start || next.0.stage is Locating || next.0.stage is Resolving
                || next.0.stage is Inspecting || next.0.stage is Finished
            &&& next.0.stage is Finished ==> next.2 is Finish
            &&& next.0.stage is Inspecting ==> next.2 is InspectSession
        }),
{
}

/// A `play` of a stored sound whose payload is not there ends as the user's
/// failure, that the sound could not be found, without a call to the driver
/// and without a reply.
pub proof fn lemma_play_of_missing_sound(
    req: play::RequestView,
    ctx: ContextView,
    channels: Option<Seq<GuildChannelView>>,
    target: u64,
    turns: Seq<Turn>,
)
    requires
        req.stage is Start,
        ctx.guild_id is Some,
        !is_remote(req.music),
        turns.len() >= 3,
        turns[0].event is Begin,
        turns[1].event == EventView::Channels(channels),
        turns[2].event == EventView::Read(PayloadView::Missing),
        target_channel(req.target, channels, ctx.user_id) == Ok::<u64, RequestErrorView>(target),
    ensures
        trace(RequestArgsView::Play(req), ctx, turns) == seq![
            ActionView::LoadChannels { guild: ctx.guild_id->0 },
            ActionView::ReadPayload { path: stored_sound_path(req.music) },
            ActionView::Finish(Err(RequestErrorView::User("bad input -- could not find sound"@))),
        ],
{
    let args0 = RequestArgsView::Play(req);
    let s0 = step(args0, ctx, turns[0].event, turns[0].fresh);
    let t1 = turns.drop_first();
    let s1 = step(s0.0, s0.1, t1[0].event, t1[0].fresh);
    let t2 = t1.drop_first();
    lemma_trace_unfolds(args0, ctx, turns);
    lemma_trace_unfolds(s0.0, s0.1, t1);
    lemma_trace_unfolds(s1.0, s1.1, t2);
    let actions = trace(args0, ctx, turns);
    let r1 = trace(s0.0, s0.1, t1);
    let r2 = trace(s1.0, s1.1, t2);
    assert(actions[1] == r1[0]);
    assert(actions[2] == r1[1] && r1[1] == r2[0]);
    assert(actions =~= seq![
        ActionView::LoadChannels { guild: ctx.guild_id->0 },
        ActionView::ReadPayload { path: stored_sound_path(req.music) },
        ActionView::Finish(Err(RequestErrorView::User("bad input -- could not find sound"@))),
    ]);
}

/// The most actions that a command still asks for, the last one counted.
pub open spec fn steps_left(args: RequestArgsView) -> nat {
    match args {
        RequestArgsView::Ping(stage) => ping::steps_left(stage),
        RequestArgsView::Join(req) => join::steps_left(req.stage),
        RequestArgsView::Leave(req) => leave::steps_left(req.stage),
        RequestArgsView::Play(req) => play::steps_left(req.stage),
        RequestArgsView::Pause(stage) => crate::queue::steps_left(stage),
        RequestArgsView::Resume(stage) => crate::queue::steps_left(stage),
        RequestArgsView::Stop(stage) => crate::queue::steps_left(stage),
        RequestArgsView::Next(stage) => crate::queue::steps_left(stage),
        RequestArgsView::Prev(stage) => crate::queue::steps_left(stage),
        RequestArgsView::Upload(req) => upload::steps_left(req.stage),
    }
}

/// The most actions that any command asks for from start to finish.
pub open spec fn longest_run() -> nat {
    14
}

/// Every step finishes the run or leaves less to do than there was.
pub proof fn lemma_step_makes_progress(args: RequestArgsView, ctx: ContextView, event: EventView, fresh: Seq<char>)
    ensures
        1 <= steps_left(args) <= longest_run(),
        step(args, ctx, event, fresh).2 is Finish || steps_left(step(args, ctx, event, fresh).0) < steps_left(args),
{
    match args {
        RequestArgsView::Ping(stage) => ping::lemma_step_makes_progress(stage, ctx, event),
        RequestArgsView::Join(req) => join::lemma_step_makes_progress(req, ctx, event),
        RequestArgsView::Leave(req) => leave::lemma_step_makes_progress(req, ctx, event),
        RequestArgsView::Play(req) => play::lemma_step_makes_progress(req, ctx, event),
        RequestArgsView::Pause(stage) => crate::queue::lemma_step_makes_progress(
            QueueCommand::Pause,
            stage,
            ctx,
            event,
        ),
        RequestArgsView::Resume(stage) => crate::queue::lemma_step_makes_progress(
            QueueCommand::Resume,
            stage,
            ctx,
            event,
        ),
        RequestArgsView::Stop(stage) => crate::queue::lemma_step_makes_progress(
            QueueCommand::Stop,
            stage,
            ctx,
            event,
        ),
        RequestArgsView::Next(stage) => crate::queue::lemma_step_makes_progress(
            QueueCommand::Skip,
            stage,
            ctx,
            event,
        ),
        RequestArgsView::Prev(stage) => crate::queue::lemma_step_makes_progress(
            QueueCommand::Back,
            stage,
            ctx,
            event,
        ),
        RequestArgsView::Upload(req) => upload::lemma_step_makes_progress(req, ctx, event, fresh),
    }
}

/// Every run ends, whatever the events are: no command asks for more than
/// fourteen actions, and one that is given as many turns as it may take
/// ends with `Finish`.
pub proof fn lemma_runs_end(args: RequestArgsView, ctx: ContextView, turns: Seq<Turn>)
    ensures
        trace(args, ctx, turns).len() <= steps_left(args) <= longest_run(),
        turns.len() >= steps_left(args) ==> trace(args, ctx, turns).len() >= 1 && trace(args, ctx, turns).last()
            is Finish,
        forall|i: int|
            0 <= i < trace(args, ctx, turns).len() - 1 ==> !((#[trigger] trace(args, ctx, turns)[i]) is Finish),
    decreases turns.len(),
{
    if turns.len() > 0 {
        let next = step(args, ctx, turns[0].event, turns[0].fresh);
        lemma_step_makes_progress(args, ctx, turns[0].event, turns[0].fresh);
        lemma_trace_unfolds(args, ctx, turns);
        if !(next.2 is Finish) {
            lemma_runs_end(next.0, next.1, turns.drop_first());
            lemma_step_makes_progress(next.0, next.1, turns[0].event, turns[0].fresh);
            let whole = trace(args, ctx, turns);
            let rest = trace(next.0, next.1, turns.drop_first());
            if turns.len() >= steps_left(args) {
                assert(whole.last() == rest.last());
            }
            assert forall|i: int| 0 <= i < whole.len() - 1 implies !((#[trigger] whole[i]) is Finish) by {
                if i > 0 {
                    assert(whole[i] == rest[i - 1]);
                }
            }
        }
    } else {
        lemma_step_makes_progress(args, ctx, EventView::Begin, Seq::empty());
    }
}

/// One more turn adds nothing to a run that has ended and leaves the
/// command and the reply channel as they are, and adds the next step's
/// action to one that has not.
pub proof fn lemma_trace_extends(args: RequestArgsView, ctx: ContextView, turns: Seq<Turn>, turn: Turn)
    ensures
        ended(trace(args, ctx, turns)) ==> trace(args, ctx, turns.push(turn)) == trace(args, ctx, turns),
        ended(trace(args, ctx, turns)) ==> after(args, ctx, turns.push(turn)) == after(args, ctx, turns),
        !ended(trace(args, ctx, turns)) ==> ({
            let here = after(args, ctx, turns);
            let next = step(here.0, here.1, turn.event, turn.fresh);
            &&& trace(args, ctx, turns.push(turn)) == trace(args, ctx, turns).push(next.2)
            &&& after(args, ctx, turns.push(turn)) == (next.0, next.1)
        }),
    decreases turns.len(),
{
    let longer = turns.push(turn);
    if turns.len() == 0 {
        let next = step(args, ctx, turn.event, turn.fresh);
        assert(longer[0] == turn);
        assert(longer.drop_first().len() == 0);
        assert(trace(next.0, next.1, longer.drop_first()) =~= Seq::<ActionView>::empty());
        assert(after(next.0, next.1, longer.drop_first()) == (next.0, next.1));
        assert(trace(args, ctx, longer) =~= seq![next.2]);
        assert(trace(args, ctx, turns).push(next.2) =~= seq![next.2]);
    } else {
        assert(longer[0] == turns[0]);
        assert(longer.drop_first() =~= turns.drop_first().push(turn));
        let first = step(args, ctx, turns[0].event, turns[0].fresh);
        if !(first.2 is Finish) {
            lemma_trace_extends(first.0, first.1, turns.drop_first(), turn);
            let rest = trace(first.0, first.1, turns.drop_first());
            let here = after(args, ctx, turns);
            let next = step(here.0, here.1, turn.event, turn.fresh);
            if ended(rest) {
                assert((seq![first.2] + rest).last() == rest.last());
            } else {
                if rest.len() > 0 {
                    assert((seq![first.2] + rest).last() == rest.last());
                }
                assert(seq![first.2] + rest.push(next.2) =~= (seq![first.2] + rest).push(next.2));
            }
        }
    }
}

/// Turns that come after a run's end add nothing to it, and leave the
/// command and the reply channel as the run left them.
pub proof fn lemma_trace_ignores_rest(args: RequestArgsView, ctx: ContextView, turns: Seq<Turn>, more: Seq<Turn>)
    requires
        ended(trace(args, ctx, turns)),
    ensures
        trace(args, ctx, turns + more) == trace(args, ctx, turns),
        after(args, ctx, turns + more) == after(args, ctx, turns),
    decreases more.len(),
{
    if more.len() == 0 {
        assert(turns + more =~= turns);
    } else {
        lemma_trace_ignores_rest(args, ctx, turns, more.drop_last());
        lemma_trace_extends(args, ctx, turns + more.drop_last(), more.last());
        assert((turns + more.drop_last()).push(more.last()) =~= turns + more);
    }
}

/// Runs a command against a script: hands it `events` one by one, as the
/// answers to what it asks, and gives back what it asked for, up to and with
/// the `Finish` that ends the run. Events that are left when the run ends
/// are not looked at. The reply channel is left as the run leaves it.
pub fn replay(args: RequestArgs, ctx: &mut ExecutionContext, events: Vec<Event>) -> (actions: Vec<Action>)
    ensures
        exists|turns: Seq<Turn>|
            scripted(events.deep_view(), turns) && actions.deep_view() == #[trigger] trace(
                args@,
                old(ctx)@,
                turns,
            ) && final(ctx)@ == after(args@, old(ctx)@, turns).1,
{
    let ghost script = events.deep_view();
    let ghost first = (args@, ctx@);
    let ghost mut turns: Seq<Turn> = Seq::empty();
    let mut args = args;
    let mut rest = events;
    let mut actions: Vec<Action> = Vec::new();
    let mut finished = false;
    assert(script.skip(0) =~= script);
    while rest.len() > 0 && !finished
        invariant
            turns.len() + rest.len() == script.len(),
            scripted(script.take(turns.len() as int), turns),
            rest.deep_view() == script.skip(turns.len() as int),
            actions.deep_view() == trace(first.0, first.1, turns),
            finished == ended(trace(first.0, first.1, turns)),
            after(first.0, first.1, turns) == (args@, ctx@),
        decreases rest.len(),
    {
        let ghost waiting = rest.deep_view();
        let event = rest.remove(0);
        let ghost handed = event@;
        let ghost before = (args@, ctx@);
        let ghost so_far = actions.deep_view();
        let (next, action) = args.execute(ctx, event);
        proof {
            assert(handed == waiting[0]);
            assert(rest.deep_view() =~= waiting.drop_first());
            let fresh = choose|fresh: Seq<char>|
                upload::is_storage_id(fresh) && (next@, ctx@, action@) == #[trigger] step(
                    before.0,
                    before.1,
                    handed,
                    fresh,
                );
            let turn = Turn { event: handed, fresh };
            lemma_trace_extends(first.0, first.1, turns, turn);
            assert(script.take(turns.len() as int + 1) =~= script.take(turns.len() as int).push(handed));
            assert(script.skip(turns.len() as int + 1) =~= waiting.drop_first());
            turns = turns.push(turn);
        }
        finished = match &action {
            Action::Finish(_) => true,
            _ => false,
        };
        args = next;
        actions.push(action);
        assert(actions.deep_view() =~= so_far.push(action@));
    }
    proof {
        crate::cmd::upload::lemma_storage_ids_exist();
        let id = choose|id: Seq<char>| upload::is_storage_id(id);
        let shown = turns.len() as int;
        let more = Seq::new(rest.len() as nat, |i: int| Turn { event: script[shown + i], fresh: id });
        if rest.len() > 0 {
            lemma_trace_ignores_rest(first.0, first.1, turns, more);
        } else {
            assert(turns + more =~= turns);
        }
        assert(script.take(shown) =~= script.subrange(0, shown));
        assert(scripted(script, turns + more));
    }
    actions
}

} // verus!
