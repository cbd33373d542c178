//! The rules by which a guild's voice session is entered, switched and left,
//! and by which the channel that a request is about is found.
//!
//! A handler reads the session, decides and acts inside one turn of the
//! session's lock, which whoever drives the handler holds from the
//! `InspectSession` action until the driver call that follows it is done.

use vstd::prelude::*;
use crate::discord::{ExecutionContext, GuildChannel, GuildChannelView, interactor_channel};
use crate::effect::SessionHandle;
use crate::error::{RequestError, RequestErrorView};

verus! {

/// Whether the guild has a voice session.
pub fn is_connected(session: &Option<SessionHandle>) -> (connected: bool)
    ensures
        connected == (session is Some),
{
    session.is_some()
}

/// The channel that the guild's session is in, if the guild has a session
/// and the session is in a channel.
pub open spec fn channel_of(session: Option<SessionHandle>) -> Option<u64> {
    match session {
        Some(handle) => handle.channel,
        None => None,
    }
}

/// The channel that the guild's session is in, if the guild has a session
/// and the session is in a channel.
pub fn current_channel(session: &Option<SessionHandle>) -> (channel: Option<u64>)
    ensures
        channel == channel_of(*session),
{
    match session {
        Some(handle) => handle.channel,
        None => None,
    }
}

/// What a request for a channel means for the session.
#[derive(Clone, Copy, Debug, PartialEq, Eq)]
pub enum Transition {
    /// The session is in the channel already: the driver is left alone.
    Stay,
    /// The driver is to join the channel, which takes the session out of
    /// `from` where it was in another one.
    Enter { from: Option<u64> },
}

/// What a request for `target` means for a session that is found as
/// `session`.
pub open spec fn transition(session: Option<SessionHandle>, target: u64) -> Transition {
    if channel_of(session) == Some(target) {
        Transition::Stay
    } else {
        Transition::Enter { from: channel_of(session) }
    }
}

/// What a request for `target` means for a session that is found as
/// `session`.
pub fn decide(session: Option<SessionHandle>, target: u64) -> (decision: Transition)
    ensures
        decision == transition(session, target),
{
    match current_channel(&session) {
        Some(current) => if current == target {
            Transition::Stay
        } else {
            Transition::Enter { from: Some(current) }
        },
        None => Transition::Enter { from: None },
    }
}

/// Whether a channel with this id is among `channels`.
pub open spec fn is_listed(channels: Seq<GuildChannelView>, id: u64) -> bool {
    exists|i: int| 0 <= i < channels.len() && (#[trigger] channels[i]).id == id
}

/// The channel that a request is about: the one it names, which must be a
/// channel of the guild, or else the voice channel that the invoking user is
/// in.
pub open spec fn target_channel(
    requested: Option<u64>,
    channels: Option<Seq<GuildChannelView>>,
    user: u64,
) -> Result<u64, RequestErrorView> {
    match requested {
        Some(id) => match channels {
            None => Err(RequestErrorView::Internal("channel failed to load"@)),
            Some(listed) => if is_listed(listed, id) {
                Ok(id)
            } else {
                Err(RequestErrorView::User("channel not in guild"@))
            },
        },
        None => match channels {
            None => Err(RequestErrorView::Internal("channels failed to load"@)),
            Some(listed) => interactor_channel(listed, user),
        },
    }
}

/// Whether a channel with this id is among `channels`.
pub fn has_channel(channels: &Vec<GuildChannel>, id: u64) -> (found: bool)
    ensures
        found == is_listed(channels.deep_view(), id),
{
    let mut i: usize = 0;
    while i < channels.len()
        invariant
            i <= channels.len(),
            forall|j: int| 0 <= j < i ==> (#[trigger] channels.deep_view()[j]).id != id,
        decreases channels.len() - i,
    {
        if channels[i].id == id {
            assert(channels.deep_view()[i as int].id == id);
            return true;
        }
        i = i + 1;
    }
    false
}

/// The channel that a request is about: the one it names, which must be a
/// channel of the guild, or else the voice channel that the invoking user is
/// in.
pub fn resolve_target(
    requested: Option<u64>,
    channels: &Option<Vec<GuildChannel>>,
    ctx: &ExecutionContext,
) -> (found: Result<u64, RequestError>)
    ensures
        match found {
            Ok(id) => target_channel(requested, channels.deep_view(), ctx@.user_id) == Ok::<u64, RequestErrorView>(id),
            Err(error) => target_channel(requested, channels.deep_view(), ctx@.user_id) == Err::<u64, RequestErrorView>(error@),
        },
{
    match requested {
        Some(id) => match channels {
            None => Err(RequestError::internal("channel failed to load")),
            Some(listed) => if has_channel(listed, id) {
                Ok(id)
            } else {
                Err(RequestError::user("channel not in guild"))
            },
        },
        None => match channels {
            None => Err(RequestError::internal("channels failed to load")),
            Some(listed) => ctx.find_interactor_voice_channel(listed),
        },
    }
}

} // verus!
