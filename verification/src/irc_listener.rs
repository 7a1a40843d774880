//! The decisions of the listener's tasks: which incoming messages are kept,
//! how the forwarder cuts the queue into chunks, and what the join/part
//! loop does with the answer of the store.

use vstd::prelude::*;
use vstd::string::*;
use crate::db::ReceivedMessage;
use crate::irc::MessageKind;
use crate::time::now_millis;

verus! {

/// The channel that a message was sent to, for the kinds of message that
/// have one: `CLEARCHAT`, `CLEARMSG`, `JOIN`, `NOTICE` where it names a
/// channel, `PART`, `PRIVMSG`, `ROOMSTATE`, `USERNOTICE` and `USERSTATE`.
pub open spec fn channel_context(kind: MessageKind) -> Option<Seq<char>> {
    match kind {
        MessageKind::ClearChat { channel_login, .. } => Some(channel_login@),
        MessageKind::ClearMsg { channel_login, .. } => Some(channel_login@),
        MessageKind::Join { channel_login } => Some(channel_login@),
        MessageKind::Notice { channel_login, .. } => channel_login.deep_view(),
        MessageKind::Part { channel_login } => Some(channel_login@),
        MessageKind::Privmsg { channel_login, .. } => Some(channel_login@),
        MessageKind::RoomState { channel_login } => Some(channel_login@),
        MessageKind::UserNotice { channel_login, .. } => Some(channel_login@),
        MessageKind::UserState { channel_login } => Some(channel_login@),
        MessageKind::Other => None,
    }
}

/// The channel login if the message was sent to a channel.
pub fn channel_login(kind: &MessageKind) -> (login: Option<&String>)
    ensures
        login.deep_view() == channel_context(*kind),
{
    match kind {
        MessageKind::ClearChat { channel_login, action } => Some(channel_login),
        MessageKind::ClearMsg { channel_login, message_id } => Some(channel_login),
        MessageKind::Join { channel_login } => Some(channel_login),
        MessageKind::Notice { channel_login, message_id } => match channel_login {
            Some(login) => Some(login),
            None => None,
        },
        MessageKind::Part { channel_login } => Some(channel_login),
        MessageKind::Privmsg { channel_login, sender_id, message_id } => Some(channel_login),
        MessageKind::RoomState { channel_login } => Some(channel_login),
        MessageKind::UserNotice { channel_login, sender_id, message_id } => Some(channel_login),
        MessageKind::UserState { channel_login } => Some(channel_login),
        MessageKind::Other => None,
    }
}

/// What the forwarder makes of an incoming message of kind `kind` with the
/// wire line `source`, received at `now`: a message for the store where the
/// message was sent to a channel, nothing otherwise. The time of receipt is
/// a whole number of milliseconds, the same that is later written as
/// `rm-received-ts` and compared with `before` and `after`.
pub open spec fn forwarded(kind: MessageKind, source: Seq<char>, now: i64) -> Option<
    (Seq<char>, i64, Seq<char>),
> {
    match channel_context(kind) {
        Some(login) => Some((login, now, source)),
        None => None,
    }
}

/// Turns an incoming message, received at `now`, into a message for the
/// store, see [`forwarded`].
pub fn forward_message(kind: &MessageKind, source: String, now: i64) -> (message: Option<
    ReceivedMessage,
>)
    ensures
        match message {
            Some(m) => forwarded(*kind, source@, now) == Some(
                (m.channel_login@, m.time_received, m.message_source@),
            ),
            None => forwarded(*kind, source@, now) is None,
        },
{
    match channel_login(kind) {
        Some(login) => Some(
            ReceivedMessage {
                channel_login: login.clone(),
                time_received: now,
                message_source: source,
            },
        ),
        None => None,
    }
}

/// Turns an incoming message into a message for the store, received at the
/// instant that the clock shows. Whatever the clock shows, a message
/// without a channel is forwarded at no instant, and a forwarded message
/// holds the channel and the line unchanged.
pub fn forward_message_now(kind: &MessageKind, source: String) -> (message: Option<
    ReceivedMessage,
>)
    ensures
        match message {
            Some(m) => forwarded(*kind, source@, m.time_received) == Some(
                (m.channel_login@, m.time_received, m.message_source@),
            ),
            None => channel_context(*kind) is None,
        },
{
    forward_message(kind, source, now_millis())
}

/// What the chunk worker does with the messages that it drained from the
/// queue.
#[derive(Debug, Clone, Copy, PartialEq, Eq, Structural)]
pub struct ChunkPlan {
    /// Wait for the next tick before going on: the queue ran empty.
    pub sleep: bool,
    /// Hand the chunk to the store: it holds a message.
    pub store: bool,
}

/// Whether the chunk worker goes on draining the queue: it stops at
/// `max_chunk_size` messages.
pub fn chunk_has_room(chunk_len: usize, max_chunk_size: usize) -> (room: bool)
    ensures
        room == (chunk_len < max_chunk_size),
{
    chunk_len < max_chunk_size
}

/// What the chunk worker does after it drained `chunk_len` messages: with
/// a chunk that is not full it sleeps until the next tick, with a full one
/// it goes on at once to catch up; a chunk that is not empty is stored. An
/// empty chunk always waits for the next tick, also where chunks have no
/// room at all.
pub fn plan_chunk(chunk_len: usize, max_chunk_size: usize) -> (plan: ChunkPlan)
    ensures
        plan.sleep == (chunk_len < max_chunk_size || chunk_len == 0),
        plan.store == (chunk_len > 0),
{
    ChunkPlan { sleep: chunk_len < max_chunk_size || chunk_len == 0, store: chunk_len > 0 }
}

/// What the join/part loop does in one round.
#[derive(Debug, Clone)]
pub enum JoinPartStep {
    /// Make these channels the listener's wanted channels; the listener
    /// joins and parts as needed.
    SetWantedChannels(Vec<String>),
    /// Leave the subscriptions as they are: the store could not be asked.
    Skip,
}

/// The round of the join/part loop for the answer of the store.
pub fn join_part_step<E>(channels: Result<Vec<String>, E>) -> (step: JoinPartStep)
    ensures
        match channels {
            Ok(logins) => step == JoinPartStep::SetWantedChannels(logins),
            Err(_) => step is Skip,
        },
{
    match channels {
        Ok(logins) => JoinPartStep::SetWantedChannels(logins),
        Err(_) => JoinPartStep::Skip,
    }
}

/// Whether the listener is joined to a channel for certain: it wants the
/// channel and the server has confirmed the join.
pub fn is_join_confirmed(wanted: bool, joined: bool) -> (confirmed: bool)
    ensures
        confirmed == (wanted && joined),
{
    wanted && joined
}

} // verus!
