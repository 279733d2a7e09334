//! The life of one connection: which event is awaited in which state, and
//! what is to be done next.

use crate::command::{may_answer, Command, Reply};
use crate::dispatch::dispatch;
use crate::store::ShardedStore;
use vstd::prelude::*;

verus! {

/// Why a connection was closed.
#[derive(Debug, Clone, Copy, PartialEq, Eq, Structural)]
pub enum CloseReason {
    /// The peer ended the stream between two requests.
    PeerClosed,
    /// The bytes received were no well-formed frame.
    DecodeFailed,
    /// The reply could not be written.
    WriteFailed,
}

/// Where a connection stands.
#[derive(Debug, Clone, Copy, PartialEq, Eq, Structural)]
pub enum ConnState {
    /// Waiting for the next request frame.
    AwaitingRequest,
    /// A request is with the dispatcher.
    Dispatching,
    /// A reply is being written.
    SendingReply,
    /// The connection is over; no event is awaited any more.
    Closed(CloseReason),
}

/// What happened on a connection.
#[derive(Debug, PartialEq, Eq)]
pub enum Event {
    /// A request frame arrived and was decoded.
    Request(Command),
    /// The stream ended with no frame begun.
    EndOfStream,
    /// The bytes received were no well-formed frame.
    DecodeError,
    /// The dispatcher produced the reply.
    Dispatched(Reply),
    /// The reply was written in full.
    ReplySent,
    /// Writing the reply failed.
    WriteError,
}

/// What is to be done next on a connection.
#[derive(Debug, PartialEq, Eq)]
pub enum Action {
    /// Read and decode the next request frame.
    ReadRequest,
    /// Hand the command to the dispatcher.
    Dispatch(Command),
    /// Encode the reply and write it.
    WriteReply(Reply),
    /// Release the connection.
    Close,
}

/// The transitions of a connection. An event that the state does not await
/// has no transition; a closed connection awaits none.
pub open spec fn spec_step(state: ConnState, event: Event) -> Option<(ConnState, Action)> {
    match (state, event) {
        (ConnState::AwaitingRequest, Event::Request(cmd)) => Some(
            (ConnState::Dispatching, Action::Dispatch(cmd)),
        ),
        (ConnState::AwaitingRequest, Event::EndOfStream) => Some(
            (ConnState::Closed(CloseReason::PeerClosed), Action::Close),
        ),
        (ConnState::AwaitingRequest, Event::DecodeError) => Some(
            (ConnState::Closed(CloseReason::DecodeFailed), Action::Close),
        ),
        (ConnState::Dispatching, Event::Dispatched(reply)) => Some(
            (ConnState::SendingReply, Action::WriteReply(reply)),
        ),
        (ConnState::SendingReply, Event::ReplySent) => Some(
            (ConnState::AwaitingRequest, Action::ReadRequest),
        ),
        (ConnState::SendingReply, Event::WriteError) => Some(
            (ConnState::Closed(CloseReason::WriteFailed), Action::Close),
        ),
        _ => None,
    }
}

/// Takes one transition: the next state and what to do in it, or `None`
/// where `state` does not await `event`.
pub fn step(state: ConnState, event: Event) -> (next: Option<(ConnState, Action)>)
    ensures
        next == spec_step(state, event),
{
    match state {
        ConnState::AwaitingRequest => match event {
            Event::Request(cmd) => Some((ConnState::Dispatching, Action::Dispatch(cmd))),
            Event::EndOfStream => Some((ConnState::Closed(CloseReason::PeerClosed), Action::Close)),
            Event::DecodeError => Some(
                (ConnState::Closed(CloseReason::DecodeFailed), Action::Close),
            ),
            _ => None,
        },
        ConnState::Dispatching => match event {
            Event::Dispatched(reply) => Some((ConnState::SendingReply, Action::WriteReply(reply))),
            _ => None,
        },
        ConnState::SendingReply => match event {
            Event::ReplySent => Some((ConnState::AwaitingRequest, Action::ReadRequest)),
            Event::WriteError => Some((ConnState::Closed(CloseReason::WriteFailed), Action::Close)),
            _ => None,
        },
        ConnState::Closed(_) => None,
    }
}

/// Takes one transition and, where it hands a command to the dispatcher,
/// carries the command out on `store` at once and takes the transition that
/// the reply brings. What comes back is never `Action::Dispatch`: only reading,
/// writing and closing are left to the caller.
pub fn serve(state: ConnState, event: Event, store: &ShardedStore) -> (next: Option<
    (ConnState, Action),
>)
    ensures
        match spec_step(state, event) {
            Some((_, Action::Dispatch(cmd))) => next matches Some(
                (ConnState::SendingReply, Action::WriteReply(reply)),
            ) && may_answer(cmd@, reply@),
            other => next == other,
        },
{
    match step(state, event) {
        Some((dispatching, Action::Dispatch(cmd))) => {
            let reply = dispatch(cmd, store);
            step(dispatching, Event::Dispatched(reply))
        },
        other => other,
    }
}

} // verus!
