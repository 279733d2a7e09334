//! Commands, replies, and what a command means on the shard that owns its key.

use crate::value::bytes_contents;
use bytes::Bytes;
use vstd::prelude::*;

verus! {

/// A decoded request.
#[derive(Debug, PartialEq, Eq)]
pub enum Command {
    /// Store `value` under `key`.
    SetValue { key: String, value: Bytes },
    /// Read the value under `key`.
    Get { key: String },
    /// Any request that is neither of the two; `name` says what it was.
    Unsupported { name: String },
}

/// The answer to one request.
#[derive(Debug, PartialEq, Eq)]
pub enum Reply {
    /// The value was stored.
    Okay,
    /// The value found under the key.
    BulkValue(Bytes),
    /// Nothing is stored under the key.
    Nil,
    /// The request could not be served; the message says why.
    ProtocolError(String),
}

/// A command as contracts see it: keys and names as characters, values as bytes.
pub enum CommandView {
    SetValue { key: Seq<char>, value: Seq<u8> },
    Get { key: Seq<char> },
    Unsupported { name: Seq<char> },
}

/// A reply as contracts see it.
pub enum ReplyView {
    Okay,
    BulkValue(Seq<u8>),
    Nil,
    ProtocolError(Seq<char>),
}

impl View for Command {
    type V = CommandView;

    open spec fn view(&self) -> CommandView {
        match *self {
            Command::SetValue { key, value } => CommandView::SetValue {
                key: key@,
                value: bytes_contents(value),
            },
            Command::Get { key } => CommandView::Get { key: key@ },
            Command::Unsupported { name } => CommandView::Unsupported { name: name@ },
        }
    }
}

impl View for Reply {
    type V = ReplyView;

    open spec fn view(&self) -> ReplyView {
        match *self {
            Reply::Okay => ReplyView::Okay,
            Reply::BulkValue(value) => ReplyView::BulkValue(bytes_contents(value)),
            Reply::Nil => ReplyView::Nil,
            Reply::ProtocolError(message) => ReplyView::ProtocolError(message@),
        }
    }
}

/// The message of the reply to a request named `name` that is not supported.
pub open spec fn spec_unsupported_message(name: Seq<char>) -> Seq<char> {
    "unimplemented: "@ + name
}

/// The reply that `cmd` earns when the shard that owns its key holds `contents`.
pub open spec fn reply_to(cmd: CommandView, contents: Map<Seq<char>, Seq<u8>>) -> ReplyView {
    match cmd {
        CommandView::SetValue { key, value } => ReplyView::Okay,
        CommandView::Get { key } => if contents.contains_key(key) {
            ReplyView::BulkValue(contents[key])
        } else {
            ReplyView::Nil
        },
        CommandView::Unsupported { name } => ReplyView::ProtocolError(
            spec_unsupported_message(name),
        ),
    }
}

/// What the shard that owns the key of `cmd` holds once `cmd` was carried out
/// on `contents`.
pub open spec fn contents_after(cmd: CommandView, contents: Map<Seq<char>, Seq<u8>>) -> Map<
    Seq<char>,
    Seq<u8>,
> {
    match cmd {
        CommandView::SetValue { key, value } => contents.insert(key, value),
        CommandView::Get { key } => contents,
        CommandView::Unsupported { name } => contents,
    }
}

/// Whether `reply` can be the answer to `cmd` from a store whose shards are
/// shared: the reply to a lookup depends on what the shard holds at the
/// moment its lock is taken, every other reply on the command alone.
pub open spec fn may_answer(cmd: CommandView, reply: ReplyView) -> bool {
    match cmd {
        CommandView::SetValue { key, value } => reply == ReplyView::Okay,
        CommandView::Get { key } => reply is Nil || reply is BulkValue,
        CommandView::Unsupported { name } => reply == ReplyView::ProtocolError(
            spec_unsupported_message(name),
        ),
    }
}

} // verus!
