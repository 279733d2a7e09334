//! The dispatcher: carries a command out and produces its reply.

use crate::command::{
    contents_after, may_answer, reply_to, spec_unsupported_message, Command, Reply, ReplyView,
};
use crate::shard::Shard;
use crate::store::ShardedStore;
use crate::value::bytes_contents;
use bytes::Bytes;
use vstd::prelude::*;
use vstd::string::StringExecFns;

verus! {

/// Builds the message that tells a client that `name` is not supported.
pub fn unsupported_message(name: &str) -> (message: String)
    ensures
        message@ == spec_unsupported_message(name@),
{
    String::from_str("unimplemented: ").concat(name)
}

/// The reply to a lookup: the value where one was found, `Nil` where none was.
pub fn lookup_reply(found: Option<Bytes>) -> (reply: Reply)
    ensures
        reply@ == match found {
            Some(value) => ReplyView::BulkValue(bytes_contents(value)),
            None => ReplyView::Nil,
        },
{
    match found {
        Some(value) => Reply::BulkValue(value),
        None => Reply::Nil,
    }
}

/// Carries one command out on a shard that the caller holds exclusively.
/// The reply and the new contents are functions of the command and the old
/// contents alone.
pub fn apply(cmd: Command, shard: &mut Shard) -> (reply: Reply)
    ensures
        reply@ == reply_to(cmd@, old(shard)@),
        final(shard)@ == contents_after(cmd@, old(shard)@),
{
    match cmd {
        Command::SetValue { key, value } => {
            shard.set(key, value);
            Reply::Okay
        },
        Command::Get { key } => lookup_reply(shard.get(key.as_str())),
        Command::Unsupported { name } => Reply::ProtocolError(unsupported_message(name.as_str())),
    }
}

/// Carries one command out on the shared store. The store locks the shard
/// that owns the key for the time of the read or write, so the reply to a
/// lookup is the one that `reply_to` gives for whatever that shard held when
/// its lock was taken. A request that is not supported is answered with an
/// error and touches no shard.
pub fn dispatch(cmd: Command, store: &ShardedStore) -> (reply: Reply)
    ensures
        may_answer(cmd@, reply@),
{
    match cmd {
        Command::SetValue { key, value } => {
            store.set(key, value);
            Reply::Okay
        },
        Command::Get { key } => lookup_reply(store.get(key.as_str())),
        Command::Unsupported { name } => Reply::ProtocolError(unsupported_message(name.as_str())),
    }
}

} // verus!
