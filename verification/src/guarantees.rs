//! What holds of the store and of a connection, whatever the commands and
//! events: theorems over the meaning of commands and over the transitions.

use crate::command::{
    contents_after, may_answer, reply_to, spec_unsupported_message, Command, CommandView, Reply,
    ReplyView,
};
use crate::connection::{spec_step, Action, CloseReason, ConnState, Event};
use crate::hashing::shard_of;
use crate::shard::Shard;
use crate::store::Placement;
use vstd::prelude::*;
use vstd::rwlock::RwLockPredicate;

verus! {

/// What a shard holds after the commands `cmds` were carried out on `contents`,
/// first to last.
pub open spec fn run(cmds: Seq<CommandView>, contents: Map<Seq<char>, Seq<u8>>) -> Map<
    Seq<char>,
    Seq<u8>,
>
    decreases cmds.len(),
{
    if cmds.len() == 0 {
        contents
    } else {
        contents_after(cmds.last(), run(cmds.drop_last(), contents))
    }
}

/// Whether `cmd` stores a value under `key`.
pub open spec fn writes_key(cmd: CommandView, key: Seq<char>) -> bool {
    cmd matches CommandView::SetValue { key: written, .. } && written == key
}

/// Whether none of `cmds` stores a value under `key`.
pub open spec fn leaves_key_alone(cmds: Seq<CommandView>, key: Seq<char>) -> bool {
    forall|i: int| 0 <= i < cmds.len() ==> !writes_key(#[trigger] cmds[i], key)
}

/// Every key has exactly one shard, and that shard exists: in a store of at
/// least one shard the index that the hash gives lies within the row of shards.
pub proof fn placement_is_in_range(key: Seq<char>, shard_count: int)
    requires
        shard_count >= 1,
    ensures
        0 <= shard_of(key, shard_count) < shard_count,
{
}

/// Two shards of one store hold no key in common: what the locks of different
/// places admit has disjoint sets of keys, so a key is found in the shard
/// that owns it or nowhere.
pub proof fn shards_hold_disjoint_keys(
    here: Shard,
    there: Shard,
    here_index: int,
    there_index: int,
    shard_count: int,
    key: Seq<char>,
)
    requires
        here_index != there_index,
        (Placement { index: here_index, shard_count }).inv(here),
        (Placement { index: there_index, shard_count }).inv(there),
    ensures
        !(here@.contains_key(key) && there@.contains_key(key)),
        here@.contains_key(key) ==> shard_of(key, shard_count) == here_index,
{
}

/// Commands that do not write `key` leave alone what is stored under it, and
/// whether anything is.
pub proof fn unwritten_key_is_untouched(
    cmds: Seq<CommandView>,
    contents: Map<Seq<char>, Seq<u8>>,
    key: Seq<char>,
)
    requires
        leaves_key_alone(cmds, key),
    ensures
        run(cmds, contents).contains_key(key) == contents.contains_key(key),
        contents.contains_key(key) ==> run(cmds, contents)[key] == contents[key],
    decreases cmds.len(),
{
    if cmds.len() > 0 {
        let earlier = cmds.drop_last();
        assert forall|i: int| 0 <= i < earlier.len() implies !writes_key(
            #[trigger] earlier[i],
            key,
        ) by {
            assert(earlier[i] == cmds[i]);
        }
        unwritten_key_is_untouched(earlier, contents, key);
        assert(!writes_key(cmds[cmds.len() - 1], key));
    }
}

/// Round trip: storing `value` under `key` is answered with `Okay`, and a
/// lookup of `key` then finds `value`, at once and after any further commands
/// as long as none of them stores under `key` again. The reply to a command
/// depends on the command and on what the shard holds, not on the connection
/// that sent it, so this holds whichever connections the commands come from.
pub proof fn stored_value_is_read_back(
    contents: Map<Seq<char>, Seq<u8>>,
    key: Seq<char>,
    value: Seq<u8>,
    later: Seq<CommandView>,
)
    requires
        leaves_key_alone(later, key),
    ensures
        reply_to(CommandView::SetValue { key, value }, contents) == ReplyView::Okay,
        reply_to(
            CommandView::Get { key },
            run(later, contents_after(CommandView::SetValue { key, value }, contents)),
        ) == ReplyView::BulkValue(value),
{
    unwritten_key_is_untouched(
        later,
        contents_after(CommandView::SetValue { key, value }, contents),
        key,
    );
}

/// Absence: in a store that started empty, a lookup of a key that no command
/// has stored under is answered with `Nil`.
pub proof fn never_stored_key_reads_nil(cmds: Seq<CommandView>, key: Seq<char>)
    requires
        leaves_key_alone(cmds, key),
    ensures
        reply_to(CommandView::Get { key }, run(cmds, Map::empty())) == ReplyView::Nil,
{
    unwritten_key_is_untouched(cmds, Map::empty(), key);
}

/// Overwrite: of two values stored under one key, a lookup finds the second.
pub proof fn second_store_wins(
    contents: Map<Seq<char>, Seq<u8>>,
    key: Seq<char>,
    first: Seq<u8>,
    second: Seq<u8>,
)
    ensures
        reply_to(
            CommandView::Get { key },
            contents_after(
                CommandView::SetValue { key, value: second },
                contents_after(CommandView::SetValue { key, value: first }, contents),
            ),
        ) == ReplyView::BulkValue(second),
{
}

/// A command reads and writes no key but its own: what is stored under any
/// other key, in the same shard or in another, is as it was.
pub proof fn other_keys_are_untouched(
    cmd: CommandView,
    contents: Map<Seq<char>, Seq<u8>>,
    other: Seq<char>,
)
    requires
        !writes_key(cmd, other),
    ensures
        reply_to(CommandView::Get { key: other }, contents_after(cmd, contents)) == reply_to(
            CommandView::Get { key: other },
            contents,
        ),
{
}

/// A request that is not supported is answered with an error that names it,
/// and changes nothing in the store.
pub proof fn unsupported_request_is_refused(
    contents: Map<Seq<char>, Seq<u8>>,
    name: Seq<char>,
)
    ensures
        reply_to(CommandView::Unsupported { name }, contents) == ReplyView::ProtocolError(
            spec_unsupported_message(name),
        ),
        contents_after(CommandView::Unsupported { name }, contents) == contents,
{
}

/// The replies that the shared store may give to a command are those that the
/// command earns on some contents of the shard that owns its key.
pub proof fn shared_reply_is_some_exclusive_reply(cmd: CommandView, reply: ReplyView)
    ensures
        may_answer(cmd, reply) <==> exists|contents: Map<Seq<char>, Seq<u8>>|
            reply == #[trigger] reply_to(cmd, contents),
{
    if may_answer(cmd, reply) {
        match cmd {
            CommandView::Get { key } => {
                match reply {
                    ReplyView::BulkValue(value) => {
                        let held = Map::<Seq<char>, Seq<u8>>::empty().insert(key, value);
                        assert(reply == reply_to(cmd, held));
                    },
                    _ => {
                        assert(reply == reply_to(cmd, Map::<Seq<char>, Seq<u8>>::empty()));
                    },
                }
            },
            _ => {
                assert(reply == reply_to(cmd, Map::<Seq<char>, Seq<u8>>::empty()));
            },
        }
    }
}

/// Serving one request brings a connection back to where it awaits the next:
/// whatever the command, supported or not, and whatever the reply, the
/// request is handed to the dispatcher, the reply is written, and once it is
/// written the connection reads again.
pub proof fn served_request_returns_to_waiting(cmd: Command, reply: Reply)
    ensures
        spec_step(ConnState::AwaitingRequest, Event::Request(cmd)) == Some(
            (ConnState::Dispatching, Action::Dispatch(cmd)),
        ),
        spec_step(ConnState::Dispatching, Event::Dispatched(reply)) == Some(
            (ConnState::SendingReply, Action::WriteReply(reply)),
        ),
        spec_step(ConnState::SendingReply, Event::ReplySent) == Some(
            (ConnState::AwaitingRequest, Action::ReadRequest),
        ),
{
}

/// A malformed frame, the end of the stream and a failed write each close the
/// connection they occur on, and a closed connection takes no further
/// transition. A transition reads one connection's state and event and
/// nothing else, so no other connection and no shard is touched by it.
pub proof fn failure_closes_its_own_connection(reason: CloseReason, event: Event)
    ensures
        spec_step(ConnState::AwaitingRequest, Event::DecodeError) == Some(
            (ConnState::Closed(CloseReason::DecodeFailed), Action::Close),
        ),
        spec_step(ConnState::AwaitingRequest, Event::EndOfStream) == Some(
            (ConnState::Closed(CloseReason::PeerClosed), Action::Close),
        ),
        spec_step(ConnState::SendingReply, Event::WriteError) == Some(
            (ConnState::Closed(CloseReason::WriteFailed), Action::Close),
        ),
        spec_step(ConnState::Closed(reason), event) is None,
{
}

} // verus!
