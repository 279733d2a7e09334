//! The boundary with the wire protocol: request frames become commands,
//! replies become frames.

use crate::command::{Command, CommandView, Reply, ReplyView};
use crate::connection::Event;
use crate::value::bytes_contents;
use bytes::Bytes;
use mini_redis::Frame;
use vstd::prelude::*;
use vstd::string::StringExecFns;

verus! {

/// `mini_redis::Frame`, one self-delimited unit of the wire protocol. Nothing
/// of its representation is visible to the verifier.
#[verifier::external_type_specification]
#[verifier::external_body]
pub struct ExFrame(Frame);

/// A frame as contracts see it: its variant and what the variant carries.
pub enum FrameView {
    Simple(Seq<char>),
    Error(Seq<char>),
    Integer(u64),
    Bulk(Seq<u8>),
    Null,
    Array(Seq<FrameView>),
}

/// The variant of a frame and what it carries.
pub uninterp spec fn frame_shape(frame: Frame) -> FrameView;

/// The command that `mini_redis::Command::from_frame` reads out of a frame of
/// the given shape, brought into this library's `Command`.
pub uninterp spec fn parsed_command(shape: FrameView) -> CommandView;

/// `Frame::Simple`: a simple-string frame that carries `text`.
#[verifier::external_body]
fn simple_frame(text: String) -> (frame: Frame)
    ensures
        frame_shape(frame) == FrameView::Simple(text@),
{
    Frame::Simple(text)
}

/// `Frame::Error`: an error frame that carries `message`.
#[verifier::external_body]
fn error_frame(message: String) -> (frame: Frame)
    ensures
        frame_shape(frame) == FrameView::Error(message@),
{
    Frame::Error(message)
}

/// `Frame::Bulk`: a bulk frame that carries the bytes of `value`.
#[verifier::external_body]
fn bulk_frame(value: Bytes) -> (frame: Frame)
    ensures
        frame_shape(frame) == FrameView::Bulk(bytes_contents(value)),
{
    Frame::Bulk(value)
}

/// `Frame::Null`: the frame that stands for no value.
#[verifier::external_body]
fn null_frame() -> (frame: Frame)
    ensures
        frame_shape(frame) == FrameView::Null,
{
    Frame::Null
}

/// `mini_redis::Command::from_frame`, with its result brought into this
/// library's `Command`. A `SET` keeps its key and value and drops its expiry,
/// a `GET` keeps its key. Every other command that the parser knows, and
/// every command name it does not know, becomes `Unsupported` with the
/// parser's own rendering of it as the name; a frame that the parser rejects
/// becomes `Unsupported` with the parser's error message as the name. The
/// parser reads nothing but the frame, so the result is a function of the
/// frame's shape; which function is not stated here.
#[verifier::external_body]
fn command_from_frame(frame: Frame) -> (cmd: Command)
    ensures
        cmd@ == parsed_command(frame_shape(frame)),
{
    match mini_redis::Command::from_frame(frame) {
        Ok(mini_redis::Command::Set(set)) => Command::SetValue {
            key: set.key().to_string(),
            value: set.value().clone(),
        },
        Ok(mini_redis::Command::Get(get)) => Command::Get { key: get.key().to_string() },
        Ok(other) => Command::Unsupported { name: format!("{:?}", other) },
        Err(error) => Command::Unsupported { name: error.to_string() },
    }
}

/// The shape of the frame that carries `reply`.
pub open spec fn reply_shape(reply: ReplyView) -> FrameView {
    match reply {
        ReplyView::Okay => FrameView::Simple("OK"@),
        ReplyView::BulkValue(value) => FrameView::Bulk(value),
        ReplyView::Nil => FrameView::Null,
        ReplyView::ProtocolError(message) => FrameView::Error(message),
    }
}

/// The event that the arrival of a decoded request frame is: a request for
/// the command that the frame holds.
pub fn decode_request(frame: Frame) -> (event: Event)
    ensures
        event matches Event::Request(cmd) && cmd@ == parsed_command(frame_shape(frame)),
{
    Event::Request(command_from_frame(frame))
}

/// The frame that carries `reply` to the client.
pub fn encode_reply(reply: Reply) -> (frame: Frame)
    ensures
        frame_shape(frame) == reply_shape(reply@),
{
    match reply {
        Reply::Okay => simple_frame(String::from_str("OK")),
        Reply::BulkValue(value) => bulk_frame(value),
        Reply::Nil => null_frame(),
        Reply::ProtocolError(message) => error_frame(message),
    }
}

} // verus!
