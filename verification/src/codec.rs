//! The codec of a connection: commands out of the receive buffer, events
//! into the send buffer.

use crate::buffer::buffer_bytes;
use crate::command_parser::{
    command_of, create_command_from_parsed_json_value, Command, CommandView,
};
use crate::events::{wire_text, Event};
use crate::json::{Json, JsonView};
use crate::json_codec::{decode_view, decoded, CodecError, JsonCodec, NEWLINE};
use bytes::BytesMut;
use vstd::prelude::*;
use vstd::string::*;
use vstd::utf8::encode_utf8;

verus! {

/// Reads commands and writes events, one JSON value per frame.
#[derive(Debug, PartialEq)]
pub struct CommandsCodec {
    pub json_codec: JsonCodec,
}

/// The command result that stands for a frame result: a decoded value is
/// read as a command, anything else stays as it is.
pub open spec fn as_command(frame: Result<Option<JsonView>, CodecError>) -> Result<
    Option<CommandView>,
    CodecError,
> {
    match frame {
        Ok(Some(value)) => Ok(Some(command_of(value))),
        Ok(None) => Ok(None),
        Err(error) => Err(error),
    }
}

/// A command result as a mathematical value.
pub open spec fn result_view(r: Result<Option<Command>, CodecError>) -> Result<
    Option<CommandView>,
    CodecError,
> {
    match r {
        Ok(Some(command)) => Ok(Some(command@)),
        Ok(None) => Ok(None),
        Err(error) => Err(error),
    }
}

/// The line that carries an event: its text as UTF-8 and one line end.
pub open spec fn event_line(event: Event) -> Seq<u8> {
    encode_utf8(wire_text(event@)) + seq![NEWLINE]
}

impl CommandsCodec {
    pub fn new() -> (codec: Self)
        ensures
            codec == (CommandsCodec { json_codec: JsonCodec {  } }),
    {
        CommandsCodec { json_codec: JsonCodec::new() }
    }

    /// Reads a frame result as a command result.
    pub fn command_from(frame: Result<Option<Json>, CodecError>) -> (r: Result<
        Option<Command>,
        CodecError,
    >)
        ensures
            result_view(r) == as_command(decode_view(frame)),
    {
        match frame {
            Ok(Some(value)) => Ok(Some(create_command_from_parsed_json_value(value))),
            Ok(None) => Ok(None),
            Err(error) => Err(error),
        }
    }

    /// Takes the next command off the front of the buffer, if a whole frame
    /// is there. A frame that is JSON but no known command gives `Invalid`;
    /// one that is no JSON gives the error and costs its line.
    pub fn decode(&mut self, buf: &mut BytesMut) -> (r: Result<Option<Command>, CodecError>)
        ensures
            result_view(r) == as_command(decoded(buffer_bytes(*old(buf))).0),
            buffer_bytes(*final(buf)) == decoded(buffer_bytes(*old(buf))).1,
    {
        let frame = self.json_codec.decode(buf);
        Self::command_from(frame)
    }

    /// The decode call for the end of the stream: the last command needs no
    /// line end behind it.
    pub fn decode_eof(&mut self, buf: &mut BytesMut) -> (r: Result<Option<Command>, CodecError>)
        ensures
            result_view(r) == as_command(decoded(buffer_bytes(*old(buf))).0),
            buffer_bytes(*final(buf)) == decoded(buffer_bytes(*old(buf))).1,
    {
        let frame = self.json_codec.decode_eof(buf);
        Self::command_from(frame)
    }

    /// Appends the line of an event to the buffer. What the buffer held
    /// before stays in front, untouched.
    pub fn encode(&mut self, item: Event, dst: &mut BytesMut) -> (r: Result<(), CodecError>)
        ensures
            r == Ok::<(), CodecError>(()),
            buffer_bytes(*final(dst)) == buffer_bytes(*old(dst)) + event_line(item),
    {
        let text = item.to_string();
        dst.extend_from_slice(text.as_str().as_bytes());
        let end: [u8; 1] = [NEWLINE];
        dst.extend_from_slice(end.as_slice());
        assert(end@ =~= seq![NEWLINE]);
        assert(buffer_bytes(*dst) =~= buffer_bytes(*old(dst)) + event_line(item));
        Ok(())
    }
}

} // verus!
