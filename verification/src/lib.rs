//! Framing and typed messages for a line-oriented JSON protocol.

pub mod buffer;
pub mod codec;
pub mod command_parser;
pub mod connection;
pub mod events;
pub mod json;
pub mod json_codec;
pub mod json_stream;

pub use codec::CommandsCodec;
pub use command_parser::{parse_json_string, Command, ImageTarget};
pub use connection::{combine_stream, DuplexMerger, Message, RoutedSink, SinkError};
pub use events::Event;
pub use json::{Json, JsonNumber};
pub use json_codec::{CodecError, JsonCodec};
pub use json_stream::{create_merged_input_stream, Connection, ConnectionError};
