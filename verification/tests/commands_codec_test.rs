use bytes::{BufMut, BytesMut};
use image_resize_rust::{CodecError, Command, CommandsCodec, Event, ImageTarget};

#[test]
fn codec_decodes_none_commands_when_buffer_is_empty() {
    let mut codec = CommandsCodec::new();
    let bytes = &mut BytesMut::new();
    bytes.reserve(1);
    assert_eq!(None, codec.decode(bytes).unwrap());
}

#[test]
fn codec_decodes_invalid_command_line_as_wrong_command() {
    let mut codec = CommandsCodec::new();
    let bytes = &mut BytesMut::new();
    bytes.reserve(1000);
    bytes.put("{}\n");
    assert_eq!(
        Command::Invalid { reason: String::from("unknown command") },
        codec.decode(bytes).unwrap().unwrap()
    );
}

#[test]
fn codec_decodes_simple_find_command() {
    let mut codec = CommandsCodec::new();
    let bytes = &mut BytesMut::new();
    bytes.reserve(1000);
    bytes.put("{\"command\": \"find\", \"path\": \"file.txt\"}\n");
    assert_eq!(
        Command::FindImage { path: String::from("file.txt") },
        codec.decode(bytes).unwrap().unwrap()
    );
}

#[test]
fn codec_decodes_multiple_commands() {
    let mut codec = CommandsCodec::new();
    let bytes = &mut BytesMut::new();
    bytes.reserve(1000);
    bytes.put("{\"command\": \"find\", \"path\": \"file1.txt\"}\n");
    bytes.put("{\"command\": \"find\", \"path\": \"file2.txt\"}\n");

    let mut commands: Vec<Command> = vec![];
    commands.push(codec.decode(bytes).unwrap().unwrap());
    commands.push(codec.decode(bytes).unwrap().unwrap());

    assert_eq!(
        vec![
            Command::FindImage { path: String::from("file1.txt") },
            Command::FindImage { path: String::from("file2.txt") }
        ],
        commands
    );
}

#[test]
fn codec_propagates_decode_eof_into_line_codec() {
    let mut codec = CommandsCodec::new();
    let bytes = &mut BytesMut::new();
    bytes.reserve(1000);
    bytes.put("{\"command\": \"find\", \"path\": \"file1.txt\"}\n");
    bytes.put("{\"command\": \"find\", \"path\": \"file2.txt\"}");

    let mut commands: Vec<Command> = vec![];
    commands.push(codec.decode(bytes).unwrap().unwrap());
    commands.push(codec.decode_eof(bytes).unwrap().unwrap());

    assert_eq!(
        vec![
            Command::FindImage { path: String::from("file1.txt") },
            Command::FindImage { path: String::from("file2.txt") }
        ],
        commands
    );
}

#[test]
fn encodes_event_as_json_line() {
    let mut codec = CommandsCodec::new();
    let mut buf = BytesMut::new();

    codec.encode(Event::found("file.jpg"), &mut buf).unwrap();
    assert_eq!("{\"event\":\"found\",\"path\":\"file.jpg\"}\n".as_bytes(), &buf[..]);
}

#[test]
fn encodes_events_one_line_each_behind_what_is_held() {
    let mut codec = CommandsCodec::new();
    let mut buf = BytesMut::new();
    buf.extend_from_slice(b"held\n");

    assert_eq!(Ok(()), codec.encode(Event::not_found("a.jpg"), &mut buf));
    assert_eq!(
        Ok(()),
        codec.encode(Event::resize_failed("b \u{e9}.jpg", "too\nlarge"), &mut buf)
    );
    assert_eq!(
        "held\n{\"event\":\"not_found\",\"path\":\"a.jpg\"}\n\
         {\"event\":\"resize_failed\",\"target\":\"b \u{e9}.jpg\",\"reason\":\"too\\nlarge\"}\n"
            .as_bytes(),
        &buf[..]
    );
}

#[test]
fn malformed_frame_then_find_command() {
    let mut codec = CommandsCodec::new();
    let mut buf = BytesMut::new();
    buf.extend_from_slice(b"{invalid}\n{\"command\":\"find\",\"path\":\"x\"}\n");

    assert_eq!(Err(CodecError::Malformed), codec.decode(&mut buf));
    assert_eq!("{\"command\":\"find\",\"path\":\"x\"}\n".as_bytes(), &buf[..]);
    assert_eq!(
        Ok(Some(Command::FindImage { path: String::from("x") })),
        codec.decode(&mut buf)
    );
}

#[test]
fn decodes_resize_command_and_drops_malformed_size() {
    let mut codec = CommandsCodec::new();
    let mut buf = BytesMut::new();
    buf.extend_from_slice(
        b"{\"command\":\"resize\",\"source\":\"a.jpg\",\"sizes\":[[\"a-100x200.jpg\",100,200],[\"bad\",50]]}\n",
    );

    assert_eq!(
        Ok(Some(Command::ResizeImage {
            source: String::from("a.jpg"),
            targets: vec![ImageTarget {
                label: String::from("a-100x200.jpg"),
                width: 100,
                height: 200
            }],
        })),
        codec.decode(&mut buf)
    );
}

#[test]
fn command_from_passes_on_what_is_no_value() {
    assert_eq!(Ok(None), CommandsCodec::command_from(Ok(None)));
    assert_eq!(
        Err(CodecError::Malformed),
        CommandsCodec::command_from(Err(CodecError::Malformed))
    );
}
