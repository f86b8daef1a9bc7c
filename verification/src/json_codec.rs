//! The frame codec: JSON values out of a byte buffer that fills in chunks,
//! and JSON values into such a buffer, one line each.

use crate::buffer::{buffer_bytes, drop_front};
use crate::json::{frame_scan, json_text, render, scan_frame, Json, JsonView, Scan, ScanView};
use bytes::BytesMut;
use vstd::prelude::*;
use vstd::string::*;

verus! {

/// Why a codec call failed.
#[derive(Clone, Copy, Debug, PartialEq, Eq)]
pub enum CodecError {
    /// The front of the buffer was no JSON value.
    Malformed,
    /// The value to send could not be written as JSON text.
    Unwritable,
}

impl CodecError {
    /// The text of the error.
    pub open spec fn message(self) -> Seq<char> {
        match self {
            CodecError::Malformed => "Error while parsing JSON structure"@,
            CodecError::Unwritable => "Error while writing JSON structure"@,
        }
    }

    /// The text of the error, for a log or a reply.
    pub fn to_string(&self) -> (text: String)
        ensures
            text@ == self.message(),
    {
        match self {
            CodecError::Malformed => String::from_str("Error while parsing JSON structure"),
            CodecError::Unwritable => String::from_str("Error while writing JSON structure"),
        }
    }
}

/// The byte that ends a line.
pub const NEWLINE: u8 = 10;

/// `at` is the place of the first line end in `bytes`.
pub open spec fn first_newline(bytes: Seq<u8>, at: int) -> bool {
    &&& 0 <= at < bytes.len()
    &&& bytes[at] == NEWLINE
    &&& forall|j: int| 0 <= j < at ==> bytes[j] != NEWLINE
}

/// What is left of `bytes` after a malformed frame: the bytes behind the
/// first line end, or nothing where there is no line end.
pub open spec fn resync(bytes: Seq<u8>) -> Seq<u8> {
    if exists|at: int| first_newline(bytes, at) {
        bytes.skip((choose|at: int| first_newline(bytes, at)) + 1)
    } else {
        Seq::empty()
    }
}

/// The result of a decode call as a mathematical value.
pub open spec fn decode_view(r: Result<Option<Json>, CodecError>) -> Result<
    Option<JsonView>,
    CodecError,
> {
    match r {
        Ok(Some(value)) => Ok(Some(value@)),
        Ok(None) => Ok(None),
        Err(error) => Err(error),
    }
}

/// The result of a decode call and the bytes it leaves, for a buffer that
/// held `bytes` and whose front was found to be `scan`.
pub open spec fn settled(scan: ScanView, bytes: Seq<u8>) -> (
    Result<Option<JsonView>, CodecError>,
    Seq<u8>,
) {
    match scan {
        ScanView::Value { value, consumed } => (
            Ok(Some(value)),
            drop_front(bytes, consumed as nat),
        ),
        ScanView::Blank { consumed } => (Ok(None), drop_front(bytes, consumed as nat)),
        ScanView::Incomplete => (Ok(None), bytes),
        ScanView::Malformed => (Err(CodecError::Malformed), resync(bytes)),
    }
}

/// The result of a decode call and the bytes it leaves, for a buffer that
/// held `bytes`.
pub open spec fn decoded(bytes: Seq<u8>) -> (Result<Option<JsonView>, CodecError>, Seq<u8>) {
    if bytes.len() == 0 {
        (Ok(None), bytes)
    } else {
        settled(frame_scan(bytes), bytes)
    }
}

/// The result of an encode call and the bytes it leaves, for a buffer that
/// held `bytes` and a value whose text is `text`.
pub open spec fn framed(text: Option<Seq<u8>>, bytes: Seq<u8>) -> (
    Result<(), CodecError>,
    Seq<u8>,
) {
    match text {
        Some(line) => (Ok(()), bytes + line + seq![NEWLINE]),
        None => (Err(CodecError::Unwritable), bytes),
    }
}

/// Two places that are both the first line end are one place.
pub proof fn first_newline_is_unique(bytes: Seq<u8>, a: int, b: int)
    requires
        first_newline(bytes, a),
        first_newline(bytes, b),
    ensures
        a == b,
{
    if a < b {
        assert(bytes[a] != NEWLINE);
    }
    if b < a {
        assert(bytes[b] != NEWLINE);
    }
}

/// Drops what a malformed frame may have spoilt: everything up to and with
/// the first line end, or all of the buffer where no line has ended.
fn clear_until_new_line_or_eof(bytes: &mut BytesMut)
    ensures
        buffer_bytes(*final(bytes)) == resync(buffer_bytes(*old(bytes))),
{
    let ghost held = buffer_bytes(*bytes);
    let len = bytes.len();
    let mut at: usize = 0;
    let mut found = false;
    while at < len && !found
        invariant
            at <= len,
            len == held.len(),
            held == buffer_bytes(*bytes),
            forall|j: int| 0 <= j < at ==> held[j] != NEWLINE,
            found ==> at < len && held[at as int] == NEWLINE,
        decreases len - at + (if found { 0int } else { 1int }),
    {
        let data: &[u8] = &*bytes;
        if data[at] == NEWLINE {
            found = true;
        } else {
            at = at + 1;
        }
    }
    if found {
        proof {
            assert(first_newline(held, at as int));
            let chosen = choose|p: int| first_newline(held, p);
            first_newline_is_unique(held, at as int, chosen);
        }
        bytes.advance(at + 1);
    } else {
        proof {
            assert forall|p: int| !first_newline(held, p) by {}
        }
        bytes.clear();
    }
}

/// Drops the bytes that a scan counted as read, or all of them where the
/// buffer holds fewer.
fn advance_buffer(consumed: usize, bytes: &mut BytesMut)
    ensures
        buffer_bytes(*final(bytes)) == drop_front(buffer_bytes(*old(bytes)), consumed as nat),
{
    if consumed <= bytes.len() {
        bytes.advance(consumed);
    } else {
        bytes.clear();
    }
}

/// The codec of one connection. It keeps nothing between calls: the buffer
/// is the caller's.
#[derive(Debug, PartialEq)]
pub struct JsonCodec {}

impl JsonCodec {
    pub fn new() -> (codec: Self)
        ensures
            codec == (JsonCodec {}),
    {
        JsonCodec {}
    }

    /// Finishes a decode call once the front of the buffer has been scanned:
    /// hands out the value and drops its bytes, drops white space, leaves an
    /// incomplete value where it is, or reports a malformed frame and drops
    /// the rest of its line.
    pub fn settle(&mut self, scan: Scan, src: &mut BytesMut) -> (r: Result<
        Option<Json>,
        CodecError,
    >)
        ensures
            (decode_view(r), buffer_bytes(*final(src))) == settled(scan@, buffer_bytes(*old(src))),
    {
        match scan {
            Scan::Value { value, consumed } => {
                advance_buffer(consumed, src);
                Ok(Some(value))
            },
            Scan::Blank { consumed } => {
                advance_buffer(consumed, src);
                Ok(None)
            },
            Scan::Incomplete => Ok(None),
            Scan::Malformed => {
                clear_until_new_line_or_eof(src);
                Err(CodecError::Malformed)
            },
        }
    }

    /// Takes the next JSON value off the front of the buffer, if a whole one
    /// is there. An empty buffer gives no value and no error.
    pub fn decode(&mut self, src: &mut BytesMut) -> (r: Result<Option<Json>, CodecError>)
        ensures
            (decode_view(r), buffer_bytes(*final(src))) == decoded(buffer_bytes(*old(src))),
    {
        if src.len() == 0 {
            return Ok(None);
        }
        let scan = scan_frame(&*src);
        self.settle(scan, src)
    }

    /// The decode call for the end of the stream: a last value needs no line
    /// end behind it, and what is no whole value is treated as in `decode`.
    pub fn decode_eof(&mut self, src: &mut BytesMut) -> (r: Result<Option<Json>, CodecError>)
        ensures
            (decode_view(r), buffer_bytes(*final(src))) == decoded(buffer_bytes(*old(src))),
    {
        self.decode(src)
    }

    /// Finishes an encode call once the value's text is known: appends the
    /// text and one line end, or, without a text, reports the value as
    /// unwritable and leaves the buffer as it was.
    pub fn frame(&mut self, text: Option<Vec<u8>>, dst: &mut BytesMut) -> (r: Result<
        (),
        CodecError,
    >)
        ensures
            (r, buffer_bytes(*final(dst))) == framed(
                match text {
                    Some(line) => Some(line@),
                    None => None,
                },
                buffer_bytes(*old(dst)),
            ),
    {
        match text {
            Some(line) => {
                dst.extend_from_slice(line.as_slice());
                let end: [u8; 1] = [NEWLINE];
                dst.extend_from_slice(end.as_slice());
                assert(end@ =~= seq![NEWLINE]);
                Ok(())
            },
            None => Err(CodecError::Unwritable),
        }
    }

    /// Appends the compact text of `item` and one line end to the buffer.
    /// What the buffer held before stays in front, untouched.
    pub fn encode(&mut self, item: Json, dst: &mut BytesMut) -> (r: Result<(), CodecError>)
        ensures
            (r, buffer_bytes(*final(dst))) == framed(json_text(item@), buffer_bytes(*old(dst))),
    {
        let text = match render(&item) {
            Ok(line) => Some(line),
            Err(_) => None,
        };
        self.frame(text, dst)
    }
}

/// `bytes` holds no line end.
pub open spec fn no_newline(bytes: Seq<u8>) -> bool {
    forall|i: int| 0 <= i < bytes.len() ==> bytes[i] != NEWLINE
}

/// Resynchronising over bytes without a line end drops them all.
pub proof fn resync_without_newline(bytes: Seq<u8>)
    requires
        no_newline(bytes),
    ensures
        resync(bytes) == Seq::<u8>::empty(),
{
    assert forall|at: int| !first_newline(bytes, at) by {}
}

/// Resynchronising drops one line and no more: of a line without a line
/// end in it, its line end and what follows, exactly what follows is left.
pub proof fn resync_drops_one_line(line: Seq<u8>, rest: Seq<u8>)
    requires
        no_newline(line),
    ensures
        resync(line + seq![NEWLINE] + rest) == rest,
{
    let bytes = line + seq![NEWLINE] + rest;
    let at = line.len() as int;
    assert(bytes[at] == NEWLINE);
    assert forall|j: int| 0 <= j < at implies bytes[j] != NEWLINE by {
        assert(bytes[j] == line[j]);
    }
    assert(first_newline(bytes, at));
    let chosen = choose|p: int| first_newline(bytes, p);
    first_newline_is_unique(bytes, at, chosen);
    assert(bytes.skip(at + 1) =~= rest);
}

/// Decoding an empty buffer gives no value and no error, and leaves the
/// buffer empty.
pub proof fn empty_buffer_gives_nothing(bytes: Seq<u8>)
    requires
        bytes.len() == 0,
    ensures
        decoded(bytes) == (Ok::<Option<JsonView>, CodecError>(None), bytes),
{
}

/// Decoding fails on a malformed frame and on nothing else: white space and
/// an incomplete value give no value yet.
pub proof fn only_malformed_frames_fail(bytes: Seq<u8>)
    ensures
        decoded(bytes).0 is Err <==> bytes.len() > 0 && frame_scan(bytes) is Malformed,
        frame_scan(bytes) is Incomplete ==> decoded(bytes) == (
            Ok::<Option<JsonView>, CodecError>(None),
            bytes,
        ),
{
}

/// Frames come out in the order in which they lie: where the first value
/// ends with `frame`, decoding hands it out and leaves exactly `rest`, which
/// the next call then reads.
pub proof fn decode_leaves_what_follows(
    frame: Seq<u8>,
    rest: Seq<u8>,
    value: JsonView,
    consumed: usize,
)
    requires
        frame.len() > 0,
        consumed == frame.len(),
        frame_scan(frame + rest) == (ScanView::Value { value, consumed }),
    ensures
        decoded(frame + rest) == (Ok::<Option<JsonView>, CodecError>(Some(value)), rest),
{
    assert((frame + rest).skip(consumed as int) =~= rest);
}

/// A malformed frame costs its line and no more: decoding reports it and
/// leaves exactly what follows the line end, which the next call then reads.
pub proof fn malformed_frame_costs_one_line(line: Seq<u8>, rest: Seq<u8>)
    requires
        no_newline(line),
        frame_scan(line + seq![NEWLINE] + rest) is Malformed,
    ensures
        decoded(line + seq![NEWLINE] + rest) == (
            Err::<Option<JsonView>, CodecError>(CodecError::Malformed),
            rest,
        ),
{
    resync_drops_one_line(line, rest);
    assert((line + seq![NEWLINE] + rest).len() > 0);
}

/// Encoding appends and never rewrites: two frames written one after the
/// other lie in the buffer in that order, behind what it held.
pub proof fn frames_lie_in_order(held: Seq<u8>, first: Seq<u8>, second: Seq<u8>)
    ensures
        framed(Some(second), framed(Some(first), held).1) == (
            Ok::<(), CodecError>(()),
            held + (first + seq![NEWLINE]) + (second + seq![NEWLINE]),
        ),
{
    assert(held + first + seq![NEWLINE] + second + seq![NEWLINE] =~= held + (first + seq![NEWLINE])
        + (second + seq![NEWLINE]));
}

/// The codec adds nothing between writing and reading: decoding a fresh
/// buffer into which one value was encoded reads exactly the value's text
/// and its line end.
pub proof fn decode_reads_what_encode_wrote(text: Seq<u8>)
    ensures
        framed(Some(text), Seq::empty()).1 == text + seq![NEWLINE],
        decoded(framed(Some(text), Seq::empty()).1) == settled(
            frame_scan(text + seq![NEWLINE]),
            text + seq![NEWLINE],
        ),
{
    assert(Seq::<u8>::empty() + text + seq![NEWLINE] =~= text + seq![NEWLINE]);
    assert((text + seq![NEWLINE]).len() > 0);
}

} // verus!
