//! JSON values as the library holds them, and the calls into `serde_json`
//! that read and write their text.

use vstd::prelude::*;

verus! {

/// `serde_json::Value`, which only the conversions below look into.
#[verifier::external_type_specification]
#[verifier::external_body]
pub struct ExValue(serde_json::Value);

/// `serde_json::Number`, which only the conversions below look into.
#[verifier::external_type_specification]
#[verifier::external_body]
pub struct ExNumber(serde_json::Number);

/// `serde_json::Error`, of which the library keeps nothing but that it came.
#[verifier::external_type_specification]
#[verifier::external_body]
pub struct ExError(serde_json::Error);

/// A JSON number: a non-negative integer, a negative integer, or any other
/// number kept as its decimal text.
#[derive(Clone, Debug, PartialEq, Eq)]
pub enum JsonNumber {
    Unsigned(u64),
    Negative(i64),
    Real(String),
}

/// A JSON number as a mathematical value.
pub ghost enum NumberView {
    Unsigned(u64),
    Negative(i64),
    Real(Seq<char>),
}

impl View for JsonNumber {
    type V = NumberView;

    open spec fn view(&self) -> NumberView {
        match self {
            JsonNumber::Unsigned(n) => NumberView::Unsigned(*n),
            JsonNumber::Negative(n) => NumberView::Negative(*n),
            JsonNumber::Real(text) => NumberView::Real(text@),
        }
    }
}

/// A JSON value. An object keeps its members in the order of its text.
#[derive(Debug, PartialEq, Eq)]
pub enum Json {
    Null,
    Bool(bool),
    Number(JsonNumber),
    String(String),
    Array(Vec<Json>),
    Object(Vec<(String, Json)>),
}

/// A JSON value as a mathematical value.
pub ghost enum JsonView {
    Null,
    Bool(bool),
    Number(NumberView),
    String(Seq<char>),
    Array(Seq<JsonView>),
    Object(Seq<(Seq<char>, JsonView)>),
}

impl View for Json {
    type V = JsonView;

    open spec fn view(&self) -> JsonView
        decreases self,
    {
        match self {
            Json::Null => JsonView::Null,
            Json::Bool(b) => JsonView::Bool(*b),
            Json::Number(n) => JsonView::Number(n@),
            Json::String(text) => JsonView::String(text@),
            Json::Array(items) => JsonView::Array(
                Seq::new(
                    items.len() as nat,
                    |i: int|
                        if 0 <= i < items.len() {
                            items[i]@
                        } else {
                            JsonView::Null
                        },
                ),
            ),
            Json::Object(members) => JsonView::Object(
                Seq::new(
                    members.len() as nat,
                    |i: int|
                        if 0 <= i < members.len() {
                            (members[i].0@, members[i].1@)
                        } else {
                            (Seq::empty(), JsonView::Null)
                        },
                ),
            ),
        }
    }
}

/// What a look at the front of a byte sequence finds.
#[derive(Debug, PartialEq, Eq)]
pub enum Scan {
    /// One complete value, which ends `consumed` bytes from the front.
    Value { value: Json, consumed: usize },
    /// Nothing but white space, `consumed` bytes of it.
    Blank { consumed: usize },
    /// The beginning of a value whose end has not arrived.
    Incomplete,
    /// Bytes that begin no JSON value.
    Malformed,
}

/// What a look at the front of a byte sequence finds, as a mathematical
/// value.
pub ghost enum ScanView {
    Value { value: JsonView, consumed: usize },
    Blank { consumed: usize },
    Incomplete,
    Malformed,
}

impl View for Scan {
    type V = ScanView;

    open spec fn view(&self) -> ScanView {
        match self {
            Scan::Value { value, consumed } => ScanView::Value {
                value: value@,
                consumed: *consumed,
            },
            Scan::Blank { consumed } => ScanView::Blank { consumed: *consumed },
            Scan::Incomplete => ScanView::Incomplete,
            Scan::Malformed => ScanView::Malformed,
        }
    }
}

impl ScanView {
    /// The bytes counted as consumed lie within a sequence of `len` bytes.
    pub open spec fn within(self, len: nat) -> bool {
        match self {
            ScanView::Value { consumed, .. } => consumed <= len,
            ScanView::Blank { consumed } => consumed <= len,
            ScanView::Incomplete => true,
            ScanView::Malformed => true,
        }
    }
}

/// The values of a sequence, each as a mathematical value.
pub open spec fn items_view(items: Seq<Json>) -> Seq<JsonView> {
    items.map_values(|item: Json| item@)
}

/// The members of a sequence, each as a mathematical value.
pub open spec fn members_view(members: Seq<(String, Json)>) -> Seq<(Seq<char>, JsonView)> {
    members.map_values(|member: (String, Json)| (member.0@, member.1@))
}

/// An array is, as a mathematical value, the sequence of its items.
pub proof fn array_view(items: Vec<Json>)
    ensures
        Json::Array(items)@ == JsonView::Array(items_view(items@)),
{
    reveal_with_fuel(<Json as View>::view, 2);
    let held = Json::Array(items)@->Array_0;
    assert(held.len() == items@.len());
    assert forall|i: int| 0 <= i < held.len() implies held[i] == items_view(items@)[i] by {
        assert(items[i] == items@[i]);
    }
    assert(held =~= items_view(items@));
}

/// An object is, as a mathematical value, the sequence of its members.
pub proof fn object_view(members: Vec<(String, Json)>)
    ensures
        Json::Object(members)@ == JsonView::Object(members_view(members@)),
{
    reveal_with_fuel(<Json as View>::view, 2);
    let held = Json::Object(members)@->Object_0;
    assert(held.len() == members@.len());
    assert forall|i: int| 0 <= i < held.len() implies held[i] == members_view(members@)[i] by {
        assert(members[i] == members@[i]);
    }
    assert(held =~= members_view(members@));
}

/// What `serde_json`'s stream deserializer finds at the front of `bytes`.
pub uninterp spec fn frame_scan(bytes: Seq<u8>) -> ScanView;

/// The value that `serde_json` reads from a whole text, if the text is one
/// JSON value.
pub uninterp spec fn json_document(text: Seq<char>) -> Option<JsonView>;

/// The compact text that `serde_json` writes for a value, if it can be written.
pub uninterp spec fn json_text(value: JsonView) -> Option<Seq<u8>>;

/// The JSON string literal, quotes and escapes included, that `serde_json`
/// writes for a text.
pub uninterp spec fn json_quoted(text: Seq<char>) -> Seq<char>;

/// Turns a number of `serde_json` into the library's, by `Number::as_u64`,
/// `Number::as_i64` and, for what is neither, its `Display` text.
#[verifier::external_body]
fn number_from(number: &serde_json::Number) -> JsonNumber {
    match (number.as_u64(), number.as_i64()) {
        (Some(n), _) => JsonNumber::Unsigned(n),
        (None, Some(n)) => JsonNumber::Negative(n),
        (None, None) => JsonNumber::Real(number.to_string()),
    }
}

/// Turns a value of `serde_json` into the library's, variant by variant.
#[verifier::external_body]
fn json_from(value: serde_json::Value) -> Json {
    match value {
        serde_json::Value::Null => Json::Null,
        serde_json::Value::Bool(b) => Json::Bool(b),
        serde_json::Value::Number(n) => Json::Number(number_from(&n)),
        serde_json::Value::String(s) => Json::String(s),
        serde_json::Value::Array(items) => Json::Array(items.into_iter().map(json_from).collect()),
        serde_json::Value::Object(members) => Json::Object(
            members.into_iter().map(|(key, member)| (key, json_from(member))).collect(),
        ),
    }
}

/// Turns a number of the library into one of `serde_json`; the text of a
/// `Real` goes through `serde_json::from_str`, which refuses what is no number.
#[verifier::external_body]
fn number_into(number: &JsonNumber) -> Result<serde_json::Number, serde_json::Error> {
    match number {
        JsonNumber::Unsigned(n) => Ok(serde_json::Number::from(*n)),
        JsonNumber::Negative(n) => Ok(serde_json::Number::from(*n)),
        JsonNumber::Real(text) => serde_json::from_str::<serde_json::Number>(text),
    }
}

/// Turns a value of the library into one of `serde_json`, variant by variant.
#[verifier::external_body]
fn json_into(value: &Json) -> Result<serde_json::Value, serde_json::Error> {
    Ok(match value {
        Json::Null => serde_json::Value::Null,
        Json::Bool(b) => serde_json::Value::Bool(*b),
        Json::Number(n) => serde_json::Value::Number(number_into(n)?),
        Json::String(s) => serde_json::Value::String(s.clone()),
        Json::Array(items) => serde_json::Value::Array(
            items.iter().map(json_into).collect::<Result<_, _>>()?,
        ),
        Json::Object(members) => serde_json::Value::Object(
            members.iter().map(|(key, member)| Ok((key.clone(), json_into(member)?)))
                .collect::<Result<_, serde_json::Error>>()?,
        ),
    })
}

/// `StreamDeserializer::next` on a deserializer over `bytes`, with
/// `StreamDeserializer::byte_offset` read after it. The result is the named
/// scan of these bytes; the offset never passes the end of the slice. An
/// error for which `Error::is_eof` holds is an incomplete value, any other
/// error a malformed one, and no item at all is white space to the end.
#[verifier::external_body]
pub(crate) fn scan_frame(bytes: &[u8]) -> (scan: Scan)
    ensures
        scan@ == frame_scan(bytes@),
        scan@.within(bytes@.len()),
{
    let mut stream = serde_json::Deserializer::from_slice(bytes).into_iter::<serde_json::Value>();
    match stream.next() {
        Some(Ok(value)) => Scan::Value { value: json_from(value), consumed: stream.byte_offset() },
        Some(Err(error)) if error.is_eof() => Scan::Incomplete,
        Some(Err(_)) => Scan::Malformed,
        None => Scan::Blank { consumed: stream.byte_offset() },
    }
}

/// `serde_json::from_str` on a whole text: the named document of the text, or
/// the outside error where the text is not one JSON value.
#[verifier::external_body]
pub(crate) fn parse_document(text: &str) -> (r: Result<Json, serde_json::Error>)
    ensures
        r.is_ok() == json_document(text@).is_some(),
        r matches Ok(value) ==> json_document(text@) == Some(value@),
{
    serde_json::from_str::<serde_json::Value>(text).map(json_from)
}

/// `serde_json::to_vec` on a value: its named compact text, or the outside
/// error where it cannot be written.
#[verifier::external_body]
pub(crate) fn render(value: &Json) -> (r: Result<Vec<u8>, serde_json::Error>)
    ensures
        r.is_ok() == json_text(value@).is_some(),
        r matches Ok(text) ==> json_text(value@) == Some(text@),
{
    serde_json::to_vec(&json_into(value)?)
}

/// `serde_json::to_string` on a string slice: the named string literal. The
/// writer is a vector in memory and a string has no failing part, so the
/// outside call has no error to return here.
#[verifier::external_body]
pub(crate) fn quote(text: &str) -> (r: String)
    ensures
        r@ == json_quoted(text@),
{
    serde_json::to_string(text).unwrap_or_default()
}

} // verus!
