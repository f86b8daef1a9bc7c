//! Events, and the one line of JSON that each is on the wire.

use crate::json::{json_quoted, members_view, object_view, quote, Json, JsonView};
use vstd::prelude::*;
use vstd::string::*;

verus! {

/// A notification to the client.
#[derive(Clone, Debug, PartialEq, Eq)]
pub enum Event {
    Found { path: String },
    NotFound { path: String },
    ResizeCompleted { target: String },
    ResizeFailed { target: String, reason: String },
}

/// An event as a mathematical value.
pub ghost enum EventView {
    Found { path: Seq<char> },
    NotFound { path: Seq<char> },
    ResizeCompleted { target: Seq<char> },
    ResizeFailed { target: Seq<char>, reason: Seq<char> },
}

impl View for Event {
    type V = EventView;

    open spec fn view(&self) -> EventView {
        match self {
            Event::Found { path } => EventView::Found { path: path@ },
            Event::NotFound { path } => EventView::NotFound { path: path@ },
            Event::ResizeCompleted { target } => EventView::ResizeCompleted { target: target@ },
            Event::ResizeFailed { target, reason } => EventView::ResizeFailed {
                target: target@,
                reason: reason@,
            },
        }
    }
}

/// One member of an object whose value is a string.
pub open spec fn text_pair(key: Seq<char>, text: Seq<char>) -> (Seq<char>, JsonView) {
    (key, JsonView::String(text))
}

/// The JSON object of an event: the member `event` first, then the fields
/// as the event declares them, each a string.
pub open spec fn event_json(event: EventView) -> JsonView {
    match event {
        EventView::Found { path } => JsonView::Object(
            seq![text_pair("event"@, "found"@), text_pair("path"@, path)],
        ),
        EventView::NotFound { path } => JsonView::Object(
            seq![text_pair("event"@, "not_found"@), text_pair("path"@, path)],
        ),
        EventView::ResizeCompleted { target } => JsonView::Object(
            seq![text_pair("event"@, "resize_completed"@), text_pair("target"@, target)],
        ),
        EventView::ResizeFailed { target, reason } => JsonView::Object(
            seq![
                text_pair("event"@, "resize_failed"@),
                text_pair("target"@, target),
                text_pair("reason"@, reason),
            ],
        ),
    }
}

/// The text of one member: its name, a colon, its value, both as they stand.
pub open spec fn member_text(member: (Seq<char>, Seq<char>)) -> Seq<char> {
    member.0 + ":"@ + member.1
}

/// The texts of the members in their order, a comma between two of them.
pub open spec fn members_text(members: Seq<(Seq<char>, Seq<char>)>) -> Seq<char>
    decreases members.len(),
{
    if members.len() == 0 {
        Seq::empty()
    } else if members.len() == 1 {
        member_text(members.last())
    } else {
        members_text(members.drop_last()) + ","@ + member_text(members.last())
    }
}

/// The text of an object of these members: braces round the members, and
/// no white space anywhere.
pub open spec fn object_text(members: Seq<(Seq<char>, Seq<char>)>) -> Seq<char> {
    "{"@ + members_text(members) + "}"@
}

/// The members of an event on the wire, names and values as JSON strings:
/// the member `event` first, then the fields as the event declares them.
pub open spec fn wire_members(event: EventView) -> Seq<(Seq<char>, Seq<char>)> {
    match event {
        EventView::Found { path } => seq![
            ("\"event\""@, "\"found\""@),
            ("\"path\""@, json_quoted(path)),
        ],
        EventView::NotFound { path } => seq![
            ("\"event\""@, "\"not_found\""@),
            ("\"path\""@, json_quoted(path)),
        ],
        EventView::ResizeCompleted { target } => seq![
            ("\"event\""@, "\"resize_completed\""@),
            ("\"target\""@, json_quoted(target)),
        ],
        EventView::ResizeFailed { target, reason } => seq![
            ("\"event\""@, "\"resize_failed\""@),
            ("\"target\""@, json_quoted(target)),
            ("\"reason\""@, json_quoted(reason)),
        ],
    }
}

/// The text of an event on the wire, without a line end.
pub open spec fn wire_text(event: EventView) -> Seq<char> {
    object_text(wire_members(event))
}

/// The members of a vector as mathematical values.
pub open spec fn pairs_view(members: Seq<(String, String)>) -> Seq<(Seq<char>, Seq<char>)> {
    members.map_values(|member: (String, String)| (member.0@, member.1@))
}

/// Writes an object whose member names and values are already JSON texts.
pub fn write_object(members: &Vec<(String, String)>) -> (text: String)
    ensures
        text@ == object_text(pairs_view(members@)),
{
    let ghost all = pairs_view(members@);
    let mut text = String::from_str("{");
    let mut at: usize = 0;
    assert(all.take(0) =~= Seq::<(Seq<char>, Seq<char>)>::empty());
    assert(text@ =~= "{"@ + members_text(all.take(0)));
    while at < members.len()
        invariant
            at <= members.len(),
            all == pairs_view(members@),
            text@ == "{"@ + members_text(all.take(at as int)),
        decreases members.len() - at,
    {
        let ghost before = text@;
        let ghost seen = all.take(at + 1);
        assert(seen.drop_last() =~= all.take(at as int));
        assert(seen.last() == all[at as int]);
        if at > 0 {
            text.append(",");
        }
        text.append(members[at].0.as_str());
        text.append(":");
        text.append(members[at].1.as_str());
        proof {
            if at == 0 {
                assert(members_text(all.take(0)) =~= Seq::<char>::empty());
                assert(text@ =~= "{"@ + members_text(seen));
            } else {
                assert(text@ =~= "{"@ + members_text(seen));
            }
        }
        at = at + 1;
    }
    assert(all.take(at as int) =~= all);
    text.append("}");
    text
}

/// One member of the wire text, built from texts that are JSON already.
fn wire_member(name: &str, value: String) -> (r: (String, String))
    ensures
        r.0@ == name@,
        r.1@ == value@,
{
    (String::from_str(name), value)
}

/// One member of an object whose value is a string.
fn text_member(key: &str, text: &str) -> (r: (String, Json))
    ensures
        (r.0@, r.1@) == text_pair(key@, text@),
{
    (String::from_str(key), Json::String(String::from_str(text)))
}

/// The object that says that an image was found.
fn json_event_image_found(path: &String) -> (value: Json)
    ensures
        value@ == event_json(EventView::Found { path: path@ }),
{
    let mut members: Vec<(String, Json)> = Vec::new();
    members.push(text_member("event", "found"));
    members.push(text_member("path", path.as_str()));
    proof {
        assert(members_view(members@) =~= seq![
            text_pair("event"@, "found"@),
            text_pair("path"@, path@),
        ]);
        object_view(members);
    }
    Json::Object(members)
}

/// The object that says that an image was not found.
fn json_event_image_not_found(path: &String) -> (value: Json)
    ensures
        value@ == event_json(EventView::NotFound { path: path@ }),
{
    let mut members: Vec<(String, Json)> = Vec::new();
    members.push(text_member("event", "not_found"));
    members.push(text_member("path", path.as_str()));
    proof {
        assert(members_view(members@) =~= seq![
            text_pair("event"@, "not_found"@),
            text_pair("path"@, path@),
        ]);
        object_view(members);
    }
    Json::Object(members)
}

/// The object that says that a target was written.
fn json_event_image_resize_completed(target: &String) -> (value: Json)
    ensures
        value@ == event_json(EventView::ResizeCompleted { target: target@ }),
{
    let mut members: Vec<(String, Json)> = Vec::new();
    members.push(text_member("event", "resize_completed"));
    members.push(text_member("target", target.as_str()));
    proof {
        assert(members_view(members@) =~= seq![
            text_pair("event"@, "resize_completed"@),
            text_pair("target"@, target@),
        ]);
        object_view(members);
    }
    Json::Object(members)
}

/// The object that says that a target could not be written, and why.
fn json_event_image_resize_failed(target: &String, reason: &String) -> (value: Json)
    ensures
        value@ == event_json(EventView::ResizeFailed { target: target@, reason: reason@ }),
{
    let mut members: Vec<(String, Json)> = Vec::new();
    members.push(text_member("event", "resize_failed"));
    members.push(text_member("target", target.as_str()));
    members.push(text_member("reason", reason.as_str()));
    proof {
        assert(members_view(members@) =~= seq![
            text_pair("event"@, "resize_failed"@),
            text_pair("target"@, target@),
            text_pair("reason"@, reason@),
        ]);
        object_view(members);
    }
    Json::Object(members)
}

impl Event {
    pub fn found(path: &str) -> (event: Event)
        ensures
            event@ == (EventView::Found { path: path@ }),
    {
        Event::Found { path: String::from_str(path) }
    }

    pub fn not_found(path: &str) -> (event: Event)
        ensures
            event@ == (EventView::NotFound { path: path@ }),
    {
        Event::NotFound { path: String::from_str(path) }
    }

    pub fn resize_complete(target: &str) -> (event: Event)
        ensures
            event@ == (EventView::ResizeCompleted { target: target@ }),
    {
        Event::ResizeCompleted { target: String::from_str(target) }
    }

    pub fn resize_failed(target: &str, reason: &str) -> (event: Event)
        ensures
            event@ == (EventView::ResizeFailed { target: target@, reason: reason@ }),
    {
        Event::ResizeFailed { target: String::from_str(target), reason: String::from_str(reason) }
    }

    /// The event as a JSON object.
    pub fn as_json(&self) -> (value: Json)
        ensures
            value@ == event_json(self@),
    {
        match self {
            Event::Found { path } => json_event_image_found(path),
            Event::NotFound { path } => json_event_image_not_found(path),
            Event::ResizeCompleted { target } => json_event_image_resize_completed(target),
            Event::ResizeFailed { target, reason } => json_event_image_resize_failed(
                target,
                reason,
            ),
        }
    }

    /// The event as its text on the wire, without a line end: one JSON
    /// object whose field values are written as JSON strings.
    pub fn to_string(&self) -> (text: String)
        ensures
            text@ == wire_text(self@),
    {
        let mut members: Vec<(String, String)> = Vec::new();
        match self {
            Event::Found { path } => {
                members.push(wire_member("\"event\"", String::from_str("\"found\"")));
                members.push(wire_member("\"path\"", quote(path.as_str())));
            },
            Event::NotFound { path } => {
                members.push(wire_member("\"event\"", String::from_str("\"not_found\"")));
                members.push(wire_member("\"path\"", quote(path.as_str())));
            },
            Event::ResizeCompleted { target } => {
                members.push(
                    wire_member("\"event\"", String::from_str("\"resize_completed\"")),
                );
                members.push(wire_member("\"target\"", quote(target.as_str())));
            },
            Event::ResizeFailed { target, reason } => {
                members.push(wire_member("\"event\"", String::from_str("\"resize_failed\"")));
                members.push(wire_member("\"target\"", quote(target.as_str())));
                members.push(wire_member("\"reason\"", quote(reason.as_str())));
            },
        }
        assert(pairs_view(members@) =~= wire_members(self@));
        write_object(&members)
    }
}

} // verus!
