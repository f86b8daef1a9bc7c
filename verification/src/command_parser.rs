//! Commands, and the rules that read one out of a JSON value.

use crate::json::{
    array_view, items_view, json_document, members_view, object_view, parse_document, Json,
    JsonNumber, JsonView, NumberView,
};
use vstd::prelude::*;
use vstd::string::*;

verus! {

/// One size that an image is to be resized to, and the name of the result.
#[derive(Clone, Debug, PartialEq, Eq)]
pub struct ImageTarget {
    pub label: String,
    pub width: u32,
    pub height: u32,
}

/// An image target as a mathematical value.
pub ghost struct ImageTargetView {
    pub label: Seq<char>,
    pub width: u32,
    pub height: u32,
}

impl View for ImageTarget {
    type V = ImageTargetView;

    open spec fn view(&self) -> ImageTargetView {
        ImageTargetView { label: self.label@, width: self.width, height: self.height }
    }
}

/// A request of the client.
#[derive(Clone, Debug, PartialEq, Eq)]
pub enum Command {
    FindImage { path: String },
    ResizeImage { source: String, targets: Vec<ImageTarget> },
    Invalid { reason: String },
}

/// A command as a mathematical value.
pub ghost enum CommandView {
    FindImage { path: Seq<char> },
    ResizeImage { source: Seq<char>, targets: Seq<ImageTargetView> },
    Invalid { reason: Seq<char> },
}

/// The targets of a vector, each as a mathematical value.
pub open spec fn target_views(targets: Seq<ImageTarget>) -> Seq<ImageTargetView> {
    targets.map_values(|target: ImageTarget| target@)
}

impl View for Command {
    type V = CommandView;

    open spec fn view(&self) -> CommandView {
        match self {
            Command::FindImage { path } => CommandView::FindImage { path: path@ },
            Command::ResizeImage { source, targets } => CommandView::ResizeImage {
                source: source@,
                targets: target_views(targets@),
            },
            Command::Invalid { reason } => CommandView::Invalid { reason: reason@ },
        }
    }
}

/// The value of the first member named `key`, if there is one.
pub open spec fn member(members: Seq<(Seq<char>, JsonView)>, key: Seq<char>) -> Option<JsonView>
    decreases members.len(),
{
    if members.len() == 0 {
        None
    } else if members[0].0 == key {
        Some(members[0].1)
    } else {
        member(members.skip(1), key)
    }
}

/// The member `key` of an object; nothing for a value that is no object.
pub open spec fn field(value: JsonView, key: Seq<char>) -> Option<JsonView> {
    match value {
        JsonView::Object(members) => member(members, key),
        _ => None,
    }
}

/// The member `key` of an object where it is a string.
pub open spec fn text_field(value: JsonView, key: Seq<char>) -> Option<Seq<char>> {
    match field(value, key) {
        Some(JsonView::String(text)) => Some(text),
        _ => None,
    }
}

/// A dimension as the wire gives it, cut to the 32 bits that a target keeps.
pub open spec fn dimension(n: u64) -> u32 {
    (n % 0x1_0000_0000) as u32
}

/// The three values are a label and two dimensions: a string and two
/// non-negative integers.
pub open spec fn size_tuple(label: JsonView, width: JsonView, height: JsonView) -> bool {
    &&& label is String
    &&& width matches JsonView::Number(NumberView::Unsigned(_))
    &&& height matches JsonView::Number(NumberView::Unsigned(_))
}

/// The target that one element of `sizes` stands for: an array of exactly
/// a label, a width and a height. Any other element stands for none.
pub open spec fn target_of(item: JsonView) -> Option<ImageTargetView> {
    match item {
        JsonView::Array(parts) => {
            if parts.len() == 3 {
                match (parts[0], parts[1], parts[2]) {
                    (
                        JsonView::String(label),
                        JsonView::Number(NumberView::Unsigned(width)),
                        JsonView::Number(NumberView::Unsigned(height)),
                    ) => Some(
                        ImageTargetView {
                            label: label,
                            width: dimension(width),
                            height: dimension(height),
                        },
                    ),
                    _ => None,
                }
            } else {
                None
            }
        },
        _ => None,
    }
}

/// The targets that the elements of `sizes` stand for, in their order, each
/// element that stands for none left out.
pub open spec fn targets_of(items: Seq<JsonView>) -> Seq<ImageTargetView>
    decreases items.len(),
{
    if items.len() == 0 {
        Seq::empty()
    } else {
        match target_of(items.last()) {
            Some(target) => targets_of(items.drop_last()).push(target),
            None => targets_of(items.drop_last()),
        }
    }
}

/// The targets of a resize command: those of its array `sizes`, and none
/// where `sizes` is missing or is no array.
pub open spec fn sizes_of(value: JsonView) -> Seq<ImageTargetView> {
    match field(value, "sizes"@) {
        Some(JsonView::Array(items)) => targets_of(items),
        _ => Seq::empty(),
    }
}

/// The command without a known name or without a field it needs.
pub open spec fn unknown_command() -> CommandView {
    CommandView::Invalid { reason: "unknown command"@ }
}

/// The command of a text that is no JSON.
pub open spec fn malformed_json() -> CommandView {
    CommandView::Invalid { reason: "malformed JSON"@ }
}

/// The command that a JSON value stands for.
pub open spec fn command_of(value: JsonView) -> CommandView {
    match text_field(value, "command"@) {
        Some(name) => {
            if name == "find"@ {
                match text_field(value, "path"@) {
                    Some(path) => CommandView::FindImage { path },
                    None => unknown_command(),
                }
            } else if name == "resize"@ {
                match text_field(value, "source"@) {
                    Some(source) => CommandView::ResizeImage { source, targets: sizes_of(value) },
                    None => unknown_command(),
                }
            } else {
                unknown_command()
            }
        },
        None => unknown_command(),
    }
}

/// The command that a text stands for.
pub open spec fn parsed_command(text: Seq<char>) -> CommandView {
    match json_document(text) {
        Some(value) => command_of(value),
        None => malformed_json(),
    }
}

/// Whether three values are a label and two dimensions.
pub fn is_size_tuple(target: &Json, width: &Json, height: &Json) -> (r: bool)
    ensures
        r == size_tuple(target@, width@, height@),
{
    let label_ok = match target {
        Json::String(_) => true,
        _ => false,
    };
    let width_ok = match width {
        Json::Number(JsonNumber::Unsigned(_)) => true,
        _ => false,
    };
    let height_ok = match height {
        Json::Number(JsonNumber::Unsigned(_)) => true,
        _ => false,
    };
    label_ok && width_ok && height_ok
}

/// Cuts a dimension to 32 bits.
fn narrow(n: u64) -> (r: u32)
    ensures
        r == dimension(n),
{
    (n % 0x1_0000_0000) as u32
}

/// Reads one element of `sizes`.
pub fn parse_size_item(size: &Json) -> (r: Option<ImageTarget>)
    ensures
        match r {
            Some(target) => target_of(size@) == Some(target@),
            None => target_of(size@).is_none(),
        },
{
    match size {
        Json::Array(parts) => {
            proof {
                array_view(*parts);
            }
            if parts.len() == 3 && is_size_tuple(&parts[0], &parts[1], &parts[2]) {
                match (&parts[0], &parts[1], &parts[2]) {
                    (
                        Json::String(label),
                        Json::Number(JsonNumber::Unsigned(width)),
                        Json::Number(JsonNumber::Unsigned(height)),
                    ) => Some(
                        ImageTarget {
                            label: label.clone(),
                            width: narrow(*width),
                            height: narrow(*height),
                        },
                    ),
                    _ => None,
                }
            } else {
                None
            }
        },
        _ => None,
    }
}

/// Finds the first member named `key`.
fn find_member<'a>(members: &'a Vec<(String, Json)>, key: &str) -> (r: Option<&'a Json>)
    ensures
        match r {
            Some(value) => member(members_view(members@), key@) == Some(value@),
            None => member(members_view(members@), key@).is_none(),
        },
{
    let wanted = String::from_str(key);
    let mut at: usize = 0;
    let ghost all = members_view(members@);
    assert(all.skip(0) =~= all);
    while at < members.len()
        invariant
            at <= members.len(),
            wanted@ == key@,
            all == members_view(members@),
            member(all, key@) == member(all.skip(at as int), key@),
        decreases members.len() - at,
    {
        let ghost rest = all.skip(at as int);
        assert(rest[0] == all[at as int]);
        assert(rest.skip(1) =~= all.skip(at + 1));
        if members[at].0 == wanted {
            return Some(&members[at].1);
        }
        at = at + 1;
    }
    None
}

/// Finds the member `key` of an object.
fn find_field<'a>(value: &'a Json, key: &str) -> (r: Option<&'a Json>)
    ensures
        match r {
            Some(found) => field(value@, key@) == Some(found@),
            None => field(value@, key@).is_none(),
        },
{
    match value {
        Json::Object(members) => {
            proof {
                object_view(*members);
            }
            find_member(members, key)
        },
        _ => None,
    }
}

/// Finds the member `key` of an object where it is a string.
fn find_text<'a>(value: &'a Json, key: &str) -> (r: Option<&'a String>)
    ensures
        match r {
            Some(text) => text_field(value@, key@) == Some(text@),
            None => text_field(value@, key@).is_none(),
        },
{
    match find_field(value, key) {
        Some(Json::String(text)) => Some(text),
        _ => None,
    }
}

/// Reads the targets of a resize command: the well-formed elements of its
/// `sizes`, in their order.
pub fn collect_image_sizes_from_json(json: &Json) -> (targets: Vec<ImageTarget>)
    ensures
        target_views(targets@) == sizes_of(json@),
{
    let mut targets: Vec<ImageTarget> = Vec::new();
    match find_field(json, "sizes") {
        Some(Json::Array(items)) => {
            let mut at: usize = 0;
            let ghost all = items_view(items@);
            proof {
                array_view(*items);
            }
            assert(all.take(0) =~= Seq::<JsonView>::empty());
            assert(target_views(targets@) =~= Seq::<ImageTargetView>::empty());
            while at < items.len()
                invariant
                    at <= items.len(),
                    all == items_view(items@),
                    target_views(targets@) == targets_of(all.take(at as int)),
                decreases items.len() - at,
            {
                let ghost before = targets@;
                let ghost seen = all.take(at + 1);
                assert(seen.drop_last() =~= all.take(at as int));
                assert(seen.last() == items@[at as int]@);
                match parse_size_item(&items[at]) {
                    Some(target) => {
                        targets.push(target);
                        assert(target_views(targets@) =~= target_views(before).push(target@));
                    },
                    None => {},
                }
                at = at + 1;
            }
            assert(all.take(at as int) =~= all);
        },
        _ => {
            assert(target_views(targets@) =~= Seq::<ImageTargetView>::empty());
        },
    }
    targets
}

/// The command for a value that names none, or lacks a field.
fn unknown() -> (r: Command)
    ensures
        r@ == unknown_command(),
{
    Command::Invalid { reason: String::from_str("unknown command") }
}

/// Reads the command that a JSON value stands for. Every value gives a
/// command: what is no known command is `Invalid`.
pub fn create_command_from_parsed_json_value(json: Json) -> (r: Command)
    ensures
        r@ == command_of(json@),
{
    let find = String::from_str("find");
    let resize = String::from_str("resize");
    match find_text(&json, "command") {
        Some(name) => {
            if *name == find {
                match find_text(&json, "path") {
                    Some(path) => Command::FindImage { path: path.clone() },
                    None => unknown(),
                }
            } else if *name == resize {
                match find_text(&json, "source") {
                    Some(source) => Command::ResizeImage {
                        source: source.clone(),
                        targets: collect_image_sizes_from_json(&json),
                    },
                    None => unknown(),
                }
            } else {
                unknown()
            }
        },
        None => unknown(),
    }
}

/// Reads the command that a text stands for. Every text gives a command:
/// what is no JSON is `Invalid`.
pub fn parse_json_string(json: String) -> (r: Command)
    ensures
        r@ == parsed_command(json@),
{
    match parse_document(json.as_str()) {
        Ok(value) => create_command_from_parsed_json_value(value),
        Err(_) => Command::Invalid { reason: String::from_str("malformed JSON") },
    }
}

/// The targets of a sequence of elements are those of its front followed by
/// those of its back: each element is kept or dropped by itself, and what is
/// kept stays in the order of the elements.
pub proof fn targets_of_concat(front: Seq<JsonView>, back: Seq<JsonView>)
    ensures
        targets_of(front + back) == targets_of(front) + targets_of(back),
    decreases back.len(),
{
    if back.len() == 0 {
        assert(front + back =~= front);
        assert(targets_of(front) + targets_of(back) =~= targets_of(front));
    } else {
        let whole = front + back;
        assert(whole.drop_last() =~= front + back.drop_last());
        assert(whole.last() == back.last());
        targets_of_concat(front, back.drop_last());
        match target_of(back.last()) {
            Some(target) => {
                assert(targets_of(whole) =~= targets_of(front) + targets_of(back));
            },
            None => {},
        }
    }
}

/// The targets of a single element: its target, or none.
pub proof fn targets_of_one(item: JsonView)
    ensures
        targets_of(seq![item]) == match target_of(item) {
            Some(target) => seq![target],
            None => Seq::empty(),
        },
{
    let one = seq![item];
    assert(one.last() == item);
    assert(one.drop_last() =~= Seq::<JsonView>::empty());
    assert(targets_of(one.drop_last()) =~= Seq::<ImageTargetView>::empty());
    match target_of(item) {
        Some(target) => {
            assert(targets_of(one) =~= seq![target]);
        },
        None => {},
    }
}

/// Of a well-formed and a malformed element, only the well-formed one is
/// kept, whichever comes first.
pub proof fn malformed_element_is_dropped(good: JsonView, bad: JsonView, target: ImageTargetView)
    requires
        target_of(good) == Some(target),
        target_of(bad).is_none(),
    ensures
        targets_of(seq![good, bad]) == seq![target],
        targets_of(seq![bad, good]) == seq![target],
{
    targets_of_one(good);
    targets_of_one(bad);
    targets_of_concat(seq![good], seq![bad]);
    targets_of_concat(seq![bad], seq![good]);
    assert(seq![good] + seq![bad] =~= seq![good, bad]);
    assert(seq![bad] + seq![good] =~= seq![bad, good]);
    assert(seq![target] + Seq::<ImageTargetView>::empty() =~= seq![target]);
    assert(Seq::<ImageTargetView>::empty() + seq![target] =~= seq![target]);
}

/// A malformed element between two sequences of elements leaves no trace:
/// what stands before it and what stands behind it keep their targets and
/// their order.
pub proof fn malformed_element_leaves_the_rest(
    front: Seq<JsonView>,
    bad: JsonView,
    back: Seq<JsonView>,
)
    requires
        target_of(bad).is_none(),
    ensures
        targets_of(front + seq![bad] + back) == targets_of(front) + targets_of(back),
{
    targets_of_one(bad);
    targets_of_concat(front, seq![bad]);
    targets_of_concat(front + seq![bad], back);
    assert(targets_of(front) + Seq::<ImageTargetView>::empty() =~= targets_of(front));
}

} // verus!
