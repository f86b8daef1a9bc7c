use image_resize_rust::command_parser::{
    collect_image_sizes_from_json, create_command_from_parsed_json_value, is_size_tuple,
    parse_size_item,
};
use image_resize_rust::{parse_json_string, Command, ImageTarget, Json, JsonNumber};

fn cp_text(text: &str) -> Json {
    Json::String(String::from(text))
}

fn cp_number(n: u64) -> Json {
    Json::Number(JsonNumber::Unsigned(n))
}

fn cp_target(label: &str, width: u32, height: u32) -> ImageTarget {
    ImageTarget { label: String::from(label), width, height }
}

fn cp_unknown() -> Command {
    Command::Invalid { reason: String::from("unknown command") }
}

fn cp_object(members: Vec<(&str, Json)>) -> Json {
    Json::Object(
        members
            .into_iter()
            .map(|(key, value)| (String::from(key), value))
            .collect(),
    )
}

#[test]
fn creates_find_image_command_from_json() {
    assert_eq!(
        Command::FindImage { path: String::from("/path/to/file") },
        parse_json_string(String::from("{\"command\":\"find\",\"path\":\"/path/to/file\"}"))
    )
}

#[test]
fn when_type_is_wrong_creates_wrong_command() {
    assert_eq!(
        cp_unknown(),
        parse_json_string(String::from("{\"command\":\"something\"}"))
    )
}

#[test]
fn when_type_is_not_provided_creates_wrong_command() {
    assert_eq!(cp_unknown(), parse_json_string(String::from("{}")));
}

#[test]
fn when_path_is_missing_for_find_command_creates_wrong_command() {
    assert_eq!(
        cp_unknown(),
        parse_json_string(String::from("{\"command\": \"find\"}"))
    );
}

#[test]
fn when_resize_image_type_is_provided_creates_resize_image_command() {
    assert_eq!(
        Command::ResizeImage {
            source: String::from("path/to/image.jpg"),
            targets: vec![cp_target("path/to/320x400/image.jpg", 320, 400)],
        },
        parse_json_string(String::from(
            "{\
                    \"command\":\"resize\", \
                    \"source\":\"path/to/image.jpg\", \
                    \"sizes\": [[\"path/to/320x400/image.jpg\", 320, 400]]\
                }"
        ))
    );
}

#[test]
fn when_one_of_the_resize_items_is_invalid_it_ignores_it() {
    assert_eq!(
        Command::ResizeImage {
            source: String::from("path/to/image.jpg"),
            targets: vec![
                cp_target("path/to/320x400/image.jpg", 320, 400),
                cp_target("path/to/400x500/image.jpg", 400, 500),
            ],
        },
        parse_json_string(String::from(
            "{\
                    \"command\":\"resize\", \
                    \"source\":\"path/to/image.jpg\", \
                    \"sizes\": [\
                        [\"path/to/320x400/image.jpg\", 320, 400],\
                        [\"path/to/320x400/image.jpg\", 320],\
                        [\"path/to/400x500/image.jpg\", 400, 500]\
                    ]\
                }"
        ))
    );
}

#[test]
fn when_empty_resize_list_creates_empty_resize_list_command() {
    assert_eq!(
        Command::ResizeImage { source: String::from("path/to/image.jpg"), targets: vec![] },
        parse_json_string(String::from(
            "{\
                    \"command\":\"resize\", \
                    \"source\":\"path/to/image.jpg\", \
                    \"sizes\": []\
                }"
        ))
    );
}

#[test]
fn when_invalid_json_provided_creates_wrong_command_instance() {
    assert_eq!(
        Command::Invalid { reason: String::from("malformed JSON") },
        parse_json_string(String::from("{daasdas}"))
    );
}

#[test]
fn find_command_with_line_end_behind_it() {
    assert_eq!(
        Command::FindImage { path: String::from("file.txt") },
        parse_json_string(String::from("{\"command\":\"find\",\"path\":\"file.txt\"}\n"))
    );
}

#[test]
fn empty_object_with_line_end_is_unknown_command() {
    assert_eq!(cp_unknown(), parse_json_string(String::from("{}\n")));
}

#[test]
fn resize_keeps_the_well_formed_size_only() {
    assert_eq!(
        Command::ResizeImage {
            source: String::from("a.jpg"),
            targets: vec![cp_target("a-100x200.jpg", 100, 200)],
        },
        parse_json_string(String::from(
            "{\"command\":\"resize\",\"source\":\"a.jpg\",\"sizes\":[[\"a-100x200.jpg\",100,200],[\"bad\",50]]}\n"
        ))
    );
    assert_eq!(
        Command::ResizeImage {
            source: String::from("a.jpg"),
            targets: vec![cp_target("a-100x200.jpg", 100, 200)],
        },
        parse_json_string(String::from(
            "{\"command\":\"resize\",\"source\":\"a.jpg\",\"sizes\":[[\"bad\",50],[\"a-100x200.jpg\",100,200]]}"
        ))
    );
}

#[test]
fn text_that_is_no_json_is_malformed() {
    let malformed = Command::Invalid { reason: String::from("malformed JSON") };
    assert_eq!(malformed, parse_json_string(String::from("")));
    assert_eq!(malformed, parse_json_string(String::from("{\"command\":\"find\"")));
    assert_eq!(malformed, parse_json_string(String::from("{} {}")));
}

#[test]
fn discriminator_is_the_member_named_command() {
    assert_eq!(
        cp_unknown(),
        parse_json_string(String::from("{\"type\":\"find\",\"path\":\"/path/to/file\"}"))
    );
    assert_eq!(cp_unknown(), parse_json_string(String::from("[\"find\"]")));
    assert_eq!(cp_unknown(), parse_json_string(String::from("\"find\"")));
    assert_eq!(
        cp_unknown(),
        parse_json_string(String::from("{\"command\":7,\"path\":\"x\"}"))
    );
    assert_eq!(
        cp_unknown(),
        parse_json_string(String::from("{\"command\":\"find\",\"path\":7}"))
    );
}

#[test]
fn resize_needs_a_source_and_takes_sizes_if_they_are_an_array() {
    assert_eq!(
        cp_unknown(),
        parse_json_string(String::from("{\"command\":\"resize\",\"sizes\":[]}"))
    );
    assert_eq!(
        cp_unknown(),
        parse_json_string(String::from("{\"command\":\"resize\",\"source\":1}"))
    );
    assert_eq!(
        Command::ResizeImage { source: String::from("a.jpg"), targets: vec![] },
        parse_json_string(String::from("{\"command\":\"resize\",\"source\":\"a.jpg\"}"))
    );
    assert_eq!(
        Command::ResizeImage { source: String::from("a.jpg"), targets: vec![] },
        parse_json_string(String::from(
            "{\"command\":\"resize\",\"source\":\"a.jpg\",\"sizes\":\"big\"}"
        ))
    );
}

#[test]
fn size_items_of_the_wrong_shape_are_none() {
    assert_eq!(
        Some(cp_target("a", 0, 0)),
        parse_size_item(&Json::Array(vec![cp_text("a"), cp_number(0), cp_number(0)]))
    );
    assert_eq!(
        None,
        parse_size_item(&Json::Array(vec![cp_text("a"), cp_number(1)]))
    );
    assert_eq!(
        None,
        parse_size_item(&Json::Array(vec![
            cp_text("a"),
            cp_number(1),
            cp_number(2),
            cp_number(3)
        ]))
    );
    assert_eq!(
        None,
        parse_size_item(&Json::Array(vec![cp_number(1), cp_number(1), cp_number(2)]))
    );
    assert_eq!(
        None,
        parse_size_item(&Json::Array(vec![cp_text("a"), cp_text("1"), cp_number(2)]))
    );
    assert_eq!(
        None,
        parse_size_item(&Json::Array(vec![
            cp_text("a"),
            cp_number(1),
            Json::Number(JsonNumber::Negative(-2))
        ]))
    );
    assert_eq!(
        None,
        parse_size_item(&Json::Array(vec![
            cp_text("a"),
            Json::Number(JsonNumber::Real(String::from("1.5"))),
            cp_number(2)
        ]))
    );
    assert_eq!(None, parse_size_item(&cp_text("a")));
    assert_eq!(None, parse_size_item(&Json::Null));
}

#[test]
fn dimensions_are_cut_to_32_bits() {
    assert_eq!(
        Some(cp_target("a", 4294967295, 1)),
        parse_size_item(&Json::Array(vec![
            cp_text("a"),
            cp_number(4294967295),
            cp_number(4294967297)
        ]))
    );
    assert_eq!(
        Some(cp_target("a", 0, 4294967295)),
        parse_size_item(&Json::Array(vec![
            cp_text("a"),
            cp_number(4294967296),
            cp_number(18446744073709551615)
        ]))
    );
}

#[test]
fn negative_and_fractional_sizes_are_dropped_from_text() {
    assert_eq!(
        Command::ResizeImage {
            source: String::from("a.jpg"),
            targets: vec![cp_target("ok", 1, 2)],
        },
        parse_json_string(String::from(
            "{\"command\":\"resize\",\"source\":\"a.jpg\",\"sizes\":[[\"n\",-1,2],[\"f\",1.5,2],[\"ok\",1,2],7,null]}"
        ))
    );
}

#[test]
fn size_tuple_is_a_string_and_two_unsigned_numbers() {
    assert!(is_size_tuple(&cp_text("a"), &cp_number(1), &cp_number(2)));
    assert!(!is_size_tuple(&cp_number(0), &cp_number(1), &cp_number(2)));
    assert!(!is_size_tuple(&cp_text("a"), &Json::Null, &cp_number(2)));
    assert!(!is_size_tuple(&cp_text("a"), &cp_number(1), &Json::Bool(true)));
}

#[test]
fn collects_sizes_in_their_order() {
    let json = cp_object(vec![
        ("command", cp_text("resize")),
        (
            "sizes",
            Json::Array(vec![
                Json::Array(vec![cp_text("one"), cp_number(1), cp_number(10)]),
                Json::Null,
                Json::Array(vec![cp_text("two"), cp_number(2), cp_number(20)]),
                Json::Array(vec![]),
                Json::Array(vec![cp_text("three"), cp_number(3), cp_number(30)]),
            ]),
        ),
    ]);
    assert_eq!(
        vec![cp_target("one", 1, 10), cp_target("two", 2, 20), cp_target("three", 3, 30)],
        collect_image_sizes_from_json(&json)
    );
    assert_eq!(
        Vec::<ImageTarget>::new(),
        collect_image_sizes_from_json(&Json::Array(vec![]))
    );
}

#[test]
fn first_member_of_a_name_counts() {
    let json = cp_object(vec![
        ("command", cp_text("find")),
        ("command", cp_text("resize")),
        ("path", cp_text("first")),
        ("path", cp_text("second")),
    ]);
    assert_eq!(
        Command::FindImage { path: String::from("first") },
        create_command_from_parsed_json_value(json)
    );
}
