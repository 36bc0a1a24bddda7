use rls::json::{object, parse, position, push_member, render, string, strings, JsonValue, Member};

fn member(key: &str, value: JsonValue) -> Member {
    Member { key: key.to_string(), value }
}

fn number(text: &str) -> JsonValue {
    JsonValue::Number(text.to_string())
}

#[test]
fn parse_reads_an_object() {
    let value = parse("{\"a\": 1, \"b\": [true, null, \"x\"]}").unwrap();
    let expected = JsonValue::Object(vec![
        member("a", number("1")),
        member(
            "b",
            JsonValue::Array(vec![
                JsonValue::Bool(true),
                JsonValue::Null,
                JsonValue::String("x".to_string()),
            ]),
        ),
    ]);
    assert_eq!(value, expected);
}

#[test]
fn parse_keeps_numbers_as_their_literals() {
    assert_eq!(parse("42"), Some(number("42")));
    assert_eq!(parse("-7"), Some(number("-7")));
    assert_eq!(parse("2.5"), Some(number("2.5")));
    assert_eq!(parse("18446744073709551615"), Some(number("18446744073709551615")));
}

#[test]
fn parse_keeps_one_value_for_a_key_that_stands_twice() {
    let value = parse("{\"a\": 1, \"a\": 2}").unwrap();
    assert_eq!(value, JsonValue::Object(vec![member("a", number("2"))]));
}

#[test]
fn parse_reads_nested_objects() {
    let value = parse("{\"outer\": {\"inner\": {}}}").unwrap();
    let expected = JsonValue::Object(vec![member(
        "outer",
        JsonValue::Object(vec![member("inner", JsonValue::Object(vec![]))]),
    )]);
    assert_eq!(value, expected);
}

#[test]
fn parse_refuses_what_is_not_json() {
    assert_eq!(parse("not json"), None);
    assert_eq!(parse(""), None);
    assert_eq!(parse("{\"a\": }"), None);
    assert_eq!(parse("[1, 2"), None);
}

#[test]
fn render_writes_compact_text() {
    let value = JsonValue::Object(vec![
        member("b", number("2.5")),
        member("a", JsonValue::String("x".to_string())),
    ]);
    assert_eq!(render(&value), "{\"a\":\"x\",\"b\":2.5}");
}

#[test]
fn render_writes_every_kind_of_value() {
    let value = JsonValue::Array(vec![
        JsonValue::Null,
        JsonValue::Bool(false),
        number("-3"),
        JsonValue::String("a\"b".to_string()),
        JsonValue::Array(vec![]),
        JsonValue::Object(vec![]),
    ]);
    assert_eq!(render(&value), "[null,false,-3,\"a\\\"b\",[],{}]");
}

#[test]
fn render_writes_null_for_a_number_that_is_none() {
    assert_eq!(render(&number("twelve")), "null");
}

#[test]
fn render_then_parse_gives_the_document_back() {
    let value = JsonValue::Object(vec![
        member("a", JsonValue::Array(vec![number("1"), number("2")])),
        member("b", JsonValue::Object(vec![member("c", JsonValue::Null)])),
    ]);
    assert_eq!(parse(&render(&value)), Some(value));
}

#[test]
fn get_finds_the_first_member_with_the_key() {
    let value = JsonValue::Object(vec![
        member("a", number("1")),
        member("b", number("2")),
        member("a", number("3")),
    ]);
    assert_eq!(value.get("a"), Some(&number("1")));
    assert_eq!(value.get("b"), Some(&number("2")));
    assert_eq!(value.get("c"), None);
}

#[test]
fn get_finds_nothing_in_what_is_no_object() {
    assert_eq!(JsonValue::Array(vec![number("1")]).get("0"), None);
    assert_eq!(JsonValue::Null.get("a"), None);
    assert_eq!(JsonValue::String("a".to_string()).get("a"), None);
}

#[test]
fn position_gives_the_index_of_the_first_match() {
    let members = vec![member("x", JsonValue::Null), member("y", JsonValue::Null), member("x", JsonValue::Null)];
    assert_eq!(position(&members, "x"), Some(0));
    assert_eq!(position(&members, "y"), Some(1));
    assert_eq!(position(&members, "z"), None);
    assert_eq!(position(&members, "X"), None);
    assert_eq!(position(&Vec::new(), "x"), None);
}

#[test]
fn duplicate_copies_the_whole_tree() {
    let value = parse("{\"a\": [1, {\"b\": \"c\"}, null], \"d\": true}").unwrap();
    assert_eq!(value.duplicate(), value);
}

#[test]
fn builders_make_what_they_say() {
    let mut members = Vec::new();
    push_member(&mut members, "name", string("x"));
    push_member(&mut members, "list", strings(&vec![".".to_string(), ":".to_string()]));
    let value = object(members);
    assert_eq!(render(&value), "{\"list\":[\".\",\":\"],\"name\":\"x\"}");
    assert_eq!(value.get("name"), Some(&JsonValue::String("x".to_string())));
}
