use openagent::json::JsonValue;

#[test]
fn parse_reads_every_kind_of_value() {
    assert_eq!(JsonValue::parse("null"), Some(JsonValue::Null));
    assert_eq!(JsonValue::parse(" true "), Some(JsonValue::Bool(true)));
    assert_eq!(JsonValue::parse("12"), Some(JsonValue::Number("12".to_string())));
    assert_eq!(JsonValue::parse("-3"), Some(JsonValue::Number("-3".to_string())));
    assert_eq!(JsonValue::parse("1.5"), Some(JsonValue::Number("1.5".to_string())));
    assert_eq!(JsonValue::parse("\"a\\nb\""), Some(JsonValue::String("a\nb".to_string())));
    assert_eq!(
        JsonValue::parse("[1, \"x\"]"),
        Some(JsonValue::Array(vec![
            JsonValue::Number("1".to_string()),
            JsonValue::String("x".to_string())
        ]))
    );
    assert_eq!(
        JsonValue::parse("{\"b\": null, \"a\": false}"),
        Some(JsonValue::Object(vec![
            ("a".to_string(), JsonValue::Bool(false)),
            ("b".to_string(), JsonValue::Null)
        ]))
    );
}

#[test]
fn parse_refuses_what_is_not_json() {
    assert_eq!(JsonValue::parse(""), None);
    assert_eq!(JsonValue::parse("{"), None);
    assert_eq!(JsonValue::parse("{\"a\": 1} trailing"), None);
    assert_eq!(JsonValue::parse("'single'"), None);
}

#[test]
fn render_writes_compact_text() {
    let value = JsonValue::Object(vec![
        ("q".to_string(), JsonValue::String("a \"b\"".to_string())),
        ("n".to_string(), JsonValue::Number("2.50".to_string())),
        ("list".to_string(), JsonValue::Array(vec![JsonValue::Null, JsonValue::Bool(true)])),
    ]);
    assert_eq!(value.render(), "{\"list\":[null,true],\"n\":2.5,\"q\":\"a \\\"b\\\"\"}");
    assert_eq!(JsonValue::String("x".to_string()).render(), "\"x\"");
    assert_eq!(JsonValue::Null.render(), "null");
}

#[test]
fn render_of_a_malformed_number_is_null() {
    assert_eq!(JsonValue::Number("twelve".to_string()).render(), "null");
}

#[test]
fn render_then_parse_gives_the_value_back() {
    let text = "{\"a\":[1,2,{\"b\":\"c\"}],\"d\":null}";
    let value = JsonValue::parse(text).unwrap();
    assert_eq!(value.render(), text);
}

#[test]
fn get_finds_the_member() {
    let value = JsonValue::parse("{\"tool\":\"search\",\"args\":{\"q\":\"x\"}}").unwrap();
    assert_eq!(value.get("tool"), Some(&JsonValue::String("search".to_string())));
    assert_eq!(value.get("args").unwrap().render(), "{\"q\":\"x\"}");
    assert_eq!(value.get("missing"), None);
    assert_eq!(JsonValue::Null.get("tool"), None);
    assert_eq!(JsonValue::Array(vec![]).get("tool"), None);
}

#[test]
fn get_takes_the_later_of_two_entries() {
    let value = JsonValue::Object(vec![
        ("k".to_string(), JsonValue::Bool(false)),
        ("k".to_string(), JsonValue::Bool(true)),
    ]);
    assert_eq!(value.get("k"), Some(&JsonValue::Bool(true)));
    assert_eq!(value.render(), "{\"k\":true}");
}

#[test]
fn at_finds_the_element() {
    let value = JsonValue::parse("[10, 20]").unwrap();
    assert_eq!(value.at(1), Some(&JsonValue::Number("20".to_string())));
    assert_eq!(value.at(2), None);
    assert_eq!(JsonValue::Null.at(0), None);
}

#[test]
fn as_str_gives_the_text_of_a_string() {
    assert_eq!(JsonValue::String("x".to_string()).as_str(), Some("x"));
    assert_eq!(JsonValue::Number("1".to_string()).as_str(), None);
    assert_eq!(JsonValue::Null.as_str(), None);
}

#[test]
fn clone_copies_the_whole_value() {
    let value = JsonValue::parse("{\"a\":[1,{\"b\":[true,null,\"s\"]}]}").unwrap();
    assert_eq!(value.clone(), value);
    assert_eq!(value.duplicate(), value);
}
