use openagent::extract::{
    contains_final_marker, extract_final_answer, extract_tool_call, parse_structured_call,
    reasoning_token, tool_call_from_json,
};
use openagent::json::JsonValue;
use openagent::tool::ToolCall;

fn object(entries: Vec<(&str, JsonValue)>) -> JsonValue {
    JsonValue::Object(entries.into_iter().map(|(k, v)| (k.to_string(), v)).collect())
}

fn text(s: &str) -> JsonValue {
    JsonValue::String(s.to_string())
}

fn search_call() -> ToolCall {
    ToolCall { name: "search".to_string(), args: object(vec![("q", text("x"))]) }
}

#[test]
fn tool_call_in_fenced_block() {
    let reasoning = "```json\n{\"tool\":\"search\",\"args\":{\"q\":\"x\"}}\n```";
    assert_eq!(extract_tool_call(reasoning), Some(search_call()));
}

#[test]
fn tool_call_in_fenced_block_after_prose() {
    let reasoning = "I should look this up.\n```json\n{\"tool\":\"search\",\"args\":{\"q\":\"x\"}}\n```\nThen go on.";
    assert_eq!(extract_tool_call(reasoning), Some(search_call()));
}

#[test]
fn tool_call_as_the_whole_text() {
    let reasoning = "  {\"tool\":\"search\",\"args\":{\"q\":\"x\"}}\n";
    assert_eq!(extract_tool_call(reasoning), Some(search_call()));
}

#[test]
fn tool_call_between_braces() {
    let reasoning = "Thought: search. {\"tool\":\"search\",\"args\":{\"q\":\"x\"}} done";
    assert_eq!(extract_tool_call(reasoning), Some(search_call()));
}

#[test]
fn tool_call_after_action_input() {
    let reasoning = "Thought: search\nAction: search\n  Action Input: {\"tool\":\"search\",\"args\":{\"q\":\"x\"}} \nObservation: }";
    assert_eq!(extract_tool_call(reasoning), Some(search_call()));
}

#[test]
fn tool_call_without_args_has_null_args() {
    assert_eq!(
        extract_tool_call("{\"tool\":\"now\"}"),
        Some(ToolCall { name: "now".to_string(), args: JsonValue::Null })
    );
}

#[test]
fn no_json_and_no_action_input_is_no_tool_call() {
    assert_eq!(extract_tool_call("I will think about this a little more."), None);
    assert_eq!(extract_tool_call(""), None);
    assert_eq!(extract_tool_call("   \n  "), None);
}

#[test]
fn json_without_a_tool_is_no_tool_call() {
    assert_eq!(extract_tool_call("{\"args\":{\"q\":\"x\"}}"), None);
    assert_eq!(extract_tool_call("{\"tool\":7,\"args\":{}}"), None);
    assert_eq!(extract_tool_call("[1, 2, 3]"), None);
    assert_eq!(extract_tool_call("42"), None);
    assert_eq!(extract_tool_call("Action Input: not json"), None);
}

#[test]
fn closing_brace_before_opening_brace_is_no_tool_call() {
    assert_eq!(extract_tool_call("} and then {"), None);
}

#[test]
fn first_candidate_that_stands_for_a_call_wins() {
    let reasoning = "{\"note\": 1}\n```json\n{\"tool\":\"a\"}\n```\nAction Input: {\"tool\":\"b\"}";
    assert_eq!(
        extract_tool_call(reasoning),
        Some(ToolCall { name: "a".to_string(), args: JsonValue::Null })
    );
}

#[test]
fn tool_call_from_a_value() {
    let value = object(vec![("tool", text("search")), ("args", object(vec![("q", text("x"))]))]);
    assert_eq!(tool_call_from_json(&value), Some(search_call()));
    assert_eq!(tool_call_from_json(&JsonValue::Null), None);
    assert_eq!(tool_call_from_json(&object(vec![("tool", JsonValue::Bool(true))])), None);
}

#[test]
fn final_answer_is_what_follows_the_marker() {
    assert_eq!(extract_final_answer("... Final Answer: 42"), Some("42".to_string()));
    assert_eq!(extract_final_answer("FINAL ANSWER:   yes \n"), Some("yes".to_string()));
    assert_eq!(
        extract_final_answer("final answer: a\nfinal answer: b"),
        Some("a\nfinal answer: b".to_string())
    );
    assert_eq!(extract_final_answer("Final Answer:"), None);
    assert_eq!(extract_final_answer("Final Answer:   \n"), None);
    assert_eq!(extract_final_answer("Final Answer 42"), None);
    assert_eq!(extract_final_answer("no marker here"), None);
}

#[test]
fn final_answer_after_text_that_is_not_ascii() {
    assert_eq!(extract_final_answer("\u{130}stanbul \u{1e9e} Final Answer: \u{e9}"), Some("\u{e9}".to_string()));
}

#[test]
fn final_marker_in_any_case() {
    assert!(contains_final_marker("so the FiNaL aNsWeR: is"));
    assert!(contains_final_marker("final answer:"));
    assert!(!contains_final_marker("final answer"));
    assert!(!contains_final_marker("final  answer:"));
    assert!(!contains_final_marker(""));
}

#[test]
fn reasoning_token_is_the_delta_content() {
    assert_eq!(
        reasoning_token("{\"choices\":[{\"delta\":{\"content\":\"Hel\"}}]}"),
        Some("Hel".to_string())
    );
    assert_eq!(reasoning_token("{\"choices\":[{\"delta\":{}}]}"), None);
    assert_eq!(reasoning_token("{\"choices\":[]}"), None);
    assert_eq!(reasoning_token("{\"choices\":[{\"delta\":{\"content\":null}}]}"), None);
    assert_eq!(reasoning_token("not json"), None);
}

#[test]
fn structured_tool_call_is_read() {
    let response = JsonValue::parse(
        "{\"choices\":[{\"message\":{\"tool_calls\":[{\"function\":{\"name\":\"search\",\"arguments\":\"{\\\"q\\\":\\\"x\\\"}\"}}]}}]}",
    )
    .unwrap();
    assert_eq!(parse_structured_call(&response), Some(search_call()));
}

#[test]
fn structured_tool_call_needs_every_part() {
    for body in [
        "{}",
        "{\"choices\":[]}",
        "{\"choices\":[{\"message\":{}}]}",
        "{\"choices\":[{\"message\":{\"tool_calls\":[]}}]}",
        "{\"choices\":[{\"message\":{\"tool_calls\":\"none\"}}]}",
        "{\"choices\":[{\"message\":{\"tool_calls\":[{\"function\":{\"name\":\"search\"}}]}}]}",
        "{\"choices\":[{\"message\":{\"tool_calls\":[{\"function\":{\"name\":\"search\",\"arguments\":\"not json\"}}]}}]}",
        "{\"choices\":[{\"message\":{\"tool_calls\":[{\"function\":{\"name\":1,\"arguments\":\"{}\"}}]}}]}",
    ] {
        let response = JsonValue::parse(body).unwrap();
        assert_eq!(parse_structured_call(&response), None, "{body}");
    }
}
