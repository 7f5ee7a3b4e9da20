//! What the agent reads out of a reasoning text: the final answer, a
//! request to call a tool, and the tokens of a streamed completion.

use crate::json::{element, field, json_parse, text_of, Json, JsonValue};
use crate::text::{
    find, find_from, first_match, first_match_from, from_chars, has_prefix, last_index_of,
    lowered, rfind_char, slice, starts_with, text_view, to_chars, to_lower, trim, trimmed,
};
use crate::tool::{ToolCall, ToolCallView};
use vstd::prelude::*;

verus! {

/// The view of an optional tool call.
pub open spec fn call_view(call: Option<ToolCall>) -> Option<ToolCallView> {
    match call {
        Some(c) => Some(c@),
        None => None,
    }
}

/// Whether `text` holds the marker of a final answer, in any mix of upper
/// and lower case.
pub open spec fn has_final_marker(text: Seq<char>) -> bool {
    first_match(lowered(text), "final answer:"@) is Some
}

/// The final answer that `text` gives: what follows the first marker,
/// trimmed, unless nothing is left of it.
pub open spec fn final_answer(text: Seq<char>) -> Option<Seq<char>> {
    match first_match(lowered(text), "final answer:"@) {
        Some(pos) => {
            let answer = trimmed(text.skip(pos + "final answer:"@.len()));
            if answer.len() > 0 {
                Some(answer)
            } else {
                None
            }
        },
        None => None,
    }
}

/// Whether `text` holds the marker of a final answer.
pub fn contains_final_marker(text: &str) -> (b: bool)
    ensures
        b == has_final_marker(text@),
{
    let lower = to_lower(&to_chars(text));
    let marker = to_chars("final answer:");
    find(&lower, &marker).is_some()
}

/// The final answer that `text` gives.
pub fn extract_final_answer(text: &str) -> (answer: Option<String>)
    ensures
        text_view(answer) == final_answer(text@),
{
    let chars = to_chars(text);
    let n = chars.len();
    let lower = to_lower(&chars);
    let marker = to_chars("final answer:");
    assert(lower@.len() == n);
    match find(&lower, &marker) {
        Some(pos) => {
            let answer = trim(&slice(&chars, pos + marker.len(), n));
            if answer.len() > 0 {
                Some(from_chars(&answer))
            } else {
                None
            }
        },
        None => None,
    }
}

/// The tool call that a JSON value stands for: an object whose member `tool`
/// is a string names the tool, and its member `args`, or null where it has
/// none, holds the arguments.
pub open spec fn tool_call_of(value: Json) -> Option<ToolCallView> {
    match field(value, "tool"@) {
        Some(Json::String(name)) => Some(
            ToolCallView {
                name,
                args: match field(value, "args"@) {
                    Some(args) => args,
                    None => Json::Null,
                },
            },
        ),
        _ => None,
    }
}

/// The tool call that `value` stands for.
pub fn tool_call_from_json(value: &JsonValue) -> (call: Option<ToolCall>)
    ensures
        call_view(call) == tool_call_of(value@),
{
    let name = match value.get("tool") {
        Some(tool) => match tool.as_str() {
            Some(name) => name.to_owned(),
            None => {
                return None;
            },
        },
        None => {
            return None;
        },
    };
    let args = match value.get("args") {
        Some(args) => args.clone(),
        None => JsonValue::Null,
    };
    Some(ToolCall { name, args })
}

/// The tool call that the text `candidate` stands for: none where it is
/// empty or is not read as JSON.
pub open spec fn candidate_call(candidate: Seq<char>) -> Option<ToolCallView> {
    if candidate.len() == 0 {
        None
    } else {
        match json_parse(candidate) {
            Some(value) => tool_call_of(value),
            None => None,
        }
    }
}

/// The tool call that the text `candidate` stands for.
pub fn call_in_candidate(candidate: &Vec<char>) -> (call: Option<ToolCall>)
    ensures
        call_view(call) == candidate_call(candidate@),
{
    if candidate.len() == 0 {
        return None;
    }
    let text = from_chars(candidate);
    match JsonValue::parse(text.as_str()) {
        Some(value) => tool_call_from_json(&value),
        None => None,
    }
}

/// What stands in `s` before the first `pat`; all of `s` where there is
/// none.
pub open spec fn before_first(s: Seq<char>, pat: Seq<char>) -> Seq<char> {
    match first_match(s, pat) {
        Some(i) => s.take(i),
        None => s,
    }
}

/// What stands in `v` before the first `pat`.
pub fn take_before(v: &Vec<char>, pat: &Vec<char>) -> (r: Vec<char>)
    ensures
        r@ == before_first(v@, pat@),
{
    match find(v, pat) {
        Some(i) => slice(v, 0, i),
        None => {
            let r = slice(v, 0, v.len());
            assert(v@.subrange(0, v@.len() as int) =~= v@);
            r
        },
    }
}

/// The second of the pieces into which `pat` cuts `s`: what stands between
/// the first `pat` and the next one. Nothing where `s` holds no `pat`.
pub open spec fn second_piece(s: Seq<char>, pat: Seq<char>) -> Option<Seq<char>> {
    match first_match(s, pat) {
        Some(i) => Some(before_first(s.skip(i + pat.len()), pat)),
        None => None,
    }
}

/// The second of the pieces into which `pat` cuts `v`.
pub fn take_second_piece(v: &Vec<char>, pat: &Vec<char>) -> (r: Option<Vec<char>>)
    ensures
        r is Some <==> second_piece(v@, pat@) is Some,
        r matches Some(piece) ==> second_piece(v@, pat@) == Some(piece@),
{
    let n = v.len();
    match find(v, pat) {
        Some(i) => {
            let rest = slice(v, i + pat.len(), n);
            Some(take_before(&rest, pat))
        },
        None => None,
    }
}

/// The first candidate: the whole text, trimmed.
pub open spec fn whole_candidate(text: Seq<char>) -> Seq<char> {
    trimmed(text)
}

/// The second candidate: the content of the first block fenced as JSON,
/// trimmed. Empty where the text has no such fence.
pub open spec fn fenced_candidate(text: Seq<char>) -> Seq<char> {
    match second_piece(text, "```json"@) {
        Some(piece) => trimmed(before_first(piece, "```"@)),
        None => Seq::empty(),
    }
}

/// The third candidate: the text from the first opening brace to the last
/// closing brace. Empty where one of them is missing or the closing brace
/// stands first.
pub open spec fn braced_candidate(text: Seq<char>) -> Seq<char> {
    match (first_match(text, seq!['{']), last_index_of(text, '}', text.len() as int)) {
        (Some(open), Some(close)) => if open <= close {
            text.subrange(open, close + 1)
        } else {
            Seq::empty()
        },
        _ => Seq::empty(),
    }
}

/// The end of the line that begins at `start`: the index of the next line
/// feed, or the end of the text.
pub open spec fn line_end(text: Seq<char>, start: int) -> int {
    match first_match_from(text, seq!['\n'], start) {
        Some(i) => i,
        None => text.len() as int,
    }
}

/// Whether a line gives the input of an action: trimmed, it begins with
/// `Action Input:`.
pub open spec fn is_action_line(line: Seq<char>) -> bool {
    has_prefix(trimmed(line), "Action Input:"@)
}

/// The first line at or after `start` that gives the input of an action.
/// `start` is the beginning of a line.
pub open spec fn first_action_line(text: Seq<char>, start: int) -> Option<Seq<char>>
    decreases text.len() - start,
{
    if start < 0 || start > text.len() {
        None
    } else {
        let end = line_end(text, start);
        if end < start || end > text.len() {
            None
        } else if is_action_line(text.subrange(start, end)) {
            Some(text.subrange(start, end))
        } else if end >= text.len() {
            None
        } else {
            first_action_line(text, end + 1)
        }
    }
}

/// The fourth candidate: what follows `Action Input:` in the first line that
/// begins with it, up to the next `Action Input:` in that line, trimmed.
/// Empty where the text has no such line.
pub open spec fn action_candidate(text: Seq<char>) -> Seq<char> {
    match first_action_line(text, 0) {
        Some(line) => match second_piece(line, "Action Input:"@) {
            Some(piece) => trimmed(piece),
            None => Seq::empty(),
        },
        None => Seq::empty(),
    }
}

/// The tool call that a reasoning text asks for: that of the first of its
/// four candidates that stands for one.
pub open spec fn extracted_call(text: Seq<char>) -> Option<ToolCallView> {
    if candidate_call(whole_candidate(text)) is Some {
        candidate_call(whole_candidate(text))
    } else if candidate_call(fenced_candidate(text)) is Some {
        candidate_call(fenced_candidate(text))
    } else if candidate_call(braced_candidate(text)) is Some {
        candidate_call(braced_candidate(text))
    } else {
        candidate_call(action_candidate(text))
    }
}

/// The second candidate of `text`.
pub fn fenced_text(text: &Vec<char>) -> (r: Vec<char>)
    ensures
        r@ == fenced_candidate(text@),
{
    let fence = to_chars("```json");
    let ticks = to_chars("```");
    match take_second_piece(text, &fence) {
        Some(piece) => trim(&take_before(&piece, &ticks)),
        None => Vec::new(),
    }
}

/// The third candidate of `text`.
pub fn braced_text(text: &Vec<char>) -> (r: Vec<char>)
    ensures
        r@ == braced_candidate(text@),
{
    let mut brace: Vec<char> = Vec::new();
    brace.push('{');
    assert(brace@ =~= seq!['{']);
    let n = text.len();
    match find(text, &brace) {
        Some(open) => match rfind_char(text, '}') {
            Some(close) => if open <= close {
                slice(text, open, close + 1)
            } else {
                Vec::new()
            },
            None => Vec::new(),
        },
        None => Vec::new(),
    }
}

/// The first line of `text` at or after `start` that gives the input of an
/// action.
pub fn find_action_line(text: &Vec<char>, start: usize) -> (r: Option<Vec<char>>)
    requires
        start <= text.len(),
    ensures
        r is Some <==> first_action_line(text@, start as int) is Some,
        r matches Some(line) ==> first_action_line(text@, start as int) == Some(line@),
{
    let marker = to_chars("Action Input:");
    let mut feed: Vec<char> = Vec::new();
    feed.push('\n');
    assert(feed@ =~= seq!['\n']);
    let mut at: usize = start;
    loop
        invariant
            at <= text.len(),
            marker@ == "Action Input:"@,
            feed@ == seq!['\n'],
            first_action_line(text@, start as int) == first_action_line(text@, at as int),
        decreases text.len() - at,
    {
        let end = match find_from(text, &feed, at) {
            Some(i) => i,
            None => text.len(),
        };
        let line = slice(text, at, end);
        if starts_with(&trim(&line), &marker) {
            return Some(line);
        }
        if end >= text.len() {
            return None;
        }
        at = end + 1;
    }
}

/// The fourth candidate of `text`.
pub fn action_text(text: &Vec<char>) -> (r: Vec<char>)
    ensures
        r@ == action_candidate(text@),
{
    let marker = to_chars("Action Input:");
    match find_action_line(text, 0) {
        Some(line) => match take_second_piece(&line, &marker) {
            Some(piece) => trim(&piece),
            None => Vec::new(),
        },
        None => Vec::new(),
    }
}

/// The tool call that the reasoning text `output` asks for.
pub fn extract_tool_call(output: &str) -> (call: Option<ToolCall>)
    ensures
        call_view(call) == extracted_call(output@),
{
    let text = to_chars(output);
    let whole = call_in_candidate(&trim(&text));
    if whole.is_some() {
        return whole;
    }
    let fenced = call_in_candidate(&fenced_text(&text));
    if fenced.is_some() {
        return fenced;
    }
    let braced = call_in_candidate(&braced_text(&text));
    if braced.is_some() {
        return braced;
    }
    call_in_candidate(&action_text(&text))
}

/// The member `key` of the object that `value` holds, if it holds one.
pub open spec fn then_field(value: Option<Json>, key: Seq<char>) -> Option<Json> {
    match value {
        Some(v) => field(v, key),
        None => None,
    }
}

/// The element `index` of the array that `value` holds, if it holds one.
pub open spec fn then_element(value: Option<Json>, index: int) -> Option<Json> {
    match value {
        Some(v) => element(v, index),
        None => None,
    }
}

/// The text of the string that `value` holds, if it holds one.
pub open spec fn then_text(value: Option<Json>) -> Option<Seq<char>> {
    match value {
        Some(v) => text_of(v),
        None => None,
    }
}

/// The member `key` of the object that `value` holds.
pub fn get_then<'a>(value: Option<&'a JsonValue>, key: &str) -> (r: Option<&'a JsonValue>)
    ensures
        r is Some <==> then_field(json_view(value), key@) is Some,
        r matches Some(v) ==> then_field(json_view(value), key@) == Some(v@),
{
    match value {
        Some(v) => v.get(key),
        None => None,
    }
}

/// The view of an optional JSON value.
pub open spec fn json_view(value: Option<&JsonValue>) -> Option<Json> {
    match value {
        Some(v) => Some(v@),
        None => None,
    }
}

/// The token that a chunk of a streamed completion carries: the text at
/// `choices[0].delta.content`.
pub open spec fn token_in(chunk: Json) -> Option<Seq<char>> {
    then_text(
        then_field(
            then_field(then_element(field(chunk, "choices"@), 0), "delta"@),
            "content"@,
        ),
    )
}

/// The token that the payload `data` carries: none where it is not read as
/// JSON.
pub open spec fn reasoning_token_of(data: Seq<char>) -> Option<Seq<char>> {
    match json_parse(data) {
        Some(chunk) => token_in(chunk),
        None => None,
    }
}

/// The token that the chunk `chunk` carries.
pub fn token_from_chunk(chunk: &JsonValue) -> (token: Option<String>)
    ensures
        text_view(token) == token_in(chunk@),
{
    let first = match chunk.get("choices") {
        Some(choices) => choices.at(0),
        None => None,
    };
    let content = get_then(get_then(first, "delta"), "content");
    match content {
        Some(value) => match value.as_str() {
            Some(text) => Some(text.to_owned()),
            None => None,
        },
        None => None,
    }
}

/// The token that the payload `data` of a streamed completion carries.
pub fn reasoning_token(data: &str) -> (token: Option<String>)
    ensures
        text_view(token) == reasoning_token_of(data@),
{
    match JsonValue::parse(data) {
        Some(chunk) => token_from_chunk(&chunk),
        None => None,
    }
}

/// The tool calls that the text of a completion asks for: the one in
/// structured form where the text is JSON and holds one, else the one that
/// the text asks for as a reasoning text does; none where it asks for none.
pub open spec fn calls_in_completion(text: Seq<char>) -> Seq<ToolCallView> {
    let structured = match json_parse(text) {
        Some(response) => structured_call(response),
        None => None,
    };
    match structured {
        Some(call) => seq![call],
        None => match extracted_call(text) {
            Some(call) => seq![call],
            None => Seq::empty(),
        },
    }
}

/// The contents of tool calls.
pub open spec fn calls_view(calls: Seq<ToolCall>) -> Seq<ToolCallView> {
    Seq::new(calls.len(), |i: int| calls[i]@)
}

/// The tool calls that the text of a completion asks for.
pub fn tool_calls_in_completion(text: &str) -> (calls: Vec<ToolCall>)
    ensures
        calls_view(calls@) == calls_in_completion(text@),
{
    let structured = match JsonValue::parse(text) {
        Some(response) => parse_structured_call(&response),
        None => None,
    };
    let found = match structured {
        Some(call) => Some(call),
        None => extract_tool_call(text),
    };
    let mut calls: Vec<ToolCall> = Vec::new();
    match found {
        Some(call) => {
            calls.push(call);
            assert(calls_view(calls@) =~= seq![call@]);
        },
        None => {
            assert(calls_view(calls@) =~= Seq::empty());
        },
    }
    calls
}

/// The tool call that a completion asks for in structured form: the first
/// entry of `choices[0].message.tool_calls` names the function and gives its
/// arguments as JSON text, here read by `json_parse`.
pub open spec fn structured_call(response: Json) -> Option<ToolCallView> {
    let calls = then_field(
        then_field(then_element(field(response, "choices"@), 0), "message"@),
        "tool_calls"@,
    );
    let function = then_field(then_element(calls, 0), "function"@);
    let name = then_text(then_field(function, "name"@));
    let arguments = then_text(then_field(function, "arguments"@));
    match (name, arguments) {
        (Some(name), Some(arguments)) => match json_parse(arguments) {
            Some(args) => Some(ToolCallView { name, args }),
            None => None,
        },
        _ => None,
    }
}

/// The tool call that the completion `response` asks for in structured
/// form.
pub fn parse_structured_call(response: &JsonValue) -> (call: Option<ToolCall>)
    ensures
        call_view(call) == structured_call(response@),
{
    let first = match response.get("choices") {
        Some(choices) => choices.at(0),
        None => None,
    };
    let calls = get_then(get_then(first, "message"), "tool_calls");
    let head = match calls {
        Some(list) => list.at(0),
        None => None,
    };
    let function = get_then(head, "function");
    let name = match get_then(function, "name") {
        Some(value) => value.as_str(),
        None => None,
    };
    let arguments = match get_then(function, "arguments") {
        Some(value) => value.as_str(),
        None => None,
    };
    match (name, arguments) {
        (Some(name), Some(arguments)) => match JsonValue::parse(arguments) {
            Some(args) => Some(ToolCall { name: name.to_owned(), args }),
            None => None,
        },
        _ => None,
    }
}

/// A text of which no candidate is read as a JSON object asks for no tool
/// call.
pub proof fn law_no_object_no_call(text: Seq<char>)
    requires
        !(json_parse(whole_candidate(text)) matches Some(v) && v is Object),
        !(json_parse(fenced_candidate(text)) matches Some(v) && v is Object),
        !(json_parse(braced_candidate(text)) matches Some(v) && v is Object),
        !(json_parse(action_candidate(text)) matches Some(v) && v is Object),
    ensures
        extracted_call(text) is None,
{
}

/// A text without a brace, without the fence of a JSON block and without a
/// line that gives the input of an action has one candidate only, the
/// whole text: the other three are empty, and so stand for no tool call.
pub proof fn law_plain_text_has_one_candidate(text: Seq<char>)
    requires
        first_match(text, seq!['{']) is None,
        first_match(text, "```json"@) is None,
        first_action_line(text, 0) is None,
    ensures
        fenced_candidate(text).len() == 0,
        braced_candidate(text).len() == 0,
        action_candidate(text).len() == 0,
        extracted_call(text) == candidate_call(whole_candidate(text)),
{
}

} // verus!
