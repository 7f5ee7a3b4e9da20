use std::cell::RefCell;

use openagent::error::Error;
use openagent::http::{EventHandler, SseOptions};
use openagent::sse::{parse_line, Field, Sse, SseAction, SseStep};

/// A handler that notes every call and fails where it is told to.
struct Recorder {
    calls: RefCell<Vec<String>>,
    fail_event: bool,
    fail_data: bool,
    fail_unexpected: bool,
}

impl Recorder {
    fn new() -> Recorder {
        Recorder {
            calls: RefCell::new(Vec::new()),
            fail_event: false,
            fail_data: false,
            fail_unexpected: false,
        }
    }
}

impl EventHandler for Recorder {
    type Event = String;

    fn handle_event(&self, event: &str) -> Result<(), Error> {
        self.calls.borrow_mut().push(format!("event:{event}"));
        if self.fail_event {
            Err(Error::any("event refused".to_string()))
        } else {
            Ok(())
        }
    }

    fn handle_data(&self, data: String) -> Result<String, Error> {
        self.calls.borrow_mut().push(format!("data:{data}"));
        if self.fail_data {
            Err(Error::any("data refused".to_string()))
        } else {
            Ok(data)
        }
    }

    fn handle_unexpected(&self, unexpected: String) -> Result<(), Error> {
        self.calls.borrow_mut().push(format!("unexpected:{unexpected}"));
        if self.fail_unexpected {
            Err(Error::any(unexpected))
        } else {
            Ok(())
        }
    }
}

fn lines(text: &[&str]) -> Vec<String> {
    text.iter().map(|l| l.to_string()).collect()
}

#[test]
fn one_event_per_record_with_joined_data() {
    let mut sse = Sse::new(SseOptions::new(()));
    let items = sse.decode(&lines(&["data: first", "data: second", "", "data: third", ""]));
    assert_eq!(items, vec![Ok("first\nsecond".to_string()), Ok("third".to_string())]);
    assert!(sse.ended);
    assert_eq!(sse.data, "");
}

#[test]
fn record_without_blank_line_is_not_delivered() {
    let mut sse = Sse::new(SseOptions::new(()));
    let items = sse.decode(&lines(&["data: pending"]));
    assert_eq!(items, Vec::<Result<String, Error>>::new());
    assert_eq!(sse.data, "pending");
}

#[test]
fn blank_lines_without_payload_bring_nothing() {
    let mut sse = Sse::new(SseOptions::new(()));
    assert_eq!(sse.on_line(""), SseStep::Continue);
    assert_eq!(sse.on_line("   "), SseStep::Continue);
    assert_eq!(sse.on_line("\t"), SseStep::Continue);
}

#[test]
fn done_ends_the_sequence_without_flush() {
    let mut sse = Sse::new(SseOptions::new(Recorder::new()));
    let items = sse.decode(&lines(&["data: partial", "data: [DONE]", "data: later", "", "stray"]));
    assert_eq!(items, Vec::<Result<String, Error>>::new());
    assert!(sse.ended);
    assert_eq!(sse.data, "partial");
    assert_eq!(sse.unexpected, "");
    assert!(sse.options.event_handler.calls.borrow().is_empty());
}

#[test]
fn done_after_a_record_keeps_the_record() {
    let mut sse = Sse::new(SseOptions::new(()));
    let items = sse.decode(&lines(&["data: one", "", "data: [DONE]", "data: two", ""]));
    assert_eq!(items, vec![Ok("one".to_string())]);
}

#[test]
fn nothing_comes_after_the_end() {
    let mut sse = Sse::new(SseOptions::new(()));
    assert_eq!(sse.on_line("data: [DONE]"), SseStep::End);
    assert_eq!(sse.on_line("data: x"), SseStep::End);
    assert_eq!(sse.on_line(""), SseStep::End);
    assert_eq!(sse.on_end(), None);
    assert_eq!(sse.data, "");
}

#[test]
fn comment_changes_nothing() {
    let mut sse = Sse::new(SseOptions::new(()));
    sse.absorb("data: kept");
    sse.absorb("event: kind");
    sse.absorb("id: 7");
    assert_eq!(sse.absorb(": a comment"), SseAction::Next);
    assert_eq!(sse.absorb(":data: not data"), SseAction::Next);
    assert_eq!(sse.absorb(":"), SseAction::Next);
    assert_eq!(sse.data, "kept");
    assert_eq!(sse.last_event, (Some("kind".to_string()), Some("7".to_string())));
    assert_eq!(sse.unexpected, "");
    assert!(!sse.ended);
}

#[test]
fn id_persists_across_records() {
    let mut sse = Sse::new(SseOptions::new(()));
    sse.on_line("id: 41");
    sse.on_line("event: update");
    sse.on_line("data: x");
    assert_eq!(sse.on_line(""), SseStep::Item(Ok("x".to_string())));
    assert_eq!(sse.last_event, (None, Some("41".to_string())));
    sse.on_line("event: other");
    sse.on_line("data: y");
    assert_eq!(sse.on_line(""), SseStep::Item(Ok("y".to_string())));
    assert_eq!(sse.last_event, (None, Some("41".to_string())));
    sse.on_line("id: 42");
    assert_eq!(sse.last_event.1, Some("42".to_string()));
}

#[test]
fn resume_starts_with_the_given_id() {
    let sse = Sse::resume(SseOptions::new(()), Some("99".to_string()));
    assert_eq!(sse.last_event, (None, Some("99".to_string())));
    assert_eq!(sse.data, "");
    assert!(!sse.ended);
}

#[test]
fn unexpected_content_is_flushed_once_at_the_end() {
    let mut sse = Sse::new(SseOptions::new(Recorder::new()));
    let items = sse.decode(&lines(&["{\"error\":", "", "\"boom\"}"]));
    assert_eq!(items, Vec::<Result<String, Error>>::new());
    assert_eq!(
        *sse.options.event_handler.calls.borrow(),
        vec!["unexpected:{\"error\":\n\"boom\"}".to_string()]
    );
    assert_eq!(sse.on_end(), None);
    assert_eq!(sse.options.event_handler.calls.borrow().len(), 1);
}

#[test]
fn unexpected_error_is_the_last_item() {
    let mut handler = Recorder::new();
    handler.fail_unexpected = true;
    let mut sse = Sse::new(SseOptions::new(handler));
    let items = sse.decode(&lines(&["data: ok", "", "not a field"]));
    assert_eq!(
        items,
        vec![Ok("ok".to_string()), Err(Error::Any("not a field".to_string()))]
    );
}

#[test]
fn finish_hands_out_the_unexpected_content() {
    let mut sse = Sse::new(SseOptions::new(()));
    sse.absorb("first");
    sse.absorb("  second  ");
    assert_eq!(sse.finish(), Some("first\nsecond".to_string()));
    assert_eq!(sse.finish(), None);
    assert!(sse.ended);
}

#[test]
fn event_field_is_announced() {
    let mut sse = Sse::new(SseOptions::new(Recorder::new()));
    assert_eq!(sse.on_line("event: ping"), SseStep::Continue);
    assert_eq!(sse.last_event.0, Some("ping".to_string()));
    assert_eq!(*sse.options.event_handler.calls.borrow(), vec!["event:ping".to_string()]);
}

#[test]
fn event_field_is_dropped_on_request() {
    let mut sse = Sse::new(SseOptions::new(Recorder::new()).drop_event(true));
    assert_eq!(sse.on_line("event: ping"), SseStep::Continue);
    assert_eq!(sse.last_event.0, None);
    assert!(sse.options.event_handler.calls.borrow().is_empty());
}

#[test]
fn event_error_ends_the_sequence() {
    let mut handler = Recorder::new();
    handler.fail_event = true;
    let mut sse = Sse::new(SseOptions::new(handler));
    let items = sse.decode(&lines(&["event: bad", "data: never", ""]));
    assert_eq!(items, vec![Err(Error::Any("event refused".to_string()))]);
    assert!(sse.ended);
    assert_eq!(*sse.options.event_handler.calls.borrow(), vec!["event:bad".to_string()]);
}

#[test]
fn data_error_ends_the_sequence() {
    let mut handler = Recorder::new();
    handler.fail_data = true;
    let mut sse = Sse::new(SseOptions::new(handler));
    let items = sse.decode(&lines(&["data: a", "", "data: b", ""]));
    assert_eq!(items, vec![Err(Error::Any("data refused".to_string()))]);
    assert_eq!(*sse.options.event_handler.calls.borrow(), vec!["data:a".to_string()]);
}

#[test]
fn transport_failure_is_the_last_item() {
    let mut sse = Sse::new(SseOptions::new(()));
    sse.on_line("data: half");
    assert_eq!(
        sse.on_failure(Error::Io("connection reset".to_string())),
        Err(Error::Io("connection reset".to_string()))
    );
    assert!(sse.ended);
    assert_eq!(sse.on_line(""), SseStep::End);
}

#[test]
fn lines_are_classified() {
    assert_eq!(parse_line(""), Field::Blank);
    assert_eq!(parse_line(" \t "), Field::Blank);
    assert_eq!(parse_line("data: [DONE]"), Field::Done);
    assert_eq!(parse_line("  data: [DONE]  "), Field::Done);
    assert_eq!(parse_line("data: {\"a\": 1}"), Field::Data("{\"a\": 1}".to_string()));
    assert_eq!(parse_line("data:  two spaces"), Field::Data(" two spaces".to_string()));
    assert_eq!(parse_line("event: message"), Field::Event("message".to_string()));
    assert_eq!(parse_line("id: abc"), Field::Id("abc".to_string()));
    assert_eq!(parse_line("retry: 1500"), Field::Retry(Some(1500)));
    assert_eq!(parse_line("retry: soon"), Field::Retry(None));
    assert_eq!(parse_line("retry: +7"), Field::Retry(Some(7)));
    assert_eq!(parse_line("retry: -7"), Field::Retry(None));
    assert_eq!(parse_line("retry: 18446744073709551615"), Field::Retry(Some(u64::MAX)));
    assert_eq!(parse_line("retry: 18446744073709551616"), Field::Retry(None));
    assert_eq!(parse_line(": keep-alive"), Field::Comment);
    assert_eq!(parse_line("Data: x"), Field::Other("Data: x".to_string()));
    assert_eq!(parse_line("data:x"), Field::Other("data:x".to_string()));
    assert_eq!(parse_line("data:"), Field::Other("data:".to_string()));
    assert_eq!(parse_line("data: "), Field::Other("data:".to_string()));
    assert_eq!(parse_line("{\"error\": {}}"), Field::Other("{\"error\": {}}".to_string()));
}

#[test]
fn retry_reading_agrees_with_std() {
    for text in ["0", "007", "+", "", "+0", "12a", " 12", "99999999999999999999", "+18446744073709551615"] {
        let line = format!("retry: {text}");
        let expected = match line.trim().strip_prefix("retry: ") {
            Some(rest) => Field::Retry(rest.parse::<u64>().ok()),
            None => Field::Other(line.trim().to_string()),
        };
        assert_eq!(parse_line(&line), expected, "{line:?}");
    }
}

#[test]
fn trimming_agrees_with_std() {
    for text in [
        "\u{a0}data: x\u{2003}",
        "\u{3000}\u{1680}id: 1\u{85}",
        "\u{feff}data: x",
        "\u{200b}data: x",
        "\u{180e}data: x",
        "\r\ndata: x\r",
        "\u{2028}event: e\u{2029}\u{202f}\u{205f}",
    ] {
        let expected = match text.trim().strip_prefix("data: ") {
            Some(chunk) => Field::Data(chunk.to_string()),
            None => match text.trim().strip_prefix("event: ") {
                Some(name) => Field::Event(name.to_string()),
                None => match text.trim().strip_prefix("id: ") {
                    Some(id) => Field::Id(id.to_string()),
                    None => Field::Other(text.trim().to_string()),
                },
            },
        };
        assert_eq!(parse_line(text), expected, "{text:?}");
    }
}

#[test]
fn default_handler_passes_the_payload_on() {
    assert_eq!(().handle_data("payload".to_string()), Ok("payload".to_string()));
    assert_eq!(().handle_event("any"), Ok(()));
    assert_eq!(().handle_unexpected("any".to_string()), Ok(()));
}

#[test]
fn payloads_of_a_whole_input() {
    let mut sse = Sse::new(SseOptions::new(()));
    let items = sse.decode_payloads(&lines(&[
        ": stream opened",
        "event: delta",
        "id: 1",
        "data: {\"a\":",
        "data: 1}",
        "",
        "",
        "retry: 100",
        "data: second",
        "   ",
        "data: [DONE]",
        "data: never",
        "",
    ]));
    assert_eq!(items, vec!["{\"a\":\n1}".to_string(), "second".to_string()]);
    assert!(sse.ended);
    assert_eq!(sse.last_event, (None, Some("1".to_string())));
}

#[test]
fn input_that_asks_for_no_call_brings_no_item() {
    let mut sse = Sse::new(SseOptions::new(Recorder::new()));
    assert_eq!(sse.decode(&lines(&[])), Vec::<Result<String, Error>>::new());
    assert!(sse.ended);
    let mut failing = Recorder::new();
    failing.fail_data = true;
    failing.fail_event = true;
    failing.fail_unexpected = true;
    let mut sse = Sse::new(SseOptions::new(failing).drop_event(true));
    let items = sse.decode(&lines(&[": hello", "id: 3", "retry: 5", "event: x", "", "data: kept"]));
    assert_eq!(items, Vec::<Result<String, Error>>::new());
    assert!(sse.ended);
    assert_eq!(sse.data, "kept");
    assert_eq!(sse.last_event, (None, Some("3".to_string())));
    assert!(sse.options.event_handler.calls.borrow().is_empty());
}

#[test]
fn never_more_items_than_payloads_and_one_error() {
    let mut failing = Recorder::new();
    failing.fail_unexpected = true;
    let mut sse = Sse::new(SseOptions::new(failing));
    let items = sse.decode(&lines(&["data: a", "", "stray", "data: b", ""]));
    assert_eq!(
        items,
        vec![Ok("a".to_string()), Ok("b".to_string()), Err(Error::Any("stray".to_string()))]
    );
}
