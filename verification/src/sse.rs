//! The decoder of server-sent events: it takes the lines of a response one
//! by one and hands out, in order, the payloads and event names that they
//! carry.

use crate::error::Error;
use crate::http::{EventHandler, SseOptions};
use crate::text::{
    from_chars, has_prefix, is_whitespace, joined, lemma_trimmed_end_is_head,
    lemma_trimmed_start_is_tail, parse_u64, parsed_u64, push_char, same, slice, starts_with,
    text_view, texts, to_chars, trim, trimmed, trimmed_start,
};
use vstd::prelude::*;

verus! {

/// What a line of an event stream is, once trimmed.
pub enum LineKind {
    /// Nothing but whitespace: the end of a record.
    Blank,
    /// The payload that ends the stream.
    Done,
    /// A piece of payload.
    Data(Seq<char>),
    /// The name of the record's event type.
    Event(Seq<char>),
    /// The id of the record.
    Id(Seq<char>),
    /// A hint on how long to wait before reconnecting; nothing where the
    /// number is malformed.
    Retry(Option<u64>),
    /// A comment.
    Comment,
    /// A line that belongs to no field.
    Other(Seq<char>),
}

/// The kind of the line `line`. Field names are matched with their case, and
/// with the one space that follows the colon.
pub open spec fn classify(line: Seq<char>) -> LineKind {
    let t = trimmed(line);
    if t.len() == 0 {
        LineKind::Blank
    } else if has_prefix(t, "data: "@) {
        let chunk = t.skip("data: "@.len() as int);
        if chunk == "[DONE]"@ {
            LineKind::Done
        } else {
            LineKind::Data(chunk)
        }
    } else if has_prefix(t, "event: "@) {
        LineKind::Event(t.skip("event: "@.len() as int))
    } else if has_prefix(t, "id: "@) {
        LineKind::Id(t.skip("id: "@.len() as int))
    } else if has_prefix(t, "retry: "@) {
        LineKind::Retry(parsed_u64(t.skip("retry: "@.len() as int)))
    } else if t[0] == ':' {
        LineKind::Comment
    } else {
        LineKind::Other(t)
    }
}

/// A line of an event stream, taken apart.
#[derive(Debug, PartialEq, Eq)]
pub enum Field {
    /// Nothing but whitespace: the end of a record.
    Blank,
    /// The payload that ends the stream.
    Done,
    /// A piece of payload.
    Data(String),
    /// The name of the record's event type.
    Event(String),
    /// The id of the record.
    Id(String),
    /// A hint on how long to wait before reconnecting.
    Retry(Option<u64>),
    /// A comment.
    Comment,
    /// A line that belongs to no field.
    Other(String),
}

impl View for Field {
    type V = LineKind;

    open spec fn view(&self) -> LineKind {
        match self {
            Field::Blank => LineKind::Blank,
            Field::Done => LineKind::Done,
            Field::Data(chunk) => LineKind::Data(chunk@),
            Field::Event(name) => LineKind::Event(name@),
            Field::Id(id) => LineKind::Id(id@),
            Field::Retry(hint) => LineKind::Retry(*hint),
            Field::Comment => LineKind::Comment,
            Field::Other(text) => LineKind::Other(text@),
        }
    }
}

/// Takes the line `line` apart.
pub fn parse_line(line: &str) -> (field: Field)
    ensures
        field@ == classify(line@),
{
    let t = trim(&to_chars(line));
    let n = t.len();
    if n == 0 {
        return Field::Blank;
    }
    let data = to_chars("data: ");
    if starts_with(&t, &data) {
        let chunk = slice(&t, data.len(), n);
        let done = to_chars("[DONE]");
        if same(&chunk, &done) {
            return Field::Done;
        }
        return Field::Data(from_chars(&chunk));
    }
    let event = to_chars("event: ");
    if starts_with(&t, &event) {
        return Field::Event(from_chars(&slice(&t, event.len(), n)));
    }
    let id = to_chars("id: ");
    if starts_with(&t, &id) {
        return Field::Id(from_chars(&slice(&t, id.len(), n)));
    }
    let retry = to_chars("retry: ");
    if starts_with(&t, &retry) {
        return Field::Retry(parse_u64(&slice(&t, retry.len(), n)));
    }
    if t[0] == ':' {
        return Field::Comment;
    }
    Field::Other(from_chars(&t))
}

/// What a decoder holds between two lines.
pub struct SseState {
    /// The payload gathered since the last record ended.
    pub data: Seq<char>,
    /// The event type of the record at hand.
    pub event: Option<Seq<char>>,
    /// The id seen last.
    pub id: Option<Seq<char>>,
    /// The lines that belong to no field, joined by line feeds.
    pub unexpected: Seq<char>,
    /// Whether the sequence of events has ended.
    pub ended: bool,
}

/// What a decoder asks for after a line.
pub enum Action {
    /// Nothing: the next line.
    Next,
    /// To hand a complete payload to `handle_data`.
    Deliver(Seq<char>),
    /// To hand the name of an event type to `handle_event`.
    Announce(Seq<char>),
    /// Nothing more: the sequence has ended.
    Stop,
}

/// `buffer` with `piece` added on a line of its own.
pub open spec fn with_line(buffer: Seq<char>, piece: Seq<char>) -> Seq<char> {
    if buffer.len() == 0 {
        piece
    } else {
        buffer.push('\n') + piece
    }
}

/// The state after the line `line`, and what the decoder asks for.
pub open spec fn advance(s: SseState, drop_event: bool, line: Seq<char>) -> (SseState, Action) {
    if s.ended {
        (s, Action::Stop)
    } else {
        match classify(line) {
            LineKind::Blank => if s.data.len() > 0 {
                (SseState { data: Seq::empty(), event: None, ..s }, Action::Deliver(s.data))
            } else {
                (s, Action::Next)
            },
            LineKind::Done => (SseState { ended: true, ..s }, Action::Stop),
            LineKind::Data(chunk) => (
                SseState { data: with_line(s.data, chunk), ..s },
                Action::Next,
            ),
            LineKind::Event(name) => if drop_event {
                (s, Action::Next)
            } else {
                (SseState { event: Some(name), ..s }, Action::Announce(name))
            },
            LineKind::Id(id) => (SseState { id: Some(id), ..s }, Action::Next),
            LineKind::Retry(_) => (s, Action::Next),
            LineKind::Comment => (s, Action::Next),
            LineKind::Other(text) => (
                SseState { unexpected: with_line(s.unexpected, text), ..s },
                Action::Next,
            ),
        }
    }
}

/// The state at the end of the input, and the content that `handle_unexpected`
/// is owed, if any.
pub open spec fn conclude(s: SseState) -> (SseState, Option<Seq<char>>) {
    if s.ended {
        (s, None)
    } else if s.unexpected.len() > 0 {
        (SseState { unexpected: Seq::empty(), ended: true, ..s }, Some(s.unexpected))
    } else {
        (SseState { ended: true, ..s }, None)
    }
}

/// What a decoder asks for after a line.
#[derive(Debug, PartialEq, Eq)]
pub enum SseAction {
    /// Nothing: the next line.
    Next,
    /// To hand a complete payload to `handle_data`.
    Deliver(String),
    /// To hand the name of an event type to `handle_event`.
    Announce(String),
    /// Nothing more: the sequence has ended.
    Stop,
}

impl View for SseAction {
    type V = Action;

    open spec fn view(&self) -> Action {
        match self {
            SseAction::Next => Action::Next,
            SseAction::Deliver(payload) => Action::Deliver(payload@),
            SseAction::Announce(name) => Action::Announce(name@),
            SseAction::Stop => Action::Stop,
        }
    }
}

/// What a line brought, once the handler has had its say.
#[derive(Debug, PartialEq, Eq)]
pub enum SseStep<T> {
    /// Nothing yet: the next line.
    Continue,
    /// An item of the sequence.
    Item(Result<T, Error>),
    /// The sequence has ended.
    End,
}

/// The decoder of one event stream.
pub struct Sse<H> {
    /// The options of the stream.
    pub options: SseOptions<H>,
    /// The event type of the record at hand, and the id seen last.
    pub last_event: (Option<String>, Option<String>),
    /// The payload gathered since the last record ended.
    pub data: String,
    /// The lines that belong to no field, joined by line feeds.
    pub unexpected: String,
    /// Whether the sequence of events has ended.
    pub ended: bool,
}

impl<H> View for Sse<H> {
    type V = SseState;

    open spec fn view(&self) -> SseState {
        SseState {
            data: self.data@,
            event: text_view(self.last_event.0),
            id: text_view(self.last_event.1),
            unexpected: self.unexpected@,
            ended: self.ended,
        }
    }
}

/// Adds `piece` to `buffer` on a line of its own.
fn add_line(buffer: &mut String, piece: &String)
    ensures
        final(buffer)@ == with_line(old(buffer)@, piece@),
{
    if !buffer.as_str().is_empty() {
        push_char(buffer, '\n');
    }
    buffer.append(piece.as_str());
    assert(Seq::<char>::empty() + piece@ =~= piece@);
}

impl<H> Sse<H> {
    /// A decoder at the start of a stream.
    pub fn new(options: SseOptions<H>) -> (sse: Sse<H>)
        ensures
            sse.options == options,
            sse@ == (SseState {
                data: Seq::empty(),
                event: None,
                id: None,
                unexpected: Seq::empty(),
                ended: false,
            }),
    {
        Sse {
            options,
            last_event: (None, None),
            data: String::new(),
            unexpected: String::new(),
            ended: false,
        }
    }

    /// A decoder at the start of a stream that takes up an earlier one after
    /// the event with the id `last_event_id`.
    pub fn resume(options: SseOptions<H>, last_event_id: Option<String>) -> (sse: Sse<H>)
        ensures
            sse.options == options,
            sse@ == (SseState {
                data: Seq::empty(),
                event: None,
                id: text_view(last_event_id),
                unexpected: Seq::empty(),
                ended: false,
            }),
    {
        Sse {
            options,
            last_event: (None, last_event_id),
            data: String::new(),
            unexpected: String::new(),
            ended: false,
        }
    }

    /// Takes in the line `line` and says what it asks for. No handler is
    /// called.
    pub fn absorb(&mut self, line: &str) -> (action: SseAction)
        ensures
            final(self).options == old(self).options,
            (final(self)@, action@) == advance(old(self)@, old(self).options.drop_event, line@),
    {
        if self.ended {
            return SseAction::Stop;
        }
        match parse_line(line) {
            Field::Blank => {
                if !self.data.as_str().is_empty() {
                    let mut payload = String::new();
                    std::mem::swap(&mut self.data, &mut payload);
                    self.last_event.0 = None;
                    SseAction::Deliver(payload)
                } else {
                    SseAction::Next
                }
            },
            Field::Done => {
                self.ended = true;
                SseAction::Stop
            },
            Field::Data(chunk) => {
                add_line(&mut self.data, &chunk);
                SseAction::Next
            },
            Field::Event(name) => {
                if self.options.drop_event {
                    SseAction::Next
                } else {
                    self.last_event.0 = Some(name.clone());
                    SseAction::Announce(name)
                }
            },
            Field::Id(id) => {
                self.last_event.1 = Some(id);
                SseAction::Next
            },
            Field::Retry(_) => SseAction::Next,
            Field::Comment => SseAction::Next,
            Field::Other(text) => {
                add_line(&mut self.unexpected, &text);
                SseAction::Next
            },
        }
    }

    /// Ends the sequence at the end of the input, and returns the content
    /// that `handle_unexpected` is owed, if any. No handler is called.
    pub fn finish(&mut self) -> (content: Option<String>)
        ensures
            final(self).options == old(self).options,
            (final(self)@, text_view(content)) == conclude(old(self)@),
    {
        if self.ended {
            return None;
        }
        self.ended = true;
        if !self.unexpected.as_str().is_empty() {
            let mut content = String::new();
            std::mem::swap(&mut self.unexpected, &mut content);
            Some(content)
        } else {
            None
        }
    }

    /// Ends the sequence: no later line brings anything.
    pub fn close(&mut self)
        ensures
            final(self).options == old(self).options,
            final(self)@ == (SseState { ended: true, ..old(self)@ }),
    {
        self.ended = true;
    }
}

/// What the answer of `handle_data` makes of a delivered payload: the item
/// of the sequence, whatever it is.
pub fn settle_data<T>(outcome: Result<T, Error>) -> (step: SseStep<T>)
    ensures
        step == SseStep::Item(outcome),
{
    SseStep::Item(outcome)
}

/// What the answer of `handle_event` makes of an announced event type:
/// nothing on success, the error as the last item otherwise.
pub fn settle_event<T>(outcome: Result<(), Error>) -> (step: SseStep<T>)
    ensures
        step == match outcome {
            Ok(_) => SseStep::<T>::Continue,
            Err(e) => SseStep::<T>::Item(Err(e)),
        },
{
    match outcome {
        Ok(_) => SseStep::Continue,
        Err(e) => SseStep::Item(Err(e)),
    }
}

/// What the answer of `handle_unexpected` makes of the end of the input:
/// nothing on success, the error as the last item otherwise.
pub fn settle_unexpected<T>(outcome: Result<(), Error>) -> (last: Option<Result<T, Error>>)
    ensures
        last == match outcome {
            Ok(_) => None::<Result<T, Error>>,
            Err(e) => Some(Err::<T, Error>(e)),
        },
{
    match outcome {
        Ok(_) => None,
        Err(e) => Some(Err(e)),
    }
}

impl<H: EventHandler> Sse<H> {
    /// Takes in the line `line`, calls the handler where the line asks for
    /// it, and returns what the line brought. An error of the handler is the
    /// last item: it ends the sequence.
    pub fn on_line(&mut self, line: &str) -> (step: SseStep<H::Event>)
        ensures
            final(self).options == old(self).options,
            match advance(old(self)@, old(self).options.drop_event, line@) {
                (next, Action::Next) => final(self)@ == next && step is Continue,
                (next, Action::Stop) => final(self)@ == next && step is End,
                (next, Action::Deliver(_)) => step is Item && final(self)@ == (SseState {
                    ended: step->Item_0 is Err,
                    ..next
                }),
                (next, Action::Announce(_)) => (step is Continue && final(self)@ == next) || (
                step is Item && step->Item_0 is Err && final(self)@ == (SseState {
                    ended: true,
                    ..next
                })),
            },
    {
        match self.absorb(line) {
            SseAction::Next => SseStep::Continue,
            SseAction::Stop => SseStep::End,
            SseAction::Deliver(payload) => {
                let outcome = self.options.event_handler.handle_data(payload);
                if outcome.is_err() {
                    self.ended = true;
                }
                settle_data(outcome)
            },
            SseAction::Announce(name) => {
                let outcome = self.options.event_handler.handle_event(name.as_str());
                if outcome.is_err() {
                    self.ended = true;
                }
                settle_event(outcome)
            },
        }
    }

    /// Ends the sequence at the end of the input: hands the lines that
    /// belong to no field to the handler, once, if there are any, and returns
    /// the handler's error as the last item, if it gives one.
    pub fn on_end(&mut self) -> (last: Option<Result<H::Event, Error>>)
        ensures
            final(self).options == old(self).options,
            final(self)@ == conclude(old(self)@).0,
            conclude(old(self)@).1 is None ==> last is None,
            last matches Some(item) ==> item is Err,
    {
        match self.finish() {
            Some(content) => {
                let outcome = self.options.event_handler.handle_unexpected(content);
                settle_unexpected(outcome)
            },
            None => None,
        }
    }

    /// Ends the sequence on a failure of the transport or of the line
    /// framing, and returns the failure as the last item.
    pub fn on_failure(&mut self, failure: Error) -> (last: Result<H::Event, Error>)
        ensures
            final(self).options == old(self).options,
            final(self)@ == (SseState { ended: true, ..old(self)@ }),
            last == Err::<H::Event, Error>(failure),
    {
        self.close();
        Err(failure)
    }
}

/// A call that a decoder owes its handler.
pub enum Call {
    /// `handle_data`, with a complete payload.
    Data(Seq<char>),
    /// `handle_event`, with the name of an event type.
    Event(Seq<char>),
    /// `handle_unexpected`, with the lines that belong to no field.
    Unexpected(Seq<char>),
}

/// The call that an action asks for, if it asks for one.
pub open spec fn call_of(action: Action) -> Seq<Call> {
    match action {
        Action::Deliver(payload) => seq![Call::Data(payload)],
        Action::Announce(name) => seq![Call::Event(name)],
        _ => Seq::empty(),
    }
}

/// The state of a decoder that started in `s` and took in `lines`, every
/// call to the handler having succeeded.
pub open spec fn state_after(s: SseState, drop_event: bool, lines: Seq<Seq<char>>) -> SseState
    decreases lines.len(),
{
    if lines.len() == 0 {
        s
    } else {
        advance(state_after(s, drop_event, lines.drop_last()), drop_event, lines.last()).0
    }
}

/// The calls, in order, that a decoder which started in `s` owes its handler
/// while it takes in `lines`.
pub open spec fn calls_during(s: SseState, drop_event: bool, lines: Seq<Seq<char>>) -> Seq<Call>
    decreases lines.len(),
{
    if lines.len() == 0 {
        Seq::empty()
    } else {
        calls_during(s, drop_event, lines.drop_last()) + call_of(
            advance(state_after(s, drop_event, lines.drop_last()), drop_event, lines.last()).1,
        )
    }
}

/// The calls, in order, that a decoder which started in `s` owes its handler
/// for the whole input `lines`, its end included.
pub open spec fn calls_for(s: SseState, drop_event: bool, lines: Seq<Seq<char>>) -> Seq<Call> {
    match conclude(state_after(s, drop_event, lines)).1 {
        Some(content) => calls_during(s, drop_event, lines).push(Call::Unexpected(content)),
        None => calls_during(s, drop_event, lines),
    }
}

/// The payloads among `calls`, in order.
pub open spec fn payloads(calls: Seq<Call>) -> Seq<Seq<char>>
    decreases calls.len(),
{
    if calls.len() == 0 {
        Seq::empty()
    } else {
        match calls.last() {
            Call::Data(payload) => payloads(calls.drop_last()).push(payload),
            _ => payloads(calls.drop_last()),
        }
    }
}

/// The pieces of payload that the lines `lines` carry, in order.
pub open spec fn chunks(lines: Seq<Seq<char>>) -> Seq<Seq<char>>
    decreases lines.len(),
{
    if lines.len() == 0 {
        Seq::empty()
    } else {
        match classify(lines.last()) {
            LineKind::Data(chunk) => chunks(lines.drop_last()).push(chunk),
            _ => chunks(lines.drop_last()),
        }
    }
}

/// The payloads of two runs of calls, one after the other.
pub proof fn lemma_payloads_concat(a: Seq<Call>, b: Seq<Call>)
    ensures
        payloads(a + b) == payloads(a) + payloads(b),
    decreases b.len(),
{
    if b.len() == 0 {
        assert(a + b =~= a);
        assert(payloads(a) + payloads(b) =~= payloads(a));
    } else {
        lemma_payloads_concat(a, b.drop_last());
        assert((a + b).drop_last() =~= a + b.drop_last());
        assert((a + b).last() == b.last());
        match b.last() {
            Call::Data(payload) => {
                assert(payloads(a + b) =~= payloads(a) + payloads(b));
            },
            _ => {},
        }
    }
}

/// Once the sequence has ended, no line changes the state or asks for a
/// call.
pub proof fn lemma_ended_is_final(s: SseState, drop_event: bool, lines: Seq<Seq<char>>)
    requires
        s.ended,
    ensures
        state_after(s, drop_event, lines) == s,
        calls_during(s, drop_event, lines) == Seq::<Call>::empty(),
    decreases lines.len(),
{
    if lines.len() > 0 {
        lemma_ended_is_final(s, drop_event, lines.drop_last());
        assert(calls_during(s, drop_event, lines) =~= Seq::<Call>::empty());
    }
}

/// Taking in `a` and then `b` is taking in `a + b`.
pub proof fn lemma_lines_concat(
    s: SseState,
    drop_event: bool,
    a: Seq<Seq<char>>,
    b: Seq<Seq<char>>,
)
    ensures
        state_after(s, drop_event, a + b) == state_after(
            state_after(s, drop_event, a),
            drop_event,
            b,
        ),
        calls_during(s, drop_event, a + b) == calls_during(s, drop_event, a) + calls_during(
            state_after(s, drop_event, a),
            drop_event,
            b,
        ),
    decreases b.len(),
{
    if b.len() == 0 {
        assert(a + b =~= a);
        assert(calls_during(s, drop_event, a) + Seq::<Call>::empty() =~= calls_during(
            s,
            drop_event,
            a,
        ));
    } else {
        lemma_lines_concat(s, drop_event, a, b.drop_last());
        assert((a + b).drop_last() =~= a + b.drop_last());
        assert((a + b).last() == b.last());
        let mid = state_after(s, drop_event, a);
        let step = call_of(
            advance(state_after(mid, drop_event, b.drop_last()), drop_event, b.last()).1,
        );
        assert(calls_during(s, drop_event, a + b) =~= calls_during(s, drop_event, a) + (
        calls_during(mid, drop_event, b.drop_last()) + step));
    }
}

/// The calls that a beginning of the input asks for are among those that
/// the whole input asks for: there are no more of them, and no more payloads
/// among them.
pub proof fn lemma_calls_of_a_beginning(
    s: SseState,
    drop_event: bool,
    lines: Seq<Seq<char>>,
    k: int,
)
    requires
        0 <= k <= lines.len(),
    ensures
        calls_during(s, drop_event, lines.take(k)).len() <= calls_during(
            s,
            drop_event,
            lines,
        ).len(),
        payloads(calls_during(s, drop_event, lines.take(k))).len() <= payloads(
            calls_during(s, drop_event, lines),
        ).len(),
{
    assert(lines.take(k) + lines.skip(k) =~= lines);
    lemma_lines_concat(s, drop_event, lines.take(k), lines.skip(k));
    lemma_payloads_concat(
        calls_during(s, drop_event, lines.take(k)),
        calls_during(state_after(s, drop_event, lines.take(k)), drop_event, lines.skip(k)),
    );
}

/// A trimmed line that is not empty neither begins nor ends with whitespace.
pub proof fn lemma_trimmed_ends(line: Seq<char>)
    ensures
        trimmed(line).len() > 0 ==> !is_whitespace(trimmed(line)[0]) && !is_whitespace(
            trimmed(line).last(),
        ),
{
    let lo = lemma_trimmed_start_is_tail(line);
    let tail = trimmed_start(line);
    let len = lemma_trimmed_end_is_head(tail);
    if len > 0 {
        assert(tail.take(len)[0] == tail[0]);
        assert(tail[0] == line[lo]);
    }
}

/// A line that begins with a character that is no whitespace is trimmed at
/// its end only.
pub proof fn lemma_trimmed_keeps_start(line: Seq<char>)
    requires
        line.len() > 0,
        !is_whitespace(line[0]),
    ensures
        trimmed(line).len() > 0,
        trimmed(line)[0] == line[0],
{
    let len = lemma_trimmed_end_is_head(line);
    if len == 0 {
        assert(is_whitespace(line[0]));
    }
    assert(line.take(len)[0] == line[0]);
}

/// A piece of payload is never empty.
pub proof fn lemma_chunk_not_empty(line: Seq<char>)
    ensures
        classify(line) matches LineKind::Data(chunk) ==> chunk.len() > 0,
{
    reveal_strlit("data: ");
    let t = trimmed(line);
    lemma_trimmed_ends(line);
    if t.len() > 0 && has_prefix(t, "data: "@) {
        if t.len() == 6 {
            assert(t.subrange(0, 6)[5] == ' ');
            assert(t.last() == ' ');
        }
    }
}

/// A line that begins with a colon changes nothing: neither the payload, nor
/// the event type, nor the id, nor anything else that the decoder holds, and
/// it asks for no call.
pub proof fn law_comment_changes_nothing(s: SseState, drop_event: bool, line: Seq<char>)
    requires
        line.len() > 0,
        line[0] == ':',
    ensures
        advance(s, drop_event, line).0 == s,
        call_of(advance(s, drop_event, line).1) == Seq::<Call>::empty(),
{
    reveal_strlit("data: ");
    reveal_strlit("event: ");
    reveal_strlit("id: ");
    reveal_strlit("retry: ");
    lemma_trimmed_keeps_start(line);
    let t = trimmed(line);
    if has_prefix(t, "data: "@) {
        assert(t.subrange(0, 6)[0] == 'd');
    }
    if has_prefix(t, "event: "@) {
        assert(t.subrange(0, 7)[0] == 'e');
    }
    if has_prefix(t, "id: "@) {
        assert(t.subrange(0, 4)[0] == 'i');
    }
    if has_prefix(t, "retry: "@) {
        assert(t.subrange(0, 7)[0] == 'r');
    }
    assert(classify(line) == LineKind::Comment);
}

/// The id lasts: whatever lines a decoder takes in, blank ones and `event`
/// fields among them, the id it holds is the one it held before, as long as
/// none of the lines is an `id` field.
pub proof fn law_id_persists(s: SseState, drop_event: bool, lines: Seq<Seq<char>>)
    requires
        forall|i: int| 0 <= i < lines.len() ==> !(#[trigger] classify(lines[i]) is Id),
    ensures
        state_after(s, drop_event, lines).id == s.id,
    decreases lines.len(),
{
    if lines.len() > 0 {
        let before = lines.drop_last();
        assert forall|i: int| 0 <= i < before.len() implies !(#[trigger] classify(before[i])
            is Id) by {
            assert(before[i] == lines[i]);
        }
        law_id_persists(s, drop_event, before);
        assert(!(classify(lines[lines.len() - 1]) is Id));
    }
}

/// An `id` field sets the id, whatever the event type and the payload are,
/// and changes nothing else.
pub proof fn law_id_is_stored(s: SseState, drop_event: bool, line: Seq<char>)
    requires
        !s.ended,
        classify(line) is Id,
    ensures
        advance(s, drop_event, line).0 == (SseState { id: Some(classify(line)->Id_0), ..s }),
        advance(s, drop_event, line).1 == Action::Next,
{
}

/// The payload that ends the stream ends the sequence at once: the lines
/// after it bring nothing, the payload gathered so far is not delivered, and
/// the end of the input owes the handler nothing.
pub proof fn law_done_ends_the_sequence(
    s: SseState,
    drop_event: bool,
    before: Seq<Seq<char>>,
    done: Seq<char>,
    after: Seq<Seq<char>>,
)
    requires
        classify(done) == LineKind::Done,
    ensures
        calls_for(s, drop_event, before.push(done) + after) == calls_during(
            s,
            drop_event,
            before,
        ),
        state_after(s, drop_event, before.push(done) + after) == (SseState {
            ended: true,
            ..state_after(s, drop_event, before)
        }),
{
    let reached = state_after(s, drop_event, before);
    let stopped = state_after(s, drop_event, before.push(done));
    assert(before.push(done).drop_last() =~= before);
    assert(stopped == advance(reached, drop_event, done).0);
    assert(stopped.ended);
    assert(calls_during(s, drop_event, before.push(done)) =~= calls_during(s, drop_event, before));
    lemma_lines_concat(s, drop_event, before.push(done), after);
    lemma_ended_is_final(stopped, drop_event, after);
    assert(calls_during(s, drop_event, before.push(done) + after) =~= calls_during(
        s,
        drop_event,
        before,
    ));
}

/// The payload that a decoder holds after the lines `lines`, none of which
/// is blank or ends the stream: what it held before, and each piece that the
/// lines carry on a line of its own. No payload is delivered meanwhile.
pub proof fn lemma_record_gathers(s: SseState, drop_event: bool, lines: Seq<Seq<char>>)
    requires
        !s.ended,
        forall|i: int|
            0 <= i < lines.len() ==> !(#[trigger] classify(lines[i]) is Blank) && !(classify(
                lines[i],
            ) is Done),
    ensures
        !state_after(s, drop_event, lines).ended,
        payloads(calls_during(s, drop_event, lines)) == Seq::<Seq<char>>::empty(),
        chunks(lines).len() == 0 ==> state_after(s, drop_event, lines).data == s.data,
        chunks(lines).len() > 0 ==> state_after(s, drop_event, lines).data == with_line(
            s.data,
            joined(chunks(lines), seq!['\n']),
        ),
    decreases lines.len(),
{
    if lines.len() > 0 {
        let before = lines.drop_last();
        let last = lines.last();
        assert forall|i: int| 0 <= i < before.len() implies !(#[trigger] classify(before[i])
            is Blank) && !(classify(before[i]) is Done) by {
            assert(before[i] == lines[i]);
        }
        lemma_record_gathers(s, drop_event, before);
        assert(!(classify(lines[lines.len() - 1]) is Blank));
        let reached = state_after(s, drop_event, before);
        let step = advance(reached, drop_event, last);
        lemma_payloads_concat(calls_during(s, drop_event, before), call_of(step.1));
        lemma_payloads_of_action(step.1);
        assert(payloads(calls_during(s, drop_event, lines)) =~= Seq::<Seq<char>>::empty());
        match classify(last) {
            LineKind::Data(chunk) => {
                lemma_chunk_not_empty(last);
                let earlier = chunks(before);
                assert(chunks(lines).drop_last() =~= earlier);
                if earlier.len() == 0 {
                    assert(joined(chunks(lines), seq!['\n']) == chunk);
                } else {
                    lemma_chunks_not_empty(before);
                    lemma_joined_not_empty(earlier, seq!['\n']);
                    let sep = seq!['\n'];
                    let so_far = joined(earlier, sep);
                    assert(joined(chunks(lines), sep) == so_far + sep + chunk);
                    assert(so_far.push('\n') =~= so_far + sep);
                    if s.data.len() == 0 {
                        assert(with_line(so_far, chunk) =~= so_far + sep + chunk);
                    } else {
                        assert(with_line(s.data.push('\n') + so_far, chunk) =~= s.data.push('\n')
                            + (so_far + sep + chunk));
                    }
                }
            },
            _ => {},
        }
    }
}

/// Pieces of which the first is not empty join to a text that is not empty.
pub proof fn lemma_joined_not_empty(parts: Seq<Seq<char>>, sep: Seq<char>)
    requires
        parts.len() > 0,
        parts[0].len() > 0,
    ensures
        joined(parts, sep).len() > 0,
    decreases parts.len(),
{
    if parts.len() > 1 {
        assert(parts.drop_last()[0] == parts[0]);
        lemma_joined_not_empty(parts.drop_last(), sep);
    }
}

/// The payload that one action delivers, if it delivers one.
pub proof fn lemma_payloads_of_action(action: Action)
    ensures
        payloads(call_of(action)) == match action {
            Action::Deliver(payload) => seq![payload],
            _ => Seq::<Seq<char>>::empty(),
        },
{
    reveal_with_fuel(payloads, 2);
    let calls = call_of(action);
    if calls.len() > 0 {
        assert(calls.drop_last() =~= Seq::<Call>::empty());
        match action {
            Action::Deliver(payload) => {
                assert(payloads(calls) =~= seq![payload]);
            },
            _ => {},
        }
    }
}

/// A decoder with no payload at hand that takes in the lines of a record, at
/// least one of them a `data` field, and then the blank line that ends the
/// record, delivers exactly one payload, which is the pieces of the `data`
/// fields in their order, joined by line feeds. After it the decoder again
/// has no payload at hand.
pub proof fn law_record_delivers_one_payload(
    s: SseState,
    drop_event: bool,
    record: Seq<Seq<char>>,
    blank: Seq<char>,
)
    requires
        !s.ended,
        s.data.len() == 0,
        classify(blank) == LineKind::Blank,
        forall|i: int|
            0 <= i < record.len() ==> !(#[trigger] classify(record[i]) is Blank) && !(classify(
                record[i],
            ) is Done),
        chunks(record).len() > 0,
    ensures
        payloads(calls_during(s, drop_event, record.push(blank))) == seq![
            joined(chunks(record), seq!['\n']),
        ],
        state_after(s, drop_event, record.push(blank)).data.len() == 0,
        !state_after(s, drop_event, record.push(blank)).ended,
{
    lemma_record_gathers(s, drop_event, record);
    let lines = record.push(blank);
    assert(lines.drop_last() =~= record);
    let reached = state_after(s, drop_event, record);
    let payload = joined(chunks(record), seq!['\n']);
    assert(reached.data == payload);
    lemma_chunks_not_empty(record);
    lemma_joined_not_empty(chunks(record), seq!['\n']);
    assert(payload.len() > 0);
    let step = advance(reached, drop_event, blank);
    assert(step.1 == Action::Deliver(payload));
    lemma_payloads_concat(calls_during(s, drop_event, record), call_of(step.1));
    lemma_payloads_of_action(step.1);
    assert(Seq::<Seq<char>>::empty() + seq![payload] =~= seq![payload]);
}

/// No piece that lines carry is empty.
pub proof fn lemma_chunks_not_empty(lines: Seq<Seq<char>>)
    ensures
        forall|i: int| 0 <= i < chunks(lines).len() ==> (#[trigger] chunks(lines)[i]).len() > 0,
    decreases lines.len(),
{
    if lines.len() > 0 {
        lemma_chunks_not_empty(lines.drop_last());
        lemma_chunk_not_empty(lines.last());
        let earlier = chunks(lines.drop_last());
        assert forall|i: int| 0 <= i < chunks(lines).len() implies (#[trigger] chunks(
            lines,
        )[i]).len() > 0 by {
            if i < earlier.len() {
                assert(chunks(lines)[i] == earlier[i]);
            }
        }
    }
}

/// Whether `record` is the body of a record: none of its lines is blank or
/// ends the stream, and at least one of them is a `data` field.
pub open spec fn is_record(record: Seq<Seq<char>>) -> bool {
    &&& forall|i: int|
        0 <= i < record.len() ==> !(#[trigger] classify(record[i]) is Blank) && !(classify(
            record[i],
        ) is Done)
    &&& chunks(record).len() > 0
}

/// The lines of `records`, each followed by the line `blank`.
pub open spec fn record_lines(records: Seq<Seq<Seq<char>>>, blank: Seq<char>) -> Seq<Seq<char>>
    decreases records.len(),
{
    if records.len() == 0 {
        Seq::empty()
    } else {
        record_lines(records.drop_last(), blank) + records.last().push(blank)
    }
}

/// The payload of each of `records`: the pieces of its `data` fields in
/// their order, joined by line feeds.
pub open spec fn record_payloads(records: Seq<Seq<Seq<char>>>) -> Seq<Seq<char>> {
    Seq::new(records.len(), |i: int| joined(chunks(records[i]), seq!['\n']))
}

/// One event for each record: a decoder with no payload at hand that takes
/// in records, each ended by a blank line, delivers exactly one payload for
/// each record, in the order of the records, and each payload is the pieces
/// of the record's `data` fields in their order, joined by line feeds.
pub proof fn law_one_event_per_record(
    s: SseState,
    drop_event: bool,
    records: Seq<Seq<Seq<char>>>,
    blank: Seq<char>,
)
    requires
        !s.ended,
        s.data.len() == 0,
        classify(blank) == LineKind::Blank,
        forall|i: int| 0 <= i < records.len() ==> is_record(#[trigger] records[i]),
    ensures
        payloads(calls_during(s, drop_event, record_lines(records, blank))) == record_payloads(
            records,
        ),
        state_after(s, drop_event, record_lines(records, blank)).data.len() == 0,
        !state_after(s, drop_event, record_lines(records, blank)).ended,
    decreases records.len(),
{
    if records.len() == 0 {
        assert(record_payloads(records) =~= Seq::<Seq<char>>::empty());
    } else {
        let before = records.drop_last();
        let last = records.last();
        assert forall|i: int| 0 <= i < before.len() implies is_record(#[trigger] before[i]) by {
            assert(before[i] == records[i]);
        }
        law_one_event_per_record(s, drop_event, before, blank);
        let head = record_lines(before, blank);
        let reached = state_after(s, drop_event, head);
        assert(is_record(records[records.len() - 1]));
        law_record_delivers_one_payload(reached, drop_event, last, blank);
        lemma_lines_concat(s, drop_event, head, last.push(blank));
        lemma_payloads_concat(
            calls_during(s, drop_event, head),
            calls_during(reached, drop_event, last.push(blank)),
        );
        assert(record_payloads(records) =~= record_payloads(before) + seq![
            joined(chunks(last), seq!['\n']),
        ]);
    }
}

/// At the end of the input, lines that belong to no field and were not yet
/// handed over are owed to `handle_unexpected` in one call, and no second
/// call is owed after it.
pub proof fn law_unexpected_is_flushed_once(s: SseState)
    requires
        !s.ended,
        s.unexpected.len() > 0,
    ensures
        conclude(s).1 == Some(s.unexpected),
        conclude(conclude(s).0).1 is None,
        conclude(conclude(s).0).0 == conclude(s).0,
{
}

/// A blank line hands nothing to `handle_unexpected`: lines that belong to
/// no field stay with the decoder until the input ends.
pub proof fn law_blank_keeps_unexpected(s: SseState, drop_event: bool, blank: Seq<char>)
    requires
        classify(blank) == LineKind::Blank,
    ensures
        advance(s, drop_event, blank).0.unexpected == s.unexpected,
{
}

impl<H: EventHandler> Sse<H> {
    /// Decodes a whole input: takes in `lines` one by one, then the end of
    /// the input, and returns the items of the sequence. An error is the
    /// last item. Where the input asks for no call to the handler, there is
    /// no item, and the decoder has taken in every line. There is never more
    /// than one item for each payload that the lines deliver, and one error.
    /// Where no call to the handler failed, there is exactly one item for
    /// each payload, and the decoder has taken in every line.
    pub fn decode(&mut self, lines: &Vec<String>) -> (items: Vec<Result<H::Event, Error>>)
        ensures
            final(self).options == old(self).options,
            final(self)@.ended,
            forall|i: int| 0 <= i < items@.len() - 1 ==> (#[trigger] items@[i]) is Ok,
            calls_for(old(self)@, old(self).options.drop_event, texts(lines@)).len() == 0 ==> {
                &&& items@.len() == 0
                &&& final(self)@ == conclude(
                    state_after(old(self)@, old(self).options.drop_event, texts(lines@)),
                ).0
            },
            items@.len() <= payloads(
                calls_during(old(self)@, old(self).options.drop_event, texts(lines@)),
            ).len() + 1,
            (forall|i: int| 0 <= i < items@.len() ==> (#[trigger] items@[i]) is Ok) ==> {
                &&& items@.len() == payloads(
                    calls_during(old(self)@, old(self).options.drop_event, texts(lines@)),
                ).len()
                &&& final(self)@ == conclude(
                    state_after(old(self)@, old(self).options.drop_event, texts(lines@)),
                ).0
            },
    {
        let mut items: Vec<Result<H::Event, Error>> = Vec::new();
        let ghost start = self@;
        let ghost drop_event = self.options.drop_event;
        let ghost all = texts(lines@);
        let mut k: usize = 0;
        let mut failed = false;
        while k < lines.len() && !failed
            invariant
                k <= lines.len(),
                all == texts(lines@),
                self.options == old(self).options,
                drop_event == self.options.drop_event,
                start == old(self)@,
                failed ==> self@.ended && items@.len() > 0 && items@.last() is Err,
                forall|i: int| 0 <= i < items@.len() - 1 ==> (#[trigger] items@[i]) is Ok,
                items@.len() <= payloads(
                    calls_during(start, drop_event, all.take(k as int)),
                ).len() + 1,
                calls_for(start, drop_event, all).len() == 0 ==> !failed && items@.len() == 0,
                !failed ==> {
                    &&& forall|i: int| 0 <= i < items@.len() ==> (#[trigger] items@[i]) is Ok
                    &&& self@ == state_after(start, drop_event, all.take(k as int))
                    &&& items@.len() == payloads(
                        calls_during(start, drop_event, all.take(k as int)),
                    ).len()
                },
            decreases lines.len() - k,
        {
            proof {
                let upto = all.take(k + 1);
                assert(upto.drop_last() =~= all.take(k as int));
                assert(upto.last() == lines@[k as int]@);
                let step = advance(self@, drop_event, lines@[k as int]@);
                lemma_payloads_concat(
                    calls_during(start, drop_event, all.take(k as int)),
                    call_of(step.1),
                );
                lemma_payloads_of_action(step.1);
                lemma_calls_of_a_beginning(start, drop_event, all, k + 1);
                assert(calls_during(start, drop_event, upto) == calls_during(
                    start,
                    drop_event,
                    all.take(k as int),
                ) + call_of(step.1));
            }
            match self.on_line(lines[k].as_str()) {
                SseStep::Continue => {},
                SseStep::End => {},
                SseStep::Item(item) => {
                    if item.is_err() {
                        failed = true;
                    }
                    items.push(item);
                },
            }
            k += 1;
        }
        proof {
            lemma_calls_of_a_beginning(start, drop_event, all, k as int);
        }
        if !failed {
            assert(all.take(k as int) =~= all);
            match self.on_end() {
                Some(item) => {
                    items.push(item);
                    assert(items@[items@.len() - 1] is Err);
                },
                None => {},
            }
        } else {
            assert(items@[items@.len() - 1] is Err);
        }
        items
    }
}

impl Sse<()> {
    /// Decodes a whole input with the handler that passes each payload on
    /// as it is: takes in `lines` one by one, then the end of the input, and
    /// returns the payloads that the lines deliver, in their order.
    pub fn decode_payloads(&mut self, lines: &Vec<String>) -> (items: Vec<String>)
        ensures
            final(self).options == old(self).options,
            texts(items@) == payloads(
                calls_during(old(self)@, old(self).options.drop_event, texts(lines@)),
            ),
            final(self)@ == conclude(
                state_after(old(self)@, old(self).options.drop_event, texts(lines@)),
            ).0,
    {
        let mut items: Vec<String> = Vec::new();
        let ghost start = self@;
        let ghost drop_event = self.options.drop_event;
        let ghost all = texts(lines@);
        assert(texts(items@) =~= Seq::<Seq<char>>::empty());
        let mut k: usize = 0;
        while k < lines.len()
            invariant
                k <= lines.len(),
                all == texts(lines@),
                self.options == old(self).options,
                drop_event == self.options.drop_event,
                start == old(self)@,
                self@ == state_after(start, drop_event, all.take(k as int)),
                texts(items@) == payloads(calls_during(start, drop_event, all.take(k as int))),
            decreases lines.len() - k,
        {
            proof {
                let upto = all.take(k + 1);
                assert(upto.drop_last() =~= all.take(k as int));
                assert(upto.last() == lines@[k as int]@);
                let step = advance(self@, drop_event, lines@[k as int]@);
                lemma_payloads_concat(
                    calls_during(start, drop_event, all.take(k as int)),
                    call_of(step.1),
                );
                lemma_payloads_of_action(step.1);
            }
            let ghost before = texts(items@);
            match self.absorb(lines[k].as_str()) {
                SseAction::Deliver(payload) => {
                    match self.options.event_handler.handle_data(payload) {
                        Ok(item) => {
                            items.push(item);
                            assert(texts(items@) =~= before + seq![item@]);
                        },
                        Err(_) => {},
                    }
                },
                SseAction::Announce(name) => {
                    let _ = self.options.event_handler.handle_event(name.as_str());
                    assert(before + Seq::<Seq<char>>::empty() =~= before);
                },
                _ => {
                    assert(before + Seq::<Seq<char>>::empty() =~= before);
                },
            }
            k += 1;
        }
        assert(all.take(k as int) =~= all);
        match self.finish() {
            Some(content) => {
                let _ = self.options.event_handler.handle_unexpected(content);
            },
            None => {},
        }
        items
    }
}

} // verus!
