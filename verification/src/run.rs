//! A run of the agent as a machine: it is told what happened (a token came,
//! the reasoning ended, a tool returned) and answers with the events to emit
//! and with what to do next. Whoever drives it does the waiting.

use crate::agent::{
    events_view, tool_index, tools_view, Agent, AgentEvent, AgentMetadata, AgentOptions,
    AgentState, AgentStateView, EventView,
};
use crate::error::{max_steps_text, timeout_text, unknown_tool_text, AgentError, Error, ToolError};
use crate::extract::{
    call_view, extract_final_answer, extract_tool_call, extracted_call, final_answer,
};
use crate::json::{Json, JsonValue};
use crate::prompt::prompt_text;
use crate::text::{text_view, texts, to_chars, trim, trimmed};
use crate::tool::{
    OutcomeView, RecordedCallView, ToolCall, ToolCallResult, ToolCallResultView, ToolCallView,
    ToolDescription, ToolDescriptionView,
};
use vstd::prelude::*;

verus! {

/// How many tokens of reasoning are forwarded together.
pub const TOKEN_BATCH: usize = 5;

/// Where a run stands.
#[derive(Clone, Copy, Debug, PartialEq, Eq, Structural)]
pub enum Phase {
    /// It has not begun.
    Idle,
    /// It waits for the tokens of a reasoning step.
    Reasoning,
    /// It waits for the chunks of a tool that streams its result.
    Streaming,
    /// It waits for a tool to return.
    Calling,
    /// It is over.
    Finished,
}

/// The content of a `Request`.
pub enum RequestView {
    Continue,
    Reason { prompt: Seq<char> },
    Stream { call: ToolCallView },
    Call { call: ToolCallView },
    Stop { result: Result<(), Error> },
}

/// What a run asks its driver to do next.
#[derive(Debug, PartialEq, Eq)]
pub enum Request {
    /// To go on with what was asked for last: to hand in the next token or
    /// chunk, or the end of them.
    Continue,
    /// To ask the reasoning service for a completion of `prompt`, and to
    /// hand its tokens in one by one.
    Reason { prompt: String },
    /// To call the streaming path of the tool, within the time limit, and
    /// to hand its chunks in one by one.
    Stream { call: ToolCall },
    /// To call the tool, within the time limit, and to hand in what it
    /// returns.
    Call { call: ToolCall },
    /// Nothing more: the run is over, with this result.
    Stop { result: Result<(), Error> },
}

impl View for Request {
    type V = RequestView;

    open spec fn view(&self) -> RequestView {
        match self {
            Request::Continue => RequestView::Continue,
            Request::Reason { prompt } => RequestView::Reason { prompt: prompt@ },
            Request::Stream { call } => RequestView::Stream { call: call@ },
            Request::Call { call } => RequestView::Call { call: call@ },
            Request::Stop { result } => RequestView::Stop { result: *result },
        }
    }
}

/// The content of a `Turn`.
pub struct TurnView {
    pub events: Seq<EventView>,
    pub request: RequestView,
}

/// The answer of a run to what it was told: the events to emit, in their
/// order, and what to do next.
#[derive(Debug, PartialEq, Eq)]
pub struct Turn {
    /// The events to emit.
    pub events: Vec<AgentEvent>,
    /// What to do next.
    pub request: Request,
}

impl View for Turn {
    type V = TurnView;

    open spec fn view(&self) -> TurnView {
        TurnView { events: events_view(self.events@), request: self.request@ }
    }
}

/// The content of an `AgentRun`.
pub struct RunView {
    pub options: AgentOptions,
    pub tools: Seq<ToolDescriptionView>,
    pub state: AgentStateView,
    pub phase: Phase,
    pub step: usize,
    pub reasoning: Seq<char>,
    pub pending: Seq<Seq<char>>,
    pub call: Option<ToolCallView>,
    pub gathered: Seq<char>,
}

/// A run of the agent.
#[derive(Debug, PartialEq, Eq)]
pub struct AgentRun {
    /// The agent that runs.
    pub agent: Agent,
    /// The state of the run.
    pub state: AgentState,
    /// Where the run stands.
    pub phase: Phase,
    /// The number of reasoning steps begun.
    pub step: usize,
    /// The reasoning text of the step at hand, as far as it has come.
    pub reasoning: String,
    /// The tokens that came and were not yet forwarded.
    pub pending: Vec<String>,
    /// The tool call at hand.
    pub call: Option<ToolCall>,
    /// The chunks that the tool at hand has streamed, one after the other.
    pub gathered: String,
}

impl View for AgentRun {
    type V = RunView;

    open spec fn view(&self) -> RunView {
        RunView {
            options: self.agent.options,
            tools: tools_view(self.agent.tools@),
            state: self.state@,
            phase: self.phase,
            step: self.step,
            reasoning: self.reasoning@,
            pending: texts(self.pending@),
            call: call_view(self.call),
            gathered: self.gathered@,
        }
    }
}

/// The events that forward the tokens `tokens`.
pub open spec fn token_events(tokens: Seq<Seq<char>>) -> Seq<EventView> {
    Seq::new(tokens.len(), |i: int| EventView::ReasoningToken { content: tokens[i] })
}

/// The metadata with one more reasoning step counted.
pub open spec fn one_more_step(metadata: AgentMetadata) -> AgentMetadata {
    AgentMetadata { total_steps: (metadata.total_steps + 1) as usize, ..metadata }
}

/// The metadata with one more tool call counted.
pub open spec fn one_more_call(metadata: AgentMetadata) -> AgentMetadata {
    AgentMetadata { tool_calls_count: (metadata.tool_calls_count + 1) as usize, ..metadata }
}

/// The state with the reasoning step `text` added and counted.
pub open spec fn with_step(state: AgentStateView, text: Seq<char>) -> AgentStateView {
    AgentStateView {
        reasoning_steps: state.reasoning_steps.push(text),
        metadata: one_more_step(state.metadata),
        ..state
    }
}

/// The record of the result `result` in the state `state`: the result, as
/// that of a call that the last reasoning step asked for.
pub open spec fn recorded(state: AgentStateView, result: ToolCallResultView) -> RecordedCallView {
    RecordedCallView { step: state.reasoning_steps.len() as usize, result }
}

/// The state with the tool call result `result` added, as that of a call
/// that the last reasoning step asked for, and counted.
pub open spec fn with_result(state: AgentStateView, result: ToolCallResultView) -> AgentStateView {
    AgentStateView {
        tool_calls: state.tool_calls.push(recorded(state, result)),
        metadata: one_more_call(state.metadata),
        ..state
    }
}

/// The index of the tool called `name` among `tools`, below `upto`.
pub open spec fn index_of_tool(
    tools: Seq<ToolDescriptionView>,
    name: Seq<char>,
    upto: int,
) -> Option<int>
    decreases upto,
{
    if upto <= 0 || upto > tools.len() {
        None
    } else if tools[upto - 1].name == name {
        Some(upto - 1)
    } else {
        index_of_tool(tools, name, upto - 1)
    }
}

/// The final answer that the state is ready to give before a new step: the
/// one that its last reasoning step gives.
pub open spec fn standing_answer(state: AgentStateView) -> Option<Seq<char>> {
    if state.reasoning_steps.len() > 0 {
        final_answer(state.reasoning_steps.last())
    } else {
        None
    }
}

/// The end of a run that used up its steps: the metadata is completed, an
/// error event and a completion event without success follow `events`, and
/// the result is no error.
pub open spec fn exhausted(r: RunView, now: u64, events: Seq<EventView>) -> (RunView, TurnView) {
    let metadata = r.state.metadata.completed_at(now);
    (
        RunView {
            state: AgentStateView { metadata, ..r.state },
            phase: Phase::Finished,
            ..r
        },
        TurnView {
            events: events.push(
                EventView::Error { message: max_steps_text(r.options.max_steps) },
            ).push(
                EventView::Completed {
                    success: false,
                    total_steps: metadata.total_steps,
                    duration: metadata.duration_at(now),
                },
            ),
            request: RequestView::Stop { result: Ok(()) },
        },
    )
}

/// The head of the loop: with no step left the run ends as `exhausted`
/// says; with a final answer standing the run ends with it and with
/// success; otherwise a new reasoning step begins, and the prompt for it is
/// asked to be completed.
pub open spec fn begin_iteration(r: RunView, now: u64, events: Seq<EventView>) -> (
    RunView,
    TurnView,
) {
    if r.step >= r.options.max_steps {
        exhausted(r, now, events)
    } else {
        match standing_answer(r.state) {
            Some(answer) => (
                RunView { phase: Phase::Finished, ..r },
                TurnView {
                    events: events.push(EventView::FinalAnswer { content: answer }).push(
                        EventView::Completed {
                            success: true,
                            total_steps: r.state.metadata.total_steps,
                            duration: r.state.metadata.duration_at(now),
                        },
                    ),
                    request: RequestView::Stop { result: Ok(()) },
                },
            ),
            None => (
                RunView {
                    phase: Phase::Reasoning,
                    step: (r.step + 1) as usize,
                    reasoning: Seq::empty(),
                    pending: Seq::empty(),
                    call: None,
                    gathered: Seq::empty(),
                    ..r
                },
                TurnView {
                    events,
                    request: RequestView::Reason {
                        prompt: prompt_text(
                            r.state.input,
                            r.state.reasoning_steps,
                            r.state.tool_calls,
                        ),
                    },
                },
            ),
        }
    }
}

/// The foot of the loop: the counters are reported, and the loop goes to its
/// head.
pub open spec fn end_iteration(r: RunView, now: u64, events: Seq<EventView>) -> (
    RunView,
    TurnView,
) {
    begin_iteration(r, now, events.push(EventView::Metadata { data: r.state.metadata }))
}

/// The beginning of a run: the start is reported, and the loop goes to its
/// head.
pub open spec fn started(r: RunView, now: u64) -> (RunView, TurnView) {
    begin_iteration(
        r,
        now,
        seq![
            EventView::Started {
                max_steps: r.options.max_steps,
                tools: Seq::new(r.tools.len(), |i: int| r.tools[i].name),
            },
        ],
    )
}

/// What a token does: it is added to the reasoning text and to the tokens
/// that wait; once as many wait as make a batch, all of them are forwarded.
pub open spec fn token_taken(r: RunView, token: Seq<char>) -> (RunView, Seq<EventView>) {
    let pending = r.pending.push(token);
    if pending.len() >= TOKEN_BATCH {
        (
            RunView { reasoning: r.reasoning + token, pending: Seq::empty(), ..r },
            token_events(pending),
        )
    } else {
        (RunView { reasoning: r.reasoning + token, pending, ..r }, Seq::empty())
    }
}

/// The record of a call that failed with `message`.
pub open spec fn failed_call(call: ToolCallView, message: Seq<char>) -> ToolCallResultView {
    ToolCallResultView { tool_call: call, outcome: OutcomeView::Error { message } }
}

/// The record of a call that returned `result`.
pub open spec fn returned_call(call: ToolCallView, result: Json) -> ToolCallResultView {
    ToolCallResultView { tool_call: call, outcome: OutcomeView::Success { result } }
}

/// What a failure of the call at hand does: it is reported, recorded as the
/// result of the call, and the loop goes to its foot. The run goes on.
pub open spec fn call_failed(
    r: RunView,
    call: ToolCallView,
    message: Seq<char>,
    now: u64,
    events: Seq<EventView>,
) -> (RunView, TurnView) {
    end_iteration(
        RunView { state: with_result(r.state, failed_call(call, message)), call: None, ..r },
        now,
        events.push(EventView::Error { message }),
    )
}

/// What a success of the call at hand does: the value is reported as a
/// result that is not streamed, recorded as the result of the call, and the
/// loop goes to its foot.
pub open spec fn call_returned(
    r: RunView,
    call: ToolCallView,
    result: Json,
    now: u64,
    events: Seq<EventView>,
) -> (RunView, TurnView) {
    end_iteration(
        RunView { state: with_result(r.state, returned_call(call, result)), call: None, ..r },
        now,
        events.push(
            EventView::ToolResult { name: call.name, result, is_streaming: Some(false) },
        ),
    )
}

/// What a request for a tool call does: it is reported; a tool that is not
/// registered is a failure of the call; a registered tool is asked to be
/// called, on its streaming path if it has one.
pub open spec fn dispatch(r: RunView, call: ToolCallView, now: u64, events: Seq<EventView>) -> (
    RunView,
    TurnView,
) {
    let announced = events.push(EventView::ToolCall { name: call.name, args: call.args });
    match index_of_tool(r.tools, call.name, r.tools.len() as int) {
        None => call_failed(r, call, unknown_tool_text(call.name), now, announced),
        Some(i) => if r.tools[i].supports_stream {
            (
                RunView { phase: Phase::Streaming, call: Some(call), gathered: Seq::empty(), ..r },
                TurnView { events: announced, request: RequestView::Stream { call } },
            )
        } else {
            (
                RunView { phase: Phase::Calling, call: Some(call), ..r },
                TurnView { events: announced, request: RequestView::Call { call } },
            )
        },
    }
}

/// What the end of the reasoning does. The tokens that wait are forwarded.
/// A text of whitespace only is dropped, and the loop goes to its head.
/// Any other text is reported and added to the state as a step; if it gives
/// a final answer the run ends with it and with success; else if it asks
/// for a tool call the call is dispatched; else the loop goes to its foot.
pub open spec fn reasoning_ended(r: RunView, now: u64) -> (RunView, TurnView) {
    let forwarded = token_events(r.pending);
    let text = r.reasoning;
    let cleared = RunView {
        phase: Phase::Idle,
        reasoning: Seq::empty(),
        pending: Seq::empty(),
        ..r
    };
    if trimmed(text).len() == 0 {
        begin_iteration(cleared, now, forwarded)
    } else {
        let events = forwarded.push(EventView::ReasoningStepDone { content: text });
        let stepped = RunView { state: with_step(r.state, text), ..cleared };
        match final_answer(text) {
            Some(answer) => {
                let metadata = stepped.state.metadata.completed_at(now);
                (
                    RunView {
                        state: AgentStateView { metadata, ..stepped.state },
                        phase: Phase::Finished,
                        ..stepped
                    },
                    TurnView {
                        events: events.push(EventView::FinalAnswer { content: answer }).push(
                            EventView::Completed {
                                success: true,
                                total_steps: metadata.total_steps,
                                duration: metadata.duration_at(now),
                            },
                        ),
                        request: RequestView::Stop { result: Ok(()) },
                    },
                )
            },
            None => match extracted_call(text) {
                Some(call) => dispatch(stepped, call, now, events),
                None => end_iteration(stepped, now, events),
            },
        }
    }
}

/// What a failure of the reasoning service does: it is reported, the
/// metadata is completed, a completion without success is reported, and the
/// run ends with the failure as its result.
pub open spec fn reasoning_broke(r: RunView, failure: Error, now: u64) -> (RunView, TurnView) {
    let metadata = r.state.metadata.completed_at(now);
    (
        RunView {
            state: AgentStateView { metadata, ..r.state },
            phase: Phase::Finished,
            ..r
        },
        TurnView {
            events: seq![
                EventView::Error { message: failure.message_text() },
                EventView::Completed {
                    success: false,
                    total_steps: metadata.total_steps,
                    duration: metadata.duration_at(now),
                },
            ],
            request: RequestView::Stop { result: Err(failure) },
        },
    )
}

/// What a chunk of a streamed result does: it is reported as a streamed
/// result, and added to what was gathered.
pub open spec fn chunk_taken(r: RunView, chunk: Seq<char>) -> (RunView, Seq<EventView>) {
    (
        RunView { gathered: r.gathered + chunk, ..r },
        seq![
            EventView::ToolResult {
                name: r.call->Some_0.name,
                result: Json::String(chunk),
                is_streaming: Some(true),
            },
        ],
    )
}

/// What a failure to open the stream of a tool does: it is reported, and
/// the tool is asked to be called on its other path.
pub open spec fn stream_broke(r: RunView, failure: Error) -> (RunView, TurnView) {
    (
        RunView { phase: Phase::Calling, ..r },
        TurnView {
            events: seq![EventView::Error { message: failure.message_text() }],
            request: RequestView::Call { call: r.call->Some_0 },
        },
    )
}

/// The content of an `Input`.
pub enum InputView {
    Start,
    Token(Seq<char>),
    ReasoningDone,
    ReasoningFailed(Error),
    Chunk(Seq<char>),
    StreamDone,
    StreamFailed(Error),
    Returned(Result<Json, Error>),
    TimedOut,
}

/// What a run is told.
#[derive(Debug, PartialEq, Eq)]
pub enum Input {
    /// To begin.
    Start,
    /// A token of reasoning came.
    Token(String),
    /// The tokens of the reasoning step have all come.
    ReasoningDone,
    /// The reasoning service failed.
    ReasoningFailed(Error),
    /// The tool streamed a chunk of its result.
    Chunk(String),
    /// The chunks of the tool have all come.
    StreamDone,
    /// The stream of the tool did not open.
    StreamFailed(Error),
    /// The tool returned a value, or failed.
    Returned(Result<JsonValue, Error>),
    /// The time limit of the tool call ran out.
    TimedOut,
}

impl View for Input {
    type V = InputView;

    open spec fn view(&self) -> InputView {
        match self {
            Input::Start => InputView::Start,
            Input::Token(token) => InputView::Token(token@),
            Input::ReasoningDone => InputView::ReasoningDone,
            Input::ReasoningFailed(failure) => InputView::ReasoningFailed(*failure),
            Input::Chunk(chunk) => InputView::Chunk(chunk@),
            Input::StreamDone => InputView::StreamDone,
            Input::StreamFailed(failure) => InputView::StreamFailed(*failure),
            Input::Returned(Ok(result)) => InputView::Returned(Ok(result@)),
            Input::Returned(Err(failure)) => InputView::Returned(Err(*failure)),
            Input::TimedOut => InputView::TimedOut,
        }
    }
}

/// Whether a run in the phase `phase` waits for the input `input`.
pub open spec fn fits(phase: Phase, input: InputView) -> bool {
    match input {
        InputView::Start => phase is Idle,
        InputView::Token(_) | InputView::ReasoningDone | InputView::ReasoningFailed(_) => phase
            is Reasoning,
        InputView::Chunk(_) | InputView::StreamDone | InputView::StreamFailed(_) => phase
            is Streaming,
        InputView::Returned(_) => phase is Calling,
        InputView::TimedOut => phase is Streaming || phase is Calling,
    }
}

/// The next state and the answer of a run that is told `input`, which it
/// waits for.
pub open spec fn handled(r: RunView, input: InputView, now: u64) -> (RunView, TurnView) {
    let idle = RunView { phase: Phase::Idle, ..r };
    match input {
        InputView::Start => started(r, now),
        InputView::Token(token) => (
            token_taken(r, token).0,
            TurnView { events: token_taken(r, token).1, request: RequestView::Continue },
        ),
        InputView::ReasoningDone => reasoning_ended(r, now),
        InputView::ReasoningFailed(failure) => reasoning_broke(r, failure, now),
        InputView::Chunk(chunk) => (
            chunk_taken(r, chunk).0,
            TurnView { events: chunk_taken(r, chunk).1, request: RequestView::Continue },
        ),
        InputView::StreamDone => call_returned(
            RunView { gathered: Seq::empty(), ..idle },
            r.call->Some_0,
            Json::String(r.gathered),
            now,
            Seq::empty(),
        ),
        InputView::StreamFailed(failure) => stream_broke(r, failure),
        InputView::Returned(Ok(result)) => call_returned(
            idle,
            r.call->Some_0,
            result,
            now,
            Seq::empty(),
        ),
        InputView::Returned(Err(failure)) => call_failed(
            idle,
            r.call->Some_0,
            failure.message_text(),
            now,
            Seq::empty(),
        ),
        InputView::TimedOut => call_failed(
            idle,
            r.call->Some_0,
            timeout_text(r.options.timeout),
            now,
            Seq::empty(),
        ),
    }
}

/// The view of an event list with one more event.
pub proof fn lemma_events_push(events: Seq<AgentEvent>, event: AgentEvent)
    ensures
        events_view(events.push(event)) == events_view(events).push(event@),
{
    assert(events_view(events.push(event)) =~= events_view(events).push(event@));
}

/// The tool that `tool_index` finds among descriptions is the one that
/// `index_of_tool` finds among their contents.
pub proof fn lemma_index_of_tool(tools: Seq<ToolDescription>, name: Seq<char>, upto: int)
    ensures
        index_of_tool(tools_view(tools), name, upto) == tool_index(tools, name, upto),
        tool_index(tools, name, upto) matches Some(i) ==> 0 <= i < upto && i < tools.len()
            && tools[i].name@ == name,
    decreases upto,
{
    if 0 < upto <= tools.len() {
        lemma_index_of_tool(tools, name, upto - 1);
    }
}

impl AgentRun {
    /// Whether the counters of the state leave room for the steps and
    /// calls that the run may still add, and a tool call is at hand where
    /// the run waits for a tool.
    pub open spec fn well_formed(&self) -> bool {
        &&& has_room(self@)
        &&& (self.phase is Streaming || self.phase is Calling) ==> self.call is Some
    }

    /// Whether the counters leave room for `steps` steps and `calls` calls
    /// now, and for one of each in every reasoning step that may still
    /// begin.
    pub open spec fn room(&self, steps: int, calls: int) -> bool {
        let left = self.agent.options.max_steps - self.step;
        &&& self.step <= self.agent.options.max_steps
        &&& self.state.metadata.total_steps + left + steps <= usize::MAX
        &&& self.state.metadata.tool_calls_count + left + calls <= usize::MAX
    }

    /// Whether the counters of the state leave room for what the run may
    /// still add, and a tool call is at hand where the run waits for a
    /// tool.
    pub fn is_well_formed(&self) -> (r: bool)
        ensures
            r == self.well_formed(),
    {
        let max = self.agent.options.max_steps;
        if self.step > max {
            return false;
        }
        let left = max - self.step;
        let (steps, calls, waits): (usize, usize, bool) = match self.phase {
            Phase::Reasoning => (1, 1, false),
            Phase::Streaming => (0, 1, true),
            Phase::Calling => (0, 1, true),
            Phase::Idle => (0, 0, false),
            Phase::Finished => (0, 0, false),
        };
        let total = self.state.metadata.total_steps;
        let count = self.state.metadata.tool_calls_count;
        if total > usize::MAX - left || usize::MAX - left - total < steps {
            return false;
        }
        if count > usize::MAX - left || usize::MAX - left - count < calls {
            return false;
        }
        !waits || self.call.is_some()
    }

    /// Whether this run waits for `input`.
    pub fn waits_for(&self, input: &Input) -> (r: bool)
        ensures
            r == fits(self.phase, input@),
    {
        match input {
            Input::Start => match self.phase {
                Phase::Idle => true,
                _ => false,
            },
            Input::Token(_) | Input::ReasoningDone | Input::ReasoningFailed(_) => match self.phase {
                Phase::Reasoning => true,
                _ => false,
            },
            Input::Chunk(_) | Input::StreamDone | Input::StreamFailed(_) => match self.phase {
                Phase::Streaming => true,
                _ => false,
            },
            Input::Returned(_) => match self.phase {
                Phase::Calling => true,
                _ => false,
            },
            Input::TimedOut => match self.phase {
                Phase::Streaming => true,
                Phase::Calling => true,
                _ => false,
            },
        }
    }

    /// Tells the run `input` at the time `now`, and returns its answer.
    /// Nothing is returned, and nothing changes, where the run does not
    /// wait for this input or its counters are out of range.
    pub fn handle(&mut self, input: Input, now: u64) -> (turn: Option<Turn>)
        ensures
            turn is Some <==> old(self).well_formed() && fits(old(self).phase, input@),
            turn matches Some(t) ==> final(self).well_formed() && final(self).agent == old(
                self,
            ).agent && (final(self)@, t@) == handled(old(self)@, input@, now),
            turn is None ==> *final(self) == *old(self),
    {
        if !self.is_well_formed() || !self.waits_for(&input) {
            return None;
        }
        let turn = match input {
            Input::Start => self.start(now),
            Input::Token(token) => Turn { events: self.token(token), request: Request::Continue },
            Input::ReasoningDone => self.reasoning_done(now),
            Input::ReasoningFailed(failure) => self.reasoning_failed(failure, now),
            Input::Chunk(chunk) => Turn {
                events: self.tool_chunk(chunk),
                request: Request::Continue,
            },
            Input::StreamDone => self.tool_stream_done(now),
            Input::StreamFailed(failure) => self.tool_stream_failed(failure),
            Input::Returned(outcome) => self.tool_returned(outcome, now),
            Input::TimedOut => self.tool_timed_out(now),
        };
        Some(turn)
    }

    /// A run of `agent` on `state` that has not begun.
    pub fn new(agent: Agent, state: AgentState) -> (run: AgentRun)
        requires
            state.metadata.total_steps + agent.options.max_steps <= usize::MAX,
            state.metadata.tool_calls_count + agent.options.max_steps <= usize::MAX,
        ensures
            run.well_formed(),
            run.agent == agent,
            run.state == state,
            run@ == (RunView {
                options: agent.options,
                tools: tools_view(agent.tools@),
                state: state@,
                phase: Phase::Idle,
                step: 0,
                reasoning: Seq::empty(),
                pending: Seq::empty(),
                call: None,
                gathered: Seq::empty(),
            }),
    {
        let run = AgentRun {
            agent,
            state,
            phase: Phase::Idle,
            step: 0,
            reasoning: String::new(),
            pending: Vec::new(),
            call: None,
            gathered: String::new(),
        };
        assert(run@.pending =~= Seq::empty());
        run
    }

    /// A run of `agent` on `state` that has not begun; none where the
    /// counters of the state leave no room for the steps that the agent may
    /// take.
    pub fn try_new(agent: Agent, state: AgentState) -> (run: Option<AgentRun>)
        ensures
            run is Some <==> state.metadata.total_steps + agent.options.max_steps <= usize::MAX
                && state.metadata.tool_calls_count + agent.options.max_steps <= usize::MAX,
            run matches Some(r) ==> r.well_formed() && r.agent == agent && r.state == state
                && r.phase is Idle && r.step == 0 && r@.reasoning.len() == 0 && r@.pending.len()
                == 0 && r@.call is None && r@.gathered.len() == 0,
    {
        let room = usize::MAX - agent.options.max_steps;
        if state.metadata.total_steps <= room && state.metadata.tool_calls_count <= room {
            Some(AgentRun::new(agent, state))
        } else {
            None
        }
    }

    /// Ends a run that used up its steps.
    fn exhaust(&mut self, now: u64, events: Vec<AgentEvent>) -> (turn: Turn)
        requires
            old(self).room(0, 0),
        ensures
            final(self).well_formed(),
            final(self).agent == old(self).agent,
            (final(self)@, turn@) == exhausted(old(self)@, now, events_view(events@)),
    {
        let mut events = events;
        self.state.metadata.complete(now);
        self.phase = Phase::Finished;
        let error = AgentError::MaxStepsExceeded(self.agent.options.max_steps);
        let failure = AgentEvent::err(error.message());
        proof {
            lemma_events_push(events@, failure);
        }
        events.push(failure);
        let done = AgentEvent::completed(
            false,
            self.state.total_steps(),
            self.state.metadata.get_duration(now),
        );
        proof {
            lemma_events_push(events@, done);
        }
        events.push(done);
        Turn { events, request: Request::Stop { result: Ok(()) } }
    }

    /// The final answer that the state is ready to give before a new step.
    fn standing(&self) -> (answer: Option<String>)
        ensures
            text_view(answer) == standing_answer(self.state@),
    {
        let n = self.state.reasoning_steps.len();
        if n > 0 {
            assert(texts(self.state.reasoning_steps@).last() == self.state.reasoning_steps@[n
                - 1]@);
            extract_final_answer(self.state.reasoning_steps[n - 1].as_str())
        } else {
            None
        }
    }

    /// Goes to the head of the loop.
    fn begin(&mut self, now: u64, events: Vec<AgentEvent>) -> (turn: Turn)
        requires
            old(self).room(0, 0),
        ensures
            final(self).well_formed(),
            final(self).agent == old(self).agent,
            (final(self)@, turn@) == begin_iteration(old(self)@, now, events_view(events@)),
    {
        if self.step >= self.agent.options.max_steps {
            return self.exhaust(now, events);
        }
        match self.standing() {
            Some(answer) => {
                let mut events = events;
                self.phase = Phase::Finished;
                let last = AgentEvent::FinalAnswer { content: answer };
                proof {
                    lemma_events_push(events@, last);
                }
                events.push(last);
                let done = AgentEvent::completed(
                    true,
                    self.state.total_steps(),
                    self.state.metadata.get_duration(now),
                );
                proof {
                    lemma_events_push(events@, done);
                }
                events.push(done);
                Turn { events, request: Request::Stop { result: Ok(()) } }
            },
            None => {
                self.phase = Phase::Reasoning;
                self.step = self.step + 1;
                self.reasoning = String::new();
                self.pending = Vec::new();
                self.call = None;
                self.gathered = String::new();
                assert(self@.pending =~= Seq::empty());
                let prompt = Agent::build_prompt(&self.state);
                Turn { events, request: Request::Reason { prompt } }
            },
        }
    }

    /// Goes to the foot of the loop.
    fn end(&mut self, now: u64, events: Vec<AgentEvent>) -> (turn: Turn)
        requires
            old(self).room(0, 0),
        ensures
            final(self).well_formed(),
            final(self).agent == old(self).agent,
            (final(self)@, turn@) == end_iteration(old(self)@, now, events_view(events@)),
    {
        let mut events = events;
        let report = AgentEvent::Metadata { data: self.state.metadata };
        proof {
            lemma_events_push(events@, report);
        }
        events.push(report);
        self.begin(now, events)
    }

    /// Begins the run: reports its start, and goes to the head of the loop.
    pub fn start(&mut self, now: u64) -> (turn: Turn)
        requires
            old(self).well_formed(),
            old(self).phase is Idle,
        ensures
            final(self).well_formed(),
            final(self).agent == old(self).agent,
            (final(self)@, turn@) == started(old(self)@, now),
    {
        let mut events: Vec<AgentEvent> = Vec::new();
        let names = self.agent.list_tools();
        let first = AgentEvent::started(self.agent.options.max_steps, names);
        proof {
            lemma_events_push(events@, first);
            assert(texts(names@) =~= Seq::new(
                self@.tools.len(),
                |i: int| self@.tools[i].name,
            ));
            assert(events_view(events@).push(first@) =~= seq![first@]);
        }
        events.push(first);
        self.begin(now, events)
    }

    /// Forwards the tokens that wait.
    fn flush(&mut self) -> (events: Vec<AgentEvent>)
        ensures
            events_view(events@) == token_events(old(self)@.pending),
            final(self)@ == (RunView { pending: Seq::empty(), ..old(self)@ }),
            final(self).agent == old(self).agent,
            final(self).state == old(self).state,
            final(self).phase == old(self).phase,
            final(self).step == old(self).step,
            final(self).call == old(self).call,
    {
        let mut tokens: Vec<String> = Vec::new();
        std::mem::swap(&mut self.pending, &mut tokens);
        assert(self@.pending =~= Seq::empty());
        let mut events: Vec<AgentEvent> = Vec::new();
        let mut i: usize = 0;
        while i < tokens.len()
            invariant
                i <= tokens@.len(),
                events@.len() == i,
                forall|j: int|
                    0 <= j < i ==> (#[trigger] events@[j])@ == (EventView::ReasoningToken {
                        content: tokens@[j]@,
                    }),
            decreases tokens.len() - i,
        {
            events.push(AgentEvent::reasoning_token(tokens[i].clone()));
            i += 1;
        }
        assert(events_view(events@) =~= token_events(texts(tokens@)));
        events
    }

    /// Takes in a token of reasoning, and returns the events to emit.
    pub fn token(&mut self, token: String) -> (events: Vec<AgentEvent>)
        requires
            old(self).well_formed(),
            old(self).phase is Reasoning,
        ensures
            final(self).well_formed(),
            final(self).agent == old(self).agent,
            (final(self)@, events_view(events@)) == token_taken(old(self)@, token@),
    {
        self.reasoning.append(token.as_str());
        self.pending.push(token);
        assert(self@.pending =~= old(self)@.pending.push(token@));
        if self.pending.len() >= TOKEN_BATCH {
            self.flush()
        } else {
            let events: Vec<AgentEvent> = Vec::new();
            assert(events_view(events@) =~= Seq::empty());
            events
        }
    }

    /// Records the result of the call at hand.
    fn record(&mut self, result: ToolCallResult)
        requires
            old(self).room(0, 1),
        ensures
            final(self).agent == old(self).agent,
            final(self)@ == (RunView {
                state: with_result(old(self)@.state, result@),
                call: None,
                phase: Phase::Idle,
                ..old(self)@
            }),
            final(self).room(0, 0),
    {
        self.state.add_tool_call(result);
        self.call = None;
        self.phase = Phase::Idle;
    }

    /// Reports and records a failure of the call `call`, and goes to the
    /// foot of the loop.
    fn fail_call(
        &mut self,
        call: ToolCall,
        message: String,
        now: u64,
        events: Vec<AgentEvent>,
    ) -> (turn: Turn)
        requires
            old(self).room(0, 1),
        ensures
            final(self).well_formed(),
            final(self).agent == old(self).agent,
            (final(self)@, turn@) == call_failed(
                RunView { phase: Phase::Idle, ..old(self)@ },
                call@,
                message@,
                now,
                events_view(events@),
            ),
    {
        let mut events = events;
        let report = AgentEvent::err(message.clone());
        proof {
            lemma_events_push(events@, report);
        }
        events.push(report);
        self.record(ToolCallResult::err(call.name, call.args, message));
        self.end(now, events)
    }

    /// Reports and records what the call `call` returned, and goes to the
    /// foot of the loop.
    fn pass_call(
        &mut self,
        call: ToolCall,
        result: JsonValue,
        now: u64,
        events: Vec<AgentEvent>,
    ) -> (turn: Turn)
        requires
            old(self).room(0, 1),
        ensures
            final(self).well_formed(),
            final(self).agent == old(self).agent,
            (final(self)@, turn@) == call_returned(
                RunView { phase: Phase::Idle, ..old(self)@ },
                call@,
                result@,
                now,
                events_view(events@),
            ),
    {
        let mut events = events;
        let report = AgentEvent::ToolResult {
            name: call.name.clone(),
            result: result.clone(),
            is_streaming: Some(false),
        };
        proof {
            lemma_events_push(events@, report);
        }
        events.push(report);
        self.record(ToolCallResult::success(call.name, call.args, result));
        self.end(now, events)
    }

    /// Reports the request for the call `call` and sees to it.
    fn send(&mut self, call: ToolCall, now: u64, events: Vec<AgentEvent>) -> (turn: Turn)
        requires
            old(self).room(0, 1),
        ensures
            final(self).well_formed(),
            final(self).agent == old(self).agent,
            (final(self)@, turn@) == dispatch(
                RunView { phase: Phase::Idle, ..old(self)@ },
                call@,
                now,
                events_view(events@),
            ),
    {
        let mut events = events;
        let announce = AgentEvent::ToolCall { name: call.name.clone(), args: call.args.clone() };
        proof {
            lemma_events_push(events@, announce);
            lemma_index_of_tool(self.agent.tools@, call.name@, self.agent.tools@.len() as int);
        }
        events.push(announce);
        let streams = match self.agent.find_tool(call.name.as_str()) {
            Some(tool) => Some(tool.supports_stream),
            None => None,
        };
        proof {
            let found = index_of_tool(self@.tools, call@.name, self@.tools.len() as int);
            if let Some(i) = found {
                assert(self@.tools[i] == self.agent.tools@[i]@);
                assert(streams == Some(self@.tools[i].supports_stream));
            } else {
                assert(streams is None);
            }
        }
        match streams {
            None => {
                let error = ToolError::Unknown(call.name.clone());
                let message = error.message();
                self.fail_call(call, message, now, events)
            },
            Some(true) => {
                self.phase = Phase::Streaming;
                self.gathered = String::new();
                let request = Request::Stream { call: call.clone() };
                self.call = Some(call);
                Turn { events, request }
            },
            Some(false) => {
                self.phase = Phase::Calling;
                let request = Request::Call { call: call.clone() };
                self.call = Some(call);
                Turn { events, request }
            },
        }
    }

    /// Takes in the end of the reasoning, and returns the events to emit and
    /// what to do next.
    pub fn reasoning_done(&mut self, now: u64) -> (turn: Turn)
        requires
            old(self).well_formed(),
            old(self).phase is Reasoning,
        ensures
            final(self).well_formed(),
            final(self).agent == old(self).agent,
            (final(self)@, turn@) == reasoning_ended(old(self)@, now),
    {
        let mut events = self.flush();
        let mut text = String::new();
        std::mem::swap(&mut self.reasoning, &mut text);
        if trim(&to_chars(text.as_str())).len() == 0 {
            self.phase = Phase::Idle;
            return self.begin(now, events);
        }
        let report = AgentEvent::ReasoningStepDone { content: text.clone() };
        proof {
            lemma_events_push(events@, report);
        }
        events.push(report);
        self.state.add_step(text.clone());
        match extract_final_answer(text.as_str()) {
            Some(answer) => {
                let last = AgentEvent::FinalAnswer { content: answer };
                proof {
                    lemma_events_push(events@, last);
                }
                events.push(last);
                self.state.metadata.complete(now);
                self.phase = Phase::Finished;
                let done = AgentEvent::completed(
                    true,
                    self.state.total_steps(),
                    self.state.metadata.get_duration(now),
                );
                proof {
                    lemma_events_push(events@, done);
                }
                events.push(done);
                Turn { events, request: Request::Stop { result: Ok(()) } }
            },
            None => match extract_tool_call(text.as_str()) {
                Some(call) => self.send(call, now, events),
                None => {
                    self.phase = Phase::Idle;
                    self.end(now, events)
                },
            },
        }
    }

    /// Takes in a failure of the reasoning service: the run ends with it.
    pub fn reasoning_failed(&mut self, failure: Error, now: u64) -> (turn: Turn)
        requires
            old(self).well_formed(),
            old(self).phase is Reasoning,
        ensures
            final(self).well_formed(),
            final(self).agent == old(self).agent,
            (final(self)@, turn@) == reasoning_broke(old(self)@, failure, now),
    {
        let mut events: Vec<AgentEvent> = Vec::new();
        let report = AgentEvent::err(failure.message());
        events.push(report);
        self.state.metadata.complete(now);
        self.phase = Phase::Finished;
        let done = AgentEvent::completed(
            false,
            self.state.total_steps(),
            self.state.metadata.get_duration(now),
        );
        events.push(done);
        assert(events_view(events@) =~= seq![report@, done@]);
        Turn { events, request: Request::Stop { result: Err(failure) } }
    }

    /// Takes in a chunk that the tool at hand streamed, and returns the
    /// event to emit.
    pub fn tool_chunk(&mut self, chunk: String) -> (events: Vec<AgentEvent>)
        requires
            old(self).well_formed(),
            old(self).phase is Streaming,
        ensures
            final(self).well_formed(),
            final(self).agent == old(self).agent,
            (final(self)@, events_view(events@)) == chunk_taken(old(self)@, chunk@),
    {
        self.gathered.append(chunk.as_str());
        let name = match &self.call {
            Some(call) => call.name.clone(),
            None => String::new(),
        };
        let mut events: Vec<AgentEvent> = Vec::new();
        let report = AgentEvent::ToolResult {
            name,
            result: JsonValue::String(chunk),
            is_streaming: Some(true),
        };
        events.push(report);
        assert(events_view(events@) =~= seq![report@]);
        events
    }

    /// Takes in the end of the stream of the tool at hand: what was
    /// gathered is the result of the call.
    pub fn tool_stream_done(&mut self, now: u64) -> (turn: Turn)
        requires
            old(self).well_formed(),
            old(self).phase is Streaming,
        ensures
            final(self).well_formed(),
            final(self).agent == old(self).agent,
            (final(self)@, turn@) == call_returned(
                RunView { phase: Phase::Idle, gathered: Seq::empty(), ..old(self)@ },
                old(self)@.call->Some_0,
                Json::String(old(self)@.gathered),
                now,
                Seq::empty(),
            ),
    {
        let mut gathered = String::new();
        std::mem::swap(&mut self.gathered, &mut gathered);
        let mut taken: Option<ToolCall> = None;
        std::mem::swap(&mut self.call, &mut taken);
        let events: Vec<AgentEvent> = Vec::new();
        assert(events_view(events@) =~= Seq::empty());
        match taken {
            Some(call) => self.pass_call(call, JsonValue::String(gathered), now, events),
            None => self.end(now, events),
        }
    }

    /// Takes in a failure to open the stream of the tool at hand: the tool
    /// is called on its other path.
    pub fn tool_stream_failed(&mut self, failure: Error) -> (turn: Turn)
        requires
            old(self).well_formed(),
            old(self).phase is Streaming,
        ensures
            final(self).well_formed(),
            final(self).agent == old(self).agent,
            (final(self)@, turn@) == stream_broke(old(self)@, failure),
    {
        let mut events: Vec<AgentEvent> = Vec::new();
        let report = AgentEvent::err(failure.message());
        events.push(report);
        assert(events_view(events@) =~= seq![report@]);
        self.phase = Phase::Calling;
        let call = match &self.call {
            Some(call) => call.clone(),
            None => ToolCall { name: String::new(), args: JsonValue::Null },
        };
        Turn { events, request: Request::Call { call } }
    }

    /// Takes in what the tool at hand returned: its value, or its failure,
    /// which is recorded with its message. Either way the run goes on.
    pub fn tool_returned(&mut self, outcome: Result<JsonValue, Error>, now: u64) -> (turn: Turn)
        requires
            old(self).well_formed(),
            old(self).phase is Calling,
        ensures
            final(self).well_formed(),
            final(self).agent == old(self).agent,
            (final(self)@, turn@) == match outcome {
                Ok(result) => call_returned(
                    RunView { phase: Phase::Idle, ..old(self)@ },
                    old(self)@.call->Some_0,
                    result@,
                    now,
                    Seq::empty(),
                ),
                Err(failure) => call_failed(
                    RunView { phase: Phase::Idle, ..old(self)@ },
                    old(self)@.call->Some_0,
                    failure.message_text(),
                    now,
                    Seq::empty(),
                ),
            },
    {
        let mut taken: Option<ToolCall> = None;
        std::mem::swap(&mut self.call, &mut taken);
        let events: Vec<AgentEvent> = Vec::new();
        assert(events_view(events@) =~= Seq::empty());
        match taken {
            Some(call) => match outcome {
                Ok(result) => self.pass_call(call, result, now, events),
                Err(failure) => self.fail_call(call, failure.message(), now, events),
            },
            None => self.end(now, events),
        }
    }

    /// Takes in that the time limit ran out before the tool at hand was
    /// done: the call is recorded as failed, and the run goes on.
    pub fn tool_timed_out(&mut self, now: u64) -> (turn: Turn)
        requires
            old(self).well_formed(),
            old(self).phase is Streaming || old(self).phase is Calling,
        ensures
            final(self).well_formed(),
            final(self).agent == old(self).agent,
            (final(self)@, turn@) == call_failed(
                RunView { phase: Phase::Idle, ..old(self)@ },
                old(self)@.call->Some_0,
                timeout_text(old(self).agent.options.timeout),
                now,
                Seq::empty(),
            ),
    {
        let mut taken: Option<ToolCall> = None;
        std::mem::swap(&mut self.call, &mut taken);
        let events: Vec<AgentEvent> = Vec::new();
        assert(events_view(events@) =~= Seq::empty());
        let failure = Error::Timeout(self.agent.options.timeout);
        match taken {
            Some(call) => self.fail_call(call, failure.message(), now, events),
            None => self.end(now, events),
        }
    }
}

/// The steps are bounded: the head of the loop asks for a reasoning step
/// only while fewer steps were begun than the run may take, and it counts
/// the step that it asks for.
pub proof fn law_steps_are_bounded(r: RunView, now: u64, events: Seq<EventView>)
    ensures
        begin_iteration(r, now, events).1.request is Reason ==> r.step < r.options.max_steps
            && begin_iteration(r, now, events).0.step == r.step + 1
            && begin_iteration(r, now, events).0.phase is Reasoning,
        !(begin_iteration(r, now, events).1.request is Reason) ==> begin_iteration(
            r,
            now,
            events,
        ).0.phase is Finished && begin_iteration(r, now, events).1.request == (RequestView::Stop {
            result: Ok(()),
        }),
{
}

/// With no step left the run ends without success and without an error as
/// its result: the last two events are the error that tells of the steps
/// used up and the completion, which carries the steps counted.
pub proof fn law_no_step_left(r: RunView, now: u64, events: Seq<EventView>)
    requires
        r.step >= r.options.max_steps,
    ensures
        ({
            let (after, turn) = begin_iteration(r, now, events);
            &&& after.phase is Finished
            &&& turn.request == (RequestView::Stop { result: Ok(()) })
            &&& turn.events.len() == events.len() + 2
            &&& turn.events[events.len() as int] == (EventView::Error {
                message: max_steps_text(r.options.max_steps),
            })
            &&& turn.events.last() == (EventView::Completed {
                success: false,
                total_steps: r.state.metadata.total_steps,
                duration: r.state.metadata.completed_at(now).duration_at(now),
            })
        }),
{
}

/// A text that gives a final answer is not blank.
pub proof fn lemma_answer_is_not_blank(text: Seq<char>)
    requires
        final_answer(text) is Some,
    ensures
        trimmed(text).len() > 0,
{
    reveal_strlit("final answer:");
    let lower = crate::text::lowered(text);
    crate::text::lemma_first_match_from(lower, "final answer:"@, 0);
    let pos = crate::text::first_match(lower, "final answer:"@)->Some_0;
    assert(lower.subrange(pos, pos + 13)[0] == 'f');
    assert(lower[pos] == 'f');
    assert(text[pos] == 'f' || text[pos] == 'F') by {
        let c = text[pos];
        assert(crate::text::ascii_lower(c) == 'f');
        if 'A' <= c <= 'Z' {
            assert((c as u8) + 32 == 102);
        }
    }
    let lo = crate::text::lemma_trimmed_start_is_tail(text);
    assert(lo <= pos) by {
        if lo > pos {
            assert(crate::text::is_whitespace(text[pos]));
        }
    }
    let tail = crate::text::trimmed_start(text);
    let kept = crate::text::lemma_trimmed_end_is_head(tail);
    assert(tail[pos - lo] == text[pos]);
    if kept <= pos - lo {
        assert(crate::text::is_whitespace(tail[pos - lo]));
    }
}

/// The last permitted step without an answer: when the reasoning of the
/// last step that the run may take ends with a text that is not blank, gives
/// no final answer and asks for no tool call, the run ends at once. No
/// further reasoning is asked for; the step is counted, so that a run of one
/// step on a fresh state completes with one step; and the completion tells
/// of no success.
pub proof fn law_last_step_without_answer(r: RunView, now: u64)
    requires
        r.step >= r.options.max_steps,
        trimmed(r.reasoning).len() > 0,
        final_answer(r.reasoning) is None,
        extracted_call(r.reasoning) is None,
    ensures
        ({
            let (after, turn) = reasoning_ended(r, now);
            &&& after.phase is Finished
            &&& after.step == r.step
            &&& after.state.reasoning_steps == r.state.reasoning_steps.push(r.reasoning)
            &&& turn.request == (RequestView::Stop { result: Ok(()) })
            &&& turn.events.last() == (EventView::Completed {
                success: false,
                total_steps: (r.state.metadata.total_steps + 1) as usize,
                duration: one_more_step(r.state.metadata).completed_at(now).duration_at(now),
            })
        }),
{
}

/// A final answer ends the run on the step that gives it: when the
/// reasoning ends with a text that gives a final answer, the tokens that
/// wait are forwarded, the step is reported and counted, the answer and a
/// completion with success follow, and the run is over. No further
/// reasoning and no tool call is asked for.
pub proof fn law_final_answer_ends_the_run(r: RunView, now: u64)
    requires
        final_answer(r.reasoning) is Some,
    ensures
        ({
            let (after, turn) = reasoning_ended(r, now);
            let metadata = one_more_step(r.state.metadata).completed_at(now);
            &&& after.phase is Finished
            &&& after.step == r.step
            &&& after.state.reasoning_steps == r.state.reasoning_steps.push(r.reasoning)
            &&& after.state.tool_calls == r.state.tool_calls
            &&& turn.request == (RequestView::Stop { result: Ok(()) })
            &&& turn.events == token_events(r.pending).push(
                EventView::ReasoningStepDone { content: r.reasoning },
            ).push(EventView::FinalAnswer { content: final_answer(r.reasoning)->Some_0 }).push(
                EventView::Completed {
                    success: true,
                    total_steps: metadata.total_steps,
                    duration: metadata.duration_at(now),
                },
            )
        }),
{
    lemma_answer_is_not_blank(r.reasoning);
}

/// A failed tool call does not end the run: the failure is reported and
/// recorded as the result of the call, under the step that asked for it;
/// the call is counted, the steps counted stay as they are, and either the
/// next reasoning step begins or the run ends without an error as its
/// result.
pub proof fn law_failed_call_goes_on(
    r: RunView,
    call: ToolCallView,
    message: Seq<char>,
    now: u64,
    events: Seq<EventView>,
)
    ensures
        ({
            let (after, turn) = call_failed(r, call, message, now, events);
            &&& after.state.tool_calls == r.state.tool_calls.push(
                recorded(r.state, failed_call(call, message)),
            )
            &&& after.state.reasoning_steps == r.state.reasoning_steps
            &&& after.state.metadata.tool_calls_count == (r.state.metadata.tool_calls_count
                + 1) as usize
            &&& after.state.metadata.total_steps == r.state.metadata.total_steps
            &&& turn.events.len() >= events.len() + 2
            &&& turn.events[events.len() as int] == (EventView::Error { message })
            &&& turn.events[events.len() as int + 1] == (EventView::Metadata {
                data: one_more_call(r.state.metadata),
            })
            &&& (turn.request is Reason && after.phase is Reasoning && after.step == r.step + 1)
                || (turn.request == (RequestView::Stop { result: Ok(()) }) && after.phase
                is Finished && after.step == r.step)
        }),
{
}

/// A tool call that returned is recorded under the step that asked for it:
/// the value is reported as a result that is not streamed, the result is
/// recorded with the number of the last reasoning step, the call is counted,
/// the steps stay as they are, and either the next reasoning step begins or
/// the run ends without an error as its result.
pub proof fn law_returned_call_goes_on(
    r: RunView,
    call: ToolCallView,
    result: Json,
    now: u64,
    events: Seq<EventView>,
)
    ensures
        ({
            let (after, turn) = call_returned(r, call, result, now, events);
            &&& after.state.tool_calls == r.state.tool_calls.push(
                RecordedCallView {
                    step: r.state.reasoning_steps.len() as usize,
                    result: returned_call(call, result),
                },
            )
            &&& after.state.reasoning_steps == r.state.reasoning_steps
            &&& after.state.metadata.tool_calls_count == (r.state.metadata.tool_calls_count
                + 1) as usize
            &&& after.state.metadata.total_steps == r.state.metadata.total_steps
            &&& turn.events.len() >= events.len() + 2
            &&& turn.events[events.len() as int] == (EventView::ToolResult {
                name: call.name,
                result,
                is_streaming: Some(false),
            })
            &&& turn.events[events.len() as int + 1] == (EventView::Metadata {
                data: one_more_call(r.state.metadata),
            })
            &&& (turn.request is Reason && after.phase is Reasoning && after.step == r.step + 1)
                || (turn.request == (RequestView::Stop { result: Ok(()) }) && after.phase
                is Finished && after.step == r.step)
        }),
{
}

/// A call to a tool that is not registered does not end the run: it is
/// recorded as a failed call with the message that names the tool, and
/// either the next reasoning step begins or the run ends without an error as
/// its result.
pub proof fn law_unknown_tool_goes_on(
    r: RunView,
    call: ToolCallView,
    now: u64,
    events: Seq<EventView>,
)
    requires
        index_of_tool(r.tools, call.name, r.tools.len() as int) is None,
    ensures
        ({
            let (after, turn) = dispatch(r, call, now, events);
            &&& after.state.tool_calls == r.state.tool_calls.push(
                recorded(r.state, failed_call(call, unknown_tool_text(call.name))),
            )
            &&& after.state.metadata.total_steps == r.state.metadata.total_steps
            &&& turn.events[events.len() as int] == (EventView::ToolCall {
                name: call.name,
                args: call.args,
            })
            &&& turn.events[events.len() as int + 1] == (EventView::Error {
                message: unknown_tool_text(call.name),
            })
            &&& (turn.request is Reason && after.phase is Reasoning && after.step == r.step + 1)
                || (turn.request == (RequestView::Stop { result: Ok(()) }) && after.phase
                is Finished)
        }),
{
    let announced = events.push(EventView::ToolCall { name: call.name, args: call.args });
    law_failed_call_goes_on(r, call, unknown_tool_text(call.name), now, announced);
}

/// A tool call that runs out of time does not end the run: it is recorded
/// as a failed call with the message of the time limit, the step that asked
/// for it stays counted, and either the next reasoning step begins, with one
/// more step begun, or the run ends without an error as its result.
pub proof fn law_timeout_goes_on(r: RunView, now: u64)
    requires
        r.call is Some,
    ensures
        ({
            let idle = RunView { phase: Phase::Idle, ..r };
            let call = r.call->Some_0;
            let (after, turn) = call_failed(
                idle,
                call,
                timeout_text(r.options.timeout),
                now,
                Seq::empty(),
            );
            &&& after.state.tool_calls == r.state.tool_calls.push(
                recorded(r.state, failed_call(call, timeout_text(r.options.timeout))),
            )
            &&& after.state.metadata.total_steps == r.state.metadata.total_steps
            &&& turn.events[0] == (EventView::Error { message: timeout_text(r.options.timeout) })
            &&& (turn.request is Reason && after.phase is Reasoning && after.step == r.step + 1)
                || (turn.request == (RequestView::Stop { result: Ok(()) }) && after.phase
                is Finished)
        }),
{
    law_failed_call_goes_on(
        RunView { phase: Phase::Idle, ..r },
        r.call->Some_0,
        timeout_text(r.options.timeout),
        now,
        Seq::empty(),
    );
}

/// Each reasoning step is counted once, and each result of a tool call
/// once.
pub proof fn law_counters_follow(state: AgentStateView, text: Seq<char>, result: ToolCallResultView)
    ensures
        with_step(state, text).metadata.total_steps == (state.metadata.total_steps + 1) as usize,
        with_step(state, text).metadata.tool_calls_count == state.metadata.tool_calls_count,
        with_step(state, text).reasoning_steps.len() == state.reasoning_steps.len() + 1,
        with_result(state, result).metadata.tool_calls_count == (state.metadata.tool_calls_count
            + 1) as usize,
        with_result(state, result).metadata.total_steps == state.metadata.total_steps,
        with_result(state, result).tool_calls.len() == state.tool_calls.len() + 1,
{
}

/// Whether the counters of a run leave room for what it may still add: one
/// step and one call in each reasoning step that may still begin, and what
/// the phase at hand may still add.
pub open spec fn has_room(r: RunView) -> bool {
    let left = r.options.max_steps - r.step;
    let steps: int = if r.phase is Reasoning {
        1
    } else {
        0
    };
    let calls: int = if r.phase is Reasoning || r.phase is Streaming || r.phase is Calling {
        1
    } else {
        0
    };
    &&& r.step <= r.options.max_steps
    &&& r.state.metadata.total_steps + left + steps <= usize::MAX
    &&& r.state.metadata.tool_calls_count + left + calls <= usize::MAX
}

/// The state of a run that was told `inputs`, each with the time at which it
/// came. An input that the run does not wait for changes nothing.
pub open spec fn told(r: RunView, inputs: Seq<(InputView, u64)>) -> RunView
    decreases inputs.len(),
{
    if inputs.len() == 0 {
        r
    } else {
        let before = told(r, inputs.drop_last());
        if fits(before.phase, inputs.last().0) {
            handled(before, inputs.last().0, inputs.last().1).0
        } else {
            before
        }
    }
}

/// How often a run that was told `inputs` asked for a reasoning step.
pub open spec fn reasons_asked(r: RunView, inputs: Seq<(InputView, u64)>) -> nat
    decreases inputs.len(),
{
    if inputs.len() == 0 {
        0
    } else {
        let before = told(r, inputs.drop_last());
        let earlier = reasons_asked(r, inputs.drop_last());
        if fits(before.phase, inputs.last().0) && handled(
            before,
            inputs.last().0,
            inputs.last().1,
        ).1.request is Reason {
            earlier + 1
        } else {
            earlier
        }
    }
}

/// What one input does to the counters of a run: the options and the tools
/// stay; a step is begun exactly where a reasoning step is asked for; the
/// steps counted grow as the steps held do, and the calls counted as the
/// results held do; and room is left for what may still come.
pub proof fn lemma_one_input(r: RunView, input: InputView, now: u64)
    requires
        has_room(r),
        fits(r.phase, input),
    ensures
        ({
            let (after, turn) = handled(r, input, now);
            &&& has_room(after)
            &&& after.options == r.options
            &&& after.tools == r.tools
            &&& after.step == r.step + if turn.request is Reason {
                1int
            } else {
                0int
            }
            &&& after.state.reasoning_steps.len() >= r.state.reasoning_steps.len()
            &&& after.state.metadata.total_steps - r.state.metadata.total_steps
                == after.state.reasoning_steps.len() - r.state.reasoning_steps.len()
            &&& after.state.tool_calls.len() >= r.state.tool_calls.len()
            &&& after.state.metadata.tool_calls_count - r.state.metadata.tool_calls_count
                == after.state.tool_calls.len() - r.state.tool_calls.len()
        }),
{
    match input {
        InputView::ReasoningDone => {
            if final_answer(r.reasoning) is Some {
                lemma_answer_is_not_blank(r.reasoning);
            }
        },
        _ => {},
    }
}

/// The loop never takes more reasoning steps than it may: however a run is
/// driven, it has asked for a reasoning step as often as it has begun one,
/// and it never begins more than its options allow. What it counts is what
/// it holds: the steps counted grow with the reasoning steps held, and the
/// calls counted with the results held, one for one.
pub proof fn law_reasoning_is_bounded(r: RunView, inputs: Seq<(InputView, u64)>)
    requires
        has_room(r),
    ensures
        has_room(told(r, inputs)),
        told(r, inputs).options == r.options,
        told(r, inputs).tools == r.tools,
        told(r, inputs).step <= r.options.max_steps,
        reasons_asked(r, inputs) == told(r, inputs).step - r.step,
        reasons_asked(r, inputs) <= r.options.max_steps - r.step,
        told(r, inputs).state.metadata.total_steps - r.state.metadata.total_steps == told(
            r,
            inputs,
        ).state.reasoning_steps.len() - r.state.reasoning_steps.len(),
        told(r, inputs).state.metadata.tool_calls_count - r.state.metadata.tool_calls_count
            == told(r, inputs).state.tool_calls.len() - r.state.tool_calls.len(),
    decreases inputs.len(),
{
    if inputs.len() > 0 {
        law_reasoning_is_bounded(r, inputs.drop_last());
        let before = told(r, inputs.drop_last());
        if fits(before.phase, inputs.last().0) {
            lemma_one_input(before, inputs.last().0, inputs.last().1);
        }
    }
}

} // verus!
