use openagent::agent::{Agent, AgentEvent, AgentMetadata, AgentOptions, AgentState};
use openagent::error::Error;
use openagent::http::Auth;
use openagent::json::JsonValue;
use openagent::run::{AgentRun, Input, Phase, Request, Turn};
use openagent::tool::{
    RecordedCall, ToolCall, ToolCallOutcome, ToolCallResult, ToolDescription,
};

fn auth() -> Auth {
    Auth { uri: "https://api.example".to_string(), key: "SECRET-REDACTED".to_string() }
}

fn tool(name: &str, streams: bool) -> ToolDescription {
    ToolDescription {
        name: name.to_string(),
        description: format!("the {name} tool"),
        schema: JsonValue::Object(vec![("type".to_string(), JsonValue::String("object".to_string()))]),
        supports_stream: streams,
    }
}

fn agent(max_steps: usize) -> Agent {
    let mut agent = Agent::builder(auth()).max_steps(max_steps).timeout(1500).build();
    agent.register_tool(tool("search", false));
    agent.register_tool(tool("tail", true));
    agent
}

fn run(max_steps: usize) -> AgentRun {
    AgentRun::new(agent(max_steps), AgentState::new("What is six times seven?".to_string(), 1000))
}

fn say(run: &mut AgentRun, text: &str) -> Vec<AgentEvent> {
    run.token(text.to_string())
}

fn search_args() -> JsonValue {
    JsonValue::Object(vec![("q".to_string(), JsonValue::String("x".to_string()))])
}

fn search_call() -> ToolCall {
    ToolCall { name: "search".to_string(), args: search_args() }
}

fn completed(success: bool, total_steps: usize, duration: u64) -> AgentEvent {
    AgentEvent::Completed { success, total_steps, duration: Some(duration) }
}

fn metadata(total_steps: usize, tool_calls_count: usize) -> AgentEvent {
    AgentEvent::Metadata {
        data: AgentMetadata {
            total_steps,
            tool_calls_count,
            start_time: Some(1000),
            end_time: None,
            duration_ms: None,
        },
    }
}

#[test]
fn start_reports_the_start_and_asks_for_reasoning() {
    let mut run = run(3);
    let turn = run.start(1001);
    assert_eq!(
        turn,
        Turn {
            events: vec![AgentEvent::Started {
                max_steps: 3,
                tools: vec!["search".to_string(), "tail".to_string()]
            }],
            request: Request::Reason {
                prompt: "Question: What is six times seven?\n\nThought 1: ".to_string()
            },
        }
    );
    assert_eq!(run.phase, Phase::Reasoning);
    assert_eq!(run.step, 1);
}

#[test]
fn one_step_without_answer_ends_with_failed_completion() {
    let mut run = run(1);
    run.start(1000);
    say(&mut run, "I am not sure yet.");
    let turn = run.reasoning_done(1250);
    assert_eq!(
        turn,
        Turn {
            events: vec![
                AgentEvent::ReasoningToken { content: "I am not sure yet.".to_string() },
                AgentEvent::ReasoningStepDone { content: "I am not sure yet.".to_string() },
                metadata(1, 0),
                AgentEvent::Error {
                    message: "maximum steps 1 reached without final answer".to_string()
                },
                completed(false, 1, 250),
            ],
            request: Request::Stop { result: Ok(()) },
        }
    );
    assert_eq!(run.phase, Phase::Finished);
    assert_eq!(run.step, 1);
    assert_eq!(run.state.reasoning_steps, vec!["I am not sure yet.".to_string()]);
    assert_eq!(run.state.metadata.end_time, Some(1250));
    assert_eq!(run.state.metadata.duration_ms, Some(250));
}

#[test]
fn no_step_at_all_ends_at_once() {
    let mut run = run(0);
    let turn = run.start(1004);
    assert_eq!(
        turn,
        Turn {
            events: vec![
                AgentEvent::Started {
                    max_steps: 0,
                    tools: vec!["search".to_string(), "tail".to_string()]
                },
                AgentEvent::Error {
                    message: "maximum steps 0 reached without final answer".to_string()
                },
                completed(false, 0, 4),
            ],
            request: Request::Stop { result: Ok(()) },
        }
    );
}

#[test]
fn final_answer_ends_the_run_on_the_same_step() {
    let mut run = run(5);
    run.start(1000);
    say(&mut run, "... Final Answer: 42");
    let turn = run.reasoning_done(1900);
    assert_eq!(
        turn,
        Turn {
            events: vec![
                AgentEvent::ReasoningToken { content: "... Final Answer: 42".to_string() },
                AgentEvent::ReasoningStepDone { content: "... Final Answer: 42".to_string() },
                AgentEvent::FinalAnswer { content: "42".to_string() },
                completed(true, 1, 900),
            ],
            request: Request::Stop { result: Ok(()) },
        }
    );
    assert_eq!(run.phase, Phase::Finished);
    assert_eq!(run.step, 1);
}

#[test]
fn standing_answer_ends_the_run_before_a_new_step() {
    let mut state = AgentState::new("q".to_string(), 10);
    state.add_step("Final answer: done".to_string());
    let mut run = AgentRun::new(agent(4), state);
    let turn = run.start(25);
    assert_eq!(
        turn.events[1..],
        [AgentEvent::FinalAnswer { content: "done".to_string() }, completed(true, 1, 15)]
    );
    assert_eq!(turn.request, Request::Stop { result: Ok(()) });
    assert_eq!(run.state.metadata.end_time, None);
}

#[test]
fn marker_in_an_earlier_step_only_does_not_end_the_run() {
    let mut state = AgentState::new("q".to_string(), 10);
    state.add_step("Final answer: early".to_string());
    state.add_step("but I changed my mind".to_string());
    let mut run = AgentRun::new(agent(4), state);
    let turn = run.start(25);
    assert!(matches!(turn.request, Request::Reason { .. }));
}

#[test]
fn tokens_are_forwarded_in_batches_of_five() {
    let mut run = run(2);
    run.start(1000);
    for token in ["a", "b", "c", "d"] {
        assert_eq!(say(&mut run, token), vec![]);
    }
    assert_eq!(
        say(&mut run, "e"),
        ["a", "b", "c", "d", "e"]
            .iter()
            .map(|t| AgentEvent::ReasoningToken { content: t.to_string() })
            .collect::<Vec<_>>()
    );
    assert_eq!(say(&mut run, "f"), vec![]);
    assert_eq!(run.reasoning, "abcdef");
    let turn = run.reasoning_done(1001);
    assert_eq!(turn.events[0], AgentEvent::ReasoningToken { content: "f".to_string() });
    assert_eq!(turn.events[1], AgentEvent::ReasoningStepDone { content: "abcdef".to_string() });
}

#[test]
fn blank_reasoning_is_dropped_but_uses_a_step() {
    let mut run = run(2);
    run.start(1000);
    say(&mut run, "  \n");
    let turn = run.reasoning_done(1001);
    assert_eq!(
        turn,
        Turn {
            events: vec![AgentEvent::ReasoningToken { content: "  \n".to_string() }],
            request: Request::Reason {
                prompt: "Question: What is six times seven?\n\nThought 1: ".to_string()
            },
        }
    );
    assert_eq!(run.step, 2);
    assert_eq!(run.state.total_steps(), 0);
    let turn = run.reasoning_done(1002);
    assert_eq!(
        turn,
        Turn {
            events: vec![
                AgentEvent::Error {
                    message: "maximum steps 2 reached without final answer".to_string()
                },
                completed(false, 0, 2),
            ],
            request: Request::Stop { result: Ok(()) },
        }
    );
}

#[test]
fn unknown_tool_is_recorded_and_the_run_goes_on() {
    let mut run = run(3);
    run.start(1000);
    say(&mut run, "{\"tool\":\"missing\",\"args\":{\"q\":\"x\"}}");
    let turn = run.reasoning_done(1001);
    assert_eq!(
        turn.events[2..],
        [
            AgentEvent::ToolCall { name: "missing".to_string(), args: search_args() },
            AgentEvent::Error { message: "unknown tool: missing".to_string() },
            metadata(1, 1),
        ]
    );
    assert!(matches!(turn.request, Request::Reason { .. }));
    assert_eq!(run.phase, Phase::Reasoning);
    assert_eq!(run.step, 2);
    assert_eq!(
        run.state.tool_calls,
        vec![RecordedCall {
            step: 1,
            result: ToolCallResult {
                tool_call: ToolCall { name: "missing".to_string(), args: search_args() },
                outcome: ToolCallOutcome::Error { message: "unknown tool: missing".to_string() },
            },
        }]
    );
}

#[test]
fn tool_result_is_recorded_and_shown_in_the_next_prompt() {
    let mut run = run(3);
    run.start(1000);
    say(&mut run, "```json\n{\"tool\":\"search\",\"args\":{\"q\":\"x\"}}\n```");
    let turn = run.reasoning_done(1001);
    assert_eq!(turn.request, Request::Call { call: search_call() });
    assert_eq!(
        turn.events.last(),
        Some(&AgentEvent::ToolCall { name: "search".to_string(), args: search_args() })
    );
    assert_eq!(run.phase, Phase::Calling);
    let turn = run.tool_returned(Ok(JsonValue::Number("42".to_string())), 1002);
    assert_eq!(
        turn,
        Turn {
            events: vec![
                AgentEvent::ToolResult {
                    name: "search".to_string(),
                    result: JsonValue::Number("42".to_string()),
                    is_streaming: Some(false)
                },
                metadata(1, 1),
            ],
            request: Request::Reason {
                prompt: "Question: What is six times seven?\n\nThought 1: ```json\n{\"tool\":\"search\",\"args\":{\"q\":\"x\"}}\n```\nAction: search\nAction Input: {\"q\":\"x\"}\nObservation: 42\n\nThought 2: ".to_string()
            },
        }
    );
    assert_eq!(run.step, 2);
    assert_eq!(run.call, None);
}

#[test]
fn tool_failure_is_recorded_and_the_run_goes_on() {
    let mut run = run(3);
    run.start(1000);
    say(&mut run, "{\"tool\":\"search\",\"args\":{\"q\":\"x\"}}");
    run.reasoning_done(1001);
    let turn = run.tool_returned(Err(Error::Any("no network".to_string())), 1002);
    assert_eq!(
        turn.events,
        vec![AgentEvent::Error { message: "no network".to_string() }, metadata(1, 1)]
    );
    match turn.request {
        Request::Reason { prompt } => assert!(prompt.ends_with(
            "Action: search\nAction Input: {\"q\":\"x\"}\nError: no network\n\nThought 2: "
        )),
        other => panic!("unexpected request {other:?}"),
    }
}

#[test]
fn timeout_is_recorded_and_the_step_counter_advances() {
    let mut run = run(3);
    run.start(1000);
    say(&mut run, "{\"tool\":\"search\",\"args\":{\"q\":\"x\"}}");
    run.reasoning_done(1001);
    let turn = run.tool_timed_out(2501);
    assert_eq!(
        turn.events,
        vec![AgentEvent::Error { message: "timeout after 1.5s".to_string() }, metadata(1, 1)]
    );
    assert!(matches!(turn.request, Request::Reason { .. }));
    assert_eq!(run.step, 2);
    assert_eq!(run.state.total_steps(), 1);
    assert_eq!(
        run.state.tool_calls,
        vec![RecordedCall {
            step: 1,
            result: ToolCallResult {
                tool_call: search_call(),
                outcome: ToolCallOutcome::Error { message: "timeout after 1.5s".to_string() },
            },
        }]
    );
}

#[test]
fn timeout_on_the_last_step_ends_the_run_without_error_result() {
    let mut run = run(1);
    run.start(1000);
    say(&mut run, "{\"tool\":\"search\",\"args\":{\"q\":\"x\"}}");
    run.reasoning_done(1001);
    let turn = run.tool_timed_out(2501);
    assert_eq!(turn.request, Request::Stop { result: Ok(()) });
    assert_eq!(turn.events.last(), Some(&completed(false, 1, 1501)));
}

#[test]
fn streaming_tool_reports_chunks_and_the_gathered_result() {
    let mut run = run(3);
    run.start(1000);
    say(&mut run, "{\"tool\":\"tail\",\"args\":{\"q\":\"x\"}}");
    let turn = run.reasoning_done(1001);
    let call = ToolCall { name: "tail".to_string(), args: search_args() };
    assert_eq!(turn.request, Request::Stream { call: call.clone() });
    assert_eq!(run.phase, Phase::Streaming);
    assert_eq!(
        run.tool_chunk("ab".to_string()),
        vec![AgentEvent::ToolResult {
            name: "tail".to_string(),
            result: JsonValue::String("ab".to_string()),
            is_streaming: Some(true)
        }]
    );
    run.tool_chunk("cd".to_string());
    let turn = run.tool_stream_done(1002);
    assert_eq!(
        turn.events,
        vec![
            AgentEvent::ToolResult {
                name: "tail".to_string(),
                result: JsonValue::String("abcd".to_string()),
                is_streaming: Some(false)
            },
            metadata(1, 1),
        ]
    );
    assert_eq!(
        run.state.tool_calls,
        vec![RecordedCall {
            step: 1,
            result: ToolCallResult {
                tool_call: call,
                outcome: ToolCallOutcome::Success { result: JsonValue::String("abcd".to_string()) },
            },
        }]
    );
}

#[test]
fn stream_failure_falls_back_to_the_other_path() {
    let mut run = run(3);
    run.start(1000);
    say(&mut run, "{\"tool\":\"tail\",\"args\":{\"q\":\"x\"}}");
    run.reasoning_done(1001);
    let turn = run.tool_stream_failed(Error::Any("no stream".to_string()));
    assert_eq!(
        turn,
        Turn {
            events: vec![AgentEvent::Error { message: "no stream".to_string() }],
            request: Request::Call {
                call: ToolCall { name: "tail".to_string(), args: search_args() }
            },
        }
    );
    assert_eq!(run.phase, Phase::Calling);
    assert_eq!(run.state.tool_calls, vec![]);
}

#[test]
fn reasoning_failure_ends_the_run_with_the_error() {
    let mut run = run(3);
    run.start(1000);
    let turn = run.reasoning_failed(Error::Reqwest("connection refused".to_string()), 1300);
    assert_eq!(
        turn,
        Turn {
            events: vec![
                AgentEvent::Error { message: "connection refused".to_string() },
                completed(false, 0, 300),
            ],
            request: Request::Stop { result: Err(Error::Reqwest("connection refused".to_string())) },
        }
    );
    assert_eq!(run.phase, Phase::Finished);
}

#[test]
fn never_more_reasoning_steps_than_allowed() {
    for max_steps in 0..6usize {
        let mut run = run(max_steps);
        let mut turn = run.start(0);
        let mut asked = 0usize;
        while let Request::Reason { .. } = turn.request {
            asked += 1;
            say(&mut run, "still thinking");
            turn = run.reasoning_done(asked as u64);
        }
        assert_eq!(asked, max_steps);
        assert_eq!(turn.request, Request::Stop { result: Ok(()) });
        assert_eq!(run.state.total_steps(), max_steps);
        assert_eq!(run.state.current_step(), max_steps);
    }
}

#[test]
fn default_options_are_as_documented() {
    assert_eq!(
        AgentOptions::default(),
        AgentOptions {
            max_steps: 10,
            timeout: 300_000,
            temperature: 700,
            max_completion_tokens: 4000,
            reasoning_effort: false
        }
    );
    let builder = Agent::builder(auth());
    assert_eq!(builder.options, AgentOptions::default());
    assert_eq!(builder.custom_instructions, None);
}

#[test]
fn builder_sets_each_option() {
    let agent = Agent::builder(auth())
        .max_steps(3)
        .timeout(20)
        .temperature(1250)
        .max_completion_tokens(77)
        .reasoning_effort(true)
        .custom_instructions("Be brief.".to_string())
        .build();
    assert_eq!(
        agent.options,
        AgentOptions {
            max_steps: 3,
            timeout: 20,
            temperature: 1250,
            max_completion_tokens: 77,
            reasoning_effort: true
        }
    );
    assert_eq!(agent.custom_instructions, Some("Be brief.".to_string()));
    assert!(agent.tools.is_empty());
}

#[test]
fn temperature_is_clamped() {
    assert_eq!(Agent::builder(auth()).temperature(2000).options.temperature, 2000);
    assert_eq!(Agent::builder(auth()).temperature(2001).options.temperature, 2000);
    assert_eq!(Agent::builder(auth()).temperature(u32::MAX).options.temperature, 2000);
    assert_eq!(Agent::builder(auth()).temperature(0).options.temperature, 0);
}

#[test]
fn handle_answers_the_input_that_the_run_waits_for() {
    let mut run = run(2);
    assert_eq!(run.handle(Input::ReasoningDone, 1000), None);
    assert_eq!(run.handle(Input::TimedOut, 1000), None);
    assert_eq!(run.phase, Phase::Idle);
    let turn = run.handle(Input::Start, 1000).unwrap();
    assert!(matches!(turn.request, Request::Reason { .. }));
    assert_eq!(run.handle(Input::Start, 1000), None);
    assert_eq!(
        run.handle(Input::Token("{\"tool\":\"tail\"}".to_string()), 1001),
        Some(Turn { events: vec![], request: Request::Continue })
    );
    let turn = run.handle(Input::ReasoningDone, 1002).unwrap();
    assert!(matches!(turn.request, Request::Stream { .. }));
    assert_eq!(run.handle(Input::Returned(Ok(JsonValue::Null)), 1003), None);
    let turn = run.handle(Input::Chunk("x".to_string()), 1003).unwrap();
    assert_eq!(turn.request, Request::Continue);
    assert_eq!(turn.events.len(), 1);
    let turn = run.handle(Input::StreamFailed(Error::Any("late".to_string())), 1004).unwrap();
    assert!(matches!(turn.request, Request::Call { .. }));
    let turn = run.handle(Input::Returned(Ok(JsonValue::Bool(true))), 1005).unwrap();
    assert!(matches!(turn.request, Request::Reason { .. }));
    let turn = run.handle(Input::ReasoningFailed(Error::Any("down".to_string())), 1006).unwrap();
    assert_eq!(turn.request, Request::Stop { result: Err(Error::Any("down".to_string())) });
    assert_eq!(run.handle(Input::Start, 1007), None);
    assert_eq!(run.phase, Phase::Finished);
}

#[test]
fn run_is_refused_where_the_counters_leave_no_room() {
    let mut state = AgentState::new("q".to_string(), 0);
    state.metadata.total_steps = usize::MAX - 2;
    assert!(AgentRun::try_new(agent(3), state.clone()).is_none());
    let run = AgentRun::try_new(agent(2), state.clone()).unwrap();
    assert!(run.is_well_formed());
    state.metadata.total_steps = 0;
    state.metadata.tool_calls_count = usize::MAX;
    assert!(AgentRun::try_new(agent(1), state.clone()).is_none());
    assert!(AgentRun::try_new(agent(0), state).is_some());
}

#[test]
fn run_out_of_range_is_told_nothing() {
    let mut run = run(2);
    run.step = 3;
    assert!(!run.is_well_formed());
    assert_eq!(run.handle(Input::Start, 0), None);
    run.step = 0;
    run.phase = Phase::Calling;
    assert!(!run.is_well_formed());
    assert_eq!(run.handle(Input::TimedOut, 0), None);
}

#[test]
fn tool_call_of_the_second_step_stands_under_the_second_thought() {
    let mut run = run(4);
    run.start(1000);
    say(&mut run, "First I think.");
    let turn = run.reasoning_done(1001);
    assert_eq!(
        turn.request,
        Request::Reason {
            prompt: "Question: What is six times seven?\n\nThought 1: First I think.\nThought 2: "
                .to_string()
        }
    );
    say(&mut run, "{\"tool\":\"search\",\"args\":{\"q\":\"x\"}}");
    run.reasoning_done(1002);
    let turn = run.tool_returned(Ok(JsonValue::Number("42".to_string())), 1003);
    assert_eq!(
        turn.request,
        Request::Reason {
            prompt: "Question: What is six times seven?\n\nThought 1: First I think.\nThought 2: {\"tool\":\"search\",\"args\":{\"q\":\"x\"}}\nAction: search\nAction Input: {\"q\":\"x\"}\nObservation: 42\n\nThought 3: "
                .to_string()
        }
    );
    assert_eq!(run.state.tool_calls.len(), 1);
    assert_eq!(run.state.tool_calls[0].step, 2);
    assert_eq!(run.state.reasoning_steps.len(), 2);
}
