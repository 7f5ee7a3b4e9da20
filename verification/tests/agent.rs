use openagent::agent::{Agent, AgentEvent, AgentMetadata, AgentState};
use openagent::error::Error;
use openagent::http::Auth;
use openagent::json::JsonValue;
use openagent::tool::{RecordedCall, ToolCallResult, ToolDescription};

fn bare_agent() -> Agent {
    Agent::builder(Auth { uri: String::new(), key: String::new() }).build()
}

fn described(name: &str, description: &str) -> ToolDescription {
    ToolDescription {
        name: name.to_string(),
        description: description.to_string(),
        schema: JsonValue::Object(vec![("type".to_string(), JsonValue::String("object".to_string()))]),
        supports_stream: false,
    }
}

#[test]
fn new_state_is_empty() {
    let state = AgentState::new("task".to_string(), 5);
    assert_eq!(state.input, "task");
    assert!(state.memory.is_empty());
    assert!(state.reasoning_steps.is_empty());
    assert!(state.tool_calls.is_empty());
    assert_eq!(
        state.metadata,
        AgentMetadata {
            total_steps: 0,
            tool_calls_count: 0,
            start_time: Some(5),
            end_time: None,
            duration_ms: None
        }
    );
    assert_eq!(state.current_step(), 0);
    assert_eq!(state.total_steps(), 0);
    assert!(!state.is_complete());
}

#[test]
fn steps_and_tool_calls_are_counted_once_each() {
    let mut state = AgentState::new("task".to_string(), 0);
    state.add_step("one".to_string());
    state.add_step("two".to_string());
    state.add_tool_call(ToolCallResult::success(
        "search".to_string(),
        JsonValue::Null,
        JsonValue::Bool(true),
    ));
    state.add_tool_call(ToolCallResult::err("search".to_string(), JsonValue::Null, "no".to_string()));
    state.add_step("three".to_string());
    assert_eq!(state.reasoning_steps, vec!["one", "two", "three"]);
    assert_eq!(state.metadata.total_steps, 3);
    assert_eq!(state.total_steps(), 3);
    assert_eq!(state.current_step(), 3);
    assert_eq!(state.tool_calls.len(), 2);
    assert_eq!(state.metadata.tool_calls_count, 2);
}

#[test]
fn memory_keeps_one_value_for_each_key() {
    let mut state = AgentState::new("task".to_string(), 0);
    assert_eq!(state.recall("city"), None);
    state.remember("city".to_string(), "Paris".to_string());
    state.remember("year".to_string(), "1889".to_string());
    assert_eq!(state.recall("city"), Some(&"Paris".to_string()));
    state.remember("city".to_string(), "Lyon".to_string());
    assert_eq!(state.recall("city"), Some(&"Lyon".to_string()));
    assert_eq!(state.recall("year"), Some(&"1889".to_string()));
    assert_eq!(state.recall("City"), None);
    assert_eq!(state.memory.len(), 2);
}

#[test]
fn state_is_complete_once_a_step_holds_the_marker() {
    let mut state = AgentState::new("task".to_string(), 0);
    state.add_step("thinking".to_string());
    assert!(!state.is_complete());
    state.add_step("so the FINAL ANSWER: 4".to_string());
    assert!(state.is_complete());
    state.add_step("more".to_string());
    assert!(state.is_complete());
}

#[test]
fn metadata_works_out_the_duration() {
    let mut metadata = AgentMetadata::new(100);
    assert_eq!(metadata.get_duration(130), Some(30));
    assert_eq!(metadata.get_duration(90), Some(0));
    metadata.complete(175);
    assert_eq!(metadata.end_time, Some(175));
    assert_eq!(metadata.duration_ms, Some(75));
    assert_eq!(metadata.get_duration(9999), Some(75));
}

#[test]
fn metadata_without_a_start_has_no_duration() {
    let mut metadata = AgentMetadata::default();
    assert_eq!(metadata.get_duration(10), None);
    metadata.complete(10);
    assert_eq!(metadata.end_time, Some(10));
    assert_eq!(metadata.duration_ms, None);
    assert_eq!(metadata.get_duration(20), None);
}

#[test]
fn metadata_between_start_and_end() {
    let metadata = AgentMetadata {
        total_steps: 0,
        tool_calls_count: 0,
        start_time: Some(40),
        end_time: Some(100),
        duration_ms: None,
    };
    assert_eq!(metadata.get_duration(500), Some(60));
    let backwards = AgentMetadata { start_time: Some(100), end_time: Some(40), ..metadata };
    assert_eq!(backwards.get_duration(500), Some(0));
}

#[test]
fn registering_a_name_again_replaces_the_tool() {
    let mut agent = bare_agent();
    agent.register_tool(described("search", "first"));
    agent.register_tool(described("clock", "tells the time"));
    agent.register_tool(described("search", "second"));
    assert_eq!(agent.list_tools(), vec!["search", "clock"]);
    assert_eq!(agent.find_tool("search").unwrap().description, "second");
    assert_eq!(agent.find_tool("clock").unwrap().description, "tells the time");
    assert_eq!(agent.find_tool("Search"), None);
}

#[test]
fn registering_several_tools_keeps_their_order() {
    let mut agent = bare_agent();
    agent.register_tools(vec![described("a", "1"), described("b", "2"), described("a", "3")]);
    assert_eq!(agent.list_tools(), vec!["a", "b"]);
    assert_eq!(agent.find_tool("a").unwrap().description, "3");
}

#[test]
fn event_builders_fill_the_events() {
    assert_eq!(AgentEvent::err("bad".to_string()), AgentEvent::Error { message: "bad".to_string() });
    assert_eq!(
        AgentEvent::reasoning_token("tok".to_string()),
        AgentEvent::ReasoningToken { content: "tok".to_string() }
    );
    assert_eq!(
        AgentEvent::started(3, vec!["a".to_string()]),
        AgentEvent::Started { max_steps: 3, tools: vec!["a".to_string()] }
    );
    assert_eq!(
        AgentEvent::completed(true, 2, Some(9)),
        AgentEvent::Completed { success: true, total_steps: 2, duration: Some(9) }
    );
}

#[test]
fn prompt_tells_the_history() {
    let mut state = AgentState::new("Where is the Eiffel Tower?".to_string(), 0);
    assert_eq!(Agent::build_prompt(&state), "Question: Where is the Eiffel Tower?\n\nThought 1: ");
    state.add_step("I should search.".to_string());
    state.add_tool_call(ToolCallResult::success(
        "search".to_string(),
        JsonValue::Object(vec![("q".to_string(), JsonValue::String("Eiffel".to_string()))]),
        JsonValue::String("Paris".to_string()),
    ));
    state.add_step("Let me check the year.".to_string());
    state.add_tool_call(ToolCallResult::err(
        "almanac".to_string(),
        JsonValue::Null,
        "unknown tool: almanac".to_string(),
    ));
    state.add_step("Final Answer: Paris".to_string());
    assert_eq!(
        Agent::build_prompt(&state),
        "Question: Where is the Eiffel Tower?\n\n\
         Thought 1: I should search.\n\
         Action: search\n\
         Action Input: {\"q\":\"Eiffel\"}\n\
         Observation: \"Paris\"\n\
         \n\
         Thought 2: Let me check the year.\n\
         Action: almanac\n\
         Action Input: null\n\
         Error: unknown tool: almanac\n\
         \n\
         Thought 3: Final Answer: Paris\n\
         Thought 4: "
    );
}

#[test]
fn prompt_numbers_steps_beyond_nine() {
    let mut state = AgentState::new("q".to_string(), 0);
    for _ in 0..12 {
        state.add_step("x".to_string());
    }
    let prompt = Agent::build_prompt(&state);
    assert!(prompt.contains("Thought 10: x\nThought 11: x\nThought 12: x\nThought 13: "));
}

#[test]
fn system_prompt_lists_the_tools() {
    let mut agent = bare_agent();
    agent.register_tool(described("search", "looks things up"));
    agent.register_tool(described("clock", "tells the time"));
    let prompt = agent.system_prompt();
    assert!(prompt.starts_with(
        "You are a ReAct (Reasoning + Acting) agent that systematically reasons and acts to solve problems.\n\nAvailable tools:\n- search: looks things up\n- clock: tells the time\n\n## Reasoning Process:\n1. Think step by step about the problem\n"
    ));
    assert!(prompt.ends_with(
        "Final Answer: [your complete answer to the original question]\n\nBegin reasoning about the problem!"
    ));
    assert!(!prompt.contains("Additional Instructions"));
}

#[test]
fn system_prompt_adds_custom_instructions() {
    let agent = Agent::builder(Auth { uri: String::new(), key: String::new() })
        .custom_instructions("Answer in French.".to_string())
        .build();
    let prompt = agent.system_prompt();
    assert!(prompt.contains("Available tools:\n\n\n## Reasoning Process:"));
    assert!(prompt.ends_with(
        "[your complete answer to the original question]\n\nAdditional Instructions:\nAnswer in French.\n\nRemember: Regardless of these additional instructions, you MUST maintain the exact Thought/Action/Action Input/Observation format above. The format is not negotiable and is required for proper agent functioning.\n\nBegin reasoning about the problem!"
    ));
}

#[test]
fn system_prompt_is_found_wanting() {
    let mut agent = bare_agent();
    assert_eq!(
        agent.validate_system_prompt(),
        Err(Error::Any(
            "System prompt validation failed with 4 issues:\nMissing required format keyword: 'Action:'\n- Missing required format keyword: 'Action Input:'\n- Missing required tool call JSON format specification\n- No tools available to the agent".to_string()
        ))
    );
    agent.register_tool(described("search", "looks things up"));
    assert_eq!(
        agent.validate_system_prompt(),
        Err(Error::Any(
            "System prompt validation failed with 3 issues:\nMissing required format keyword: 'Action:'\n- Missing required format keyword: 'Action Input:'\n- Missing required tool call JSON format specification".to_string()
        ))
    );
}

#[test]
fn prompt_check_accepts_a_complete_prompt() {
    let mut agent = bare_agent();
    agent.register_tool(described("search", "looks things up"));
    let complete = "Thought: Action: Action Input: {\"tool\": \"search\"} Observation: Final Answer: search";
    assert_eq!(agent.check_prompt(complete), Vec::<String>::new());
    let unnamed = "Thought: Action: Action Input: {\"tool\":\"x\"} Observation: Final Answer:";
    assert_eq!(
        agent.check_prompt(unnamed),
        vec!["Tools may not be properly described in the prompt".to_string()]
    );
    let listed = "Available tools: Thought: Action: Action Input: {\"tool\":\"x\"} Observation: Final Answer:";
    assert_eq!(agent.check_prompt(listed), Vec::<String>::new());
    assert_eq!(
        agent.check_prompt(""),
        vec![
            "Missing required format keyword: 'Thought:'".to_string(),
            "Missing required format keyword: 'Action:'".to_string(),
            "Missing required format keyword: 'Action Input:'".to_string(),
            "Missing required format keyword: 'Observation:'".to_string(),
            "Missing required format keyword: 'Final Answer:'".to_string(),
            "Missing required tool call JSON format specification".to_string(),
            "Tools may not be properly described in the prompt".to_string(),
        ]
    );
}

#[test]
fn tool_definitions_have_the_function_calling_form() {
    let mut agent = bare_agent();
    assert!(agent.get_tool_definitions().is_empty());
    agent.register_tool(described("search", "looks things up"));
    let definitions = agent.get_tool_definitions();
    assert_eq!(definitions.len(), 1);
    assert_eq!(
        definitions[0].render(),
        "{\"function\":{\"description\":\"looks things up\",\"name\":\"search\",\"parameters\":{\"type\":\"object\"}},\"type\":\"function\"}"
    );
}

#[test]
fn prompt_puts_a_call_under_the_step_that_asked_for_it() {
    let mut state = AgentState::new("q".to_string(), 0);
    state.add_step("r1".to_string());
    state.add_step("r2".to_string());
    state.add_tool_call(ToolCallResult::success(
        "search".to_string(),
        JsonValue::Null,
        JsonValue::Bool(true),
    ));
    assert_eq!(state.tool_calls.len(), 1);
    assert_eq!(state.tool_calls[0].step, 2);
    assert_eq!(
        Agent::build_prompt(&state),
        "Question: q\n\nThought 1: r1\nThought 2: r2\nAction: search\nAction Input: null\nObservation: true\n\nThought 3: "
    );
}

#[test]
fn prompt_puts_every_call_of_a_step_under_that_step() {
    let call = |name: &str| {
        ToolCallResult::err(name.to_string(), JsonValue::Null, "failed".to_string())
    };
    let mut state = AgentState::new("q".to_string(), 0);
    state.add_tool_call(call("early"));
    state.add_step("r1".to_string());
    state.add_step("r2".to_string());
    state.add_tool_call(call("a"));
    state.add_tool_call(call("b"));
    state.add_step("r3".to_string());
    assert_eq!(state.tool_calls.iter().map(|c| c.step).collect::<Vec<_>>(), vec![0, 2, 2]);
    assert_eq!(state.metadata.tool_calls_count, 3);
    assert_eq!(
        Agent::build_prompt(&state),
        "Question: q\n\nThought 1: r1\nThought 2: r2\nAction: a\nAction Input: null\nError: failed\n\nAction: b\nAction Input: null\nError: failed\n\nThought 3: r3\nThought 4: "
    );
}

#[test]
fn prompt_reads_the_step_of_a_call_from_its_record() {
    let mut state = AgentState::new("q".to_string(), 0);
    state.add_step("r1".to_string());
    state.add_step("r2".to_string());
    state.tool_calls.push(RecordedCall {
        step: 1,
        result: ToolCallResult::success("late".to_string(), JsonValue::Null, JsonValue::Null),
    });
    state.tool_calls.push(RecordedCall {
        step: 7,
        result: ToolCallResult::success("lost".to_string(), JsonValue::Null, JsonValue::Null),
    });
    assert_eq!(
        Agent::build_prompt(&state),
        "Question: q\n\nThought 1: r1\nAction: late\nAction Input: null\nObservation: null\n\nThought 2: r2\nThought 3: "
    );
}
