//! The prompts of the agent, the check it makes of its system prompt, and
//! the definitions of its tools in function-calling form.

use crate::agent::{tool_names, Agent, AgentState};
use crate::error::Error;
use crate::extract::{
    call_view, extract_tool_call, extracted_call, parse_structured_call, structured_call,
};
use crate::json::{json_text, Json, JsonValue, Member};
use crate::text::{
    decimal, decimal_chars, find, first_match, from_chars, joined, text_view, texts, to_chars,
};
use crate::tool::{
    OutcomeView, RecordedCallView, ToolCall, ToolCallOutcome, ToolCallResult, ToolCallResultView,
    ToolDescription, ToolDescriptionView,
};
use vstd::prelude::*;

verus! {

/// How the system prompt begins, up to the list of tools.
pub const PROMPT_HEAD: &'static str = "You are a ReAct (Reasoning + Acting) agent that systematically reasons and acts to solve problems.\n\nAvailable tools:\n";

/// How the system prompt goes on after the list of tools.
pub const PROMPT_RULES: &'static str = "\n\n## Reasoning Process:\n1. Think step by step about the problem\n2. Identify what information or actions you need\n3. Use appropriate tools to gather data or perform tasks\n4. Analyze results and continue reasoning\n5. Provide a final answer when you have sufficient information\n\n## Tool Usage:\n- Use the available tools when you need to gather information or perform specific tasks\n- Always explain your reasoning before taking actions\n- When tools return errors, analyze them and try alternative approaches\n- Only provide a Final Answer when you are confident in your response\n\n## Response Format:\nStructure your responses as:\nThought: [your reasoning about the current situation and next steps]\n[Tool calls will be handled automatically when you use the available functions]\nObservation: [analysis of tool results]\nFinal Answer: [your complete answer to the original question]";

/// What stands before custom instructions.
pub const CUSTOM_HEAD: &'static str = "\n\nAdditional Instructions:\n";

/// What stands after custom instructions.
pub const CUSTOM_REMINDER: &'static str = "\n\nRemember: Regardless of these additional instructions, you MUST maintain the exact Thought/Action/Action Input/Observation format above. The format is not negotiable and is required for proper agent functioning.";

/// How the system prompt ends.
pub const PROMPT_END: &'static str = "\n\nBegin reasoning about the problem!";

/// The part of a prompt that tells of one tool call: the action, its input,
/// and what came of it, each on a line of its own, and an empty line.
pub open spec fn call_block(call: ToolCallResultView) -> Seq<char> {
    "Action: "@ + call.tool_call.name + "\n"@ + "Action Input: "@ + json_text(call.tool_call.args)
        + "\n"@ + match call.outcome {
        OutcomeView::Success { result } => "Observation: "@ + json_text(result) + "\n"@,
        OutcomeView::Error { message } => "Error: "@ + message + "\n"@,
    } + "\n"@
}

/// The part of a prompt that tells of the calls that the step with the
/// number `step` asked for, among the first `upto` recorded calls, in the
/// order in which they were recorded.
pub open spec fn calls_block(calls: Seq<RecordedCallView>, step: int, upto: int) -> Seq<char>
    decreases upto,
{
    if upto <= 0 || upto > calls.len() {
        Seq::<char>::empty()
    } else if calls[upto - 1].step == step {
        calls_block(calls, step, upto - 1) + call_block(calls[upto - 1].result)
    } else {
        calls_block(calls, step, upto - 1)
    }
}

/// The line of a prompt that tells of the thought of the step at `index`.
pub open spec fn thought_line(index: int, step: Seq<char>) -> Seq<char> {
    "Thought "@ + decimal((index + 1) as nat) + ": "@ + step + "\n"@
}

/// The part of a prompt that tells of the step at `index`: the thought, and
/// the calls that this step asked for. A call that another step asked for
/// does not stand here.
pub open spec fn step_block(index: int, step: Seq<char>, calls: Seq<RecordedCallView>) -> Seq<
    char,
> {
    thought_line(index, step) + calls_block(calls, index + 1, calls.len() as int)
}

/// The part of a prompt that tells of the first `upto` steps.
pub open spec fn history(steps: Seq<Seq<char>>, calls: Seq<RecordedCallView>, upto: int) -> Seq<
    char,
>
    decreases upto,
{
    if upto <= 0 || upto > steps.len() {
        Seq::<char>::empty()
    } else {
        history(steps, calls, upto - 1) + step_block(upto - 1, steps[upto - 1], calls)
    }
}

/// The prompt for the next reasoning step: the task, the steps so far, each
/// with the calls that it asked for, and the heading of the step to come.
pub open spec fn prompt_text(
    input: Seq<char>,
    steps: Seq<Seq<char>>,
    calls: Seq<RecordedCallView>,
) -> Seq<char> {
    "Question: "@ + input + "\n\n"@ + history(steps, calls, steps.len() as int) + "Thought "@
        + decimal(steps.len() + 1) + ": "@
}

/// A recorded call stands under the step that asked for it, and under no
/// other: to record one more call adds its lines to the part of that step,
/// after the calls that the step asked for before, and leaves the part of
/// every other step as it is.
pub proof fn law_call_stands_under_its_step(
    calls: Seq<RecordedCallView>,
    call: RecordedCallView,
    index: int,
    step: Seq<char>,
)
    ensures
        call.step == index + 1 ==> step_block(index, step, calls.push(call)) == step_block(
            index,
            step,
            calls,
        ) + call_block(call.result),
        call.step != index + 1 ==> step_block(index, step, calls.push(call)) == step_block(
            index,
            step,
            calls,
        ),
{
    let more = calls.push(call);
    lemma_calls_block_prefix(calls, more, index + 1, calls.len() as int);
    assert(more[calls.len() as int] == call);
    if call.step == index + 1 {
        assert(step_block(index, step, more) =~= step_block(index, step, calls) + call_block(
            call.result,
        ));
    }
}

/// A step that asked for no call is told of by its thought alone.
pub proof fn law_step_without_call(calls: Seq<RecordedCallView>, index: int, step: Seq<char>)
    requires
        forall|k: int| 0 <= k < calls.len() ==> (#[trigger] calls[k]).step != index + 1,
    ensures
        step_block(index, step, calls) == thought_line(index, step),
{
    lemma_no_calls_block(calls, index + 1, calls.len() as int);
    assert(thought_line(index, step) + Seq::<char>::empty() =~= thought_line(index, step));
}

/// Where none of the first `upto` calls was asked for by the step `step`,
/// nothing is told of them under it.
pub proof fn lemma_no_calls_block(calls: Seq<RecordedCallView>, step: int, upto: int)
    requires
        forall|k: int| 0 <= k < upto && k < calls.len() ==> (#[trigger] calls[k]).step != step,
    ensures
        calls_block(calls, step, upto) == Seq::<char>::empty(),
    decreases upto,
{
    if 0 < upto <= calls.len() {
        assert(calls[upto - 1].step != step);
        lemma_no_calls_block(calls, step, upto - 1);
    }
}

/// What is told of the first `upto` calls depends on these calls alone.
pub proof fn lemma_calls_block_prefix(
    a: Seq<RecordedCallView>,
    b: Seq<RecordedCallView>,
    step: int,
    upto: int,
)
    requires
        upto <= a.len(),
        upto <= b.len(),
        forall|k: int| 0 <= k < upto ==> a[k] == b[k],
    ensures
        calls_block(a, step, upto) == calls_block(b, step, upto),
    decreases upto,
{
    if upto > 0 {
        lemma_calls_block_prefix(a, b, step, upto - 1);
    }
}

/// The line that tells of one tool.
pub open spec fn tool_line(tool: ToolDescriptionView) -> Seq<char> {
    "- "@ + tool.name + ": "@ + tool.description
}

/// The lines that tell of the first `upto` tools.
pub open spec fn tool_lines(tools: Seq<ToolDescription>, upto: int) -> Seq<Seq<char>> {
    Seq::new(upto as nat, |i: int| tool_line(tools[i]@))
}

/// What custom instructions add to the system prompt.
pub open spec fn custom_part(custom: Option<Seq<char>>) -> Seq<char> {
    match custom {
        Some(text) => CUSTOM_HEAD@ + text + CUSTOM_REMINDER@,
        None => Seq::<char>::empty(),
    }
}

/// The system prompt of an agent with the tools `tools` and the custom
/// instructions `custom`.
pub open spec fn system_prompt_text(
    tools: Seq<ToolDescription>,
    custom: Option<Seq<char>>,
) -> Seq<char> {
    PROMPT_HEAD@ + joined(tool_lines(tools, tools.len() as int), "\n"@) + PROMPT_RULES@
        + custom_part(custom) + PROMPT_END@
}

/// Whether `pat` stands somewhere in `s`.
pub open spec fn contains(s: Seq<char>, pat: Seq<char>) -> bool {
    first_match(s, pat) is Some
}

/// Whether `pat` stands somewhere in `v`.
pub fn holds(v: &Vec<char>, pat: &str) -> (b: bool)
    ensures
        b == contains(v@, pat@),
{
    find(v, &to_chars(pat)).is_some()
}

/// The words that a system prompt has to hold.
pub open spec fn required_keywords() -> Seq<Seq<char>> {
    seq!["Thought:"@, "Action:"@, "Action Input:"@, "Observation:"@, "Final Answer:"@]
}

/// The complaint about a missing word.
pub open spec fn keyword_issue(keyword: Seq<char>) -> Seq<char> {
    "Missing required format keyword: '"@ + keyword + "'"@
}

/// The complaints about those of the first `upto` required words that
/// `prompt` does not hold.
pub open spec fn keyword_issues(prompt: Seq<char>, upto: int) -> Seq<Seq<char>>
    decreases upto,
{
    if upto <= 0 || upto > required_keywords().len() {
        Seq::empty()
    } else if contains(prompt, required_keywords()[upto - 1]) {
        keyword_issues(prompt, upto - 1)
    } else {
        keyword_issues(prompt, upto - 1).push(keyword_issue(required_keywords()[upto - 1]))
    }
}

/// Whether one of the first `upto` names stands in `prompt`.
pub open spec fn mentions_one(prompt: Seq<char>, names: Seq<Seq<char>>, upto: int) -> bool {
    exists|i: int| 0 <= i < upto && i < names.len() && contains(prompt, #[trigger] names[i])
}

/// The complaint about the form of tool calls, if `prompt` does not show
/// it.
pub open spec fn format_issues(prompt: Seq<char>) -> Seq<Seq<char>> {
    if !contains(prompt, "{\"tool\":"@) && !contains(prompt, "{\"tool\": "@) {
        seq!["Missing required tool call JSON format specification"@]
    } else {
        Seq::empty()
    }
}

/// The complaint about the tools, if there are none or `prompt` does not
/// tell of them.
pub open spec fn tool_issues(prompt: Seq<char>, names: Seq<Seq<char>>) -> Seq<Seq<char>> {
    if names.len() == 0 {
        seq!["No tools available to the agent"@]
    } else if !mentions_one(prompt, names, names.len() as int) && !contains(
        prompt,
        "Available tools:"@,
    ) {
        seq!["Tools may not be properly described in the prompt"@]
    } else {
        Seq::empty()
    }
}

/// What is wrong with the system prompt `prompt` of an agent whose tools
/// have the names `names`.
pub open spec fn prompt_issues(prompt: Seq<char>, names: Seq<Seq<char>>) -> Seq<Seq<char>> {
    keyword_issues(prompt, required_keywords().len() as int) + format_issues(prompt)
        + tool_issues(prompt, names)
}

/// The message that reports `issues`.
pub open spec fn issues_message(issues: Seq<Seq<char>>) -> Seq<char> {
    "System prompt validation failed with "@ + decimal(issues.len()) + " issues:\n"@ + joined(
        issues,
        "\n- "@,
    )
}

/// The definition of a tool in function-calling form.
pub open spec fn tool_definition(tool: ToolDescriptionView) -> Json {
    Json::Object(
        seq![
            Member {
                key: "function"@,
                value: Json::Object(
                    seq![
                        Member { key: "description"@, value: Json::String(tool.description) },
                        Member { key: "name"@, value: Json::String(tool.name) },
                        Member { key: "parameters"@, value: tool.schema },
                    ],
                ),
            },
            Member { key: "type"@, value: Json::String("function"@) },
        ],
    )
}

/// The definitions of tools in function-calling form.
pub open spec fn tool_definitions(tools: Seq<ToolDescription>) -> Seq<Json> {
    Seq::new(tools.len(), |i: int| tool_definition(tools[i]@))
}

/// The contents of JSON values.
pub open spec fn values_view(values: Seq<JsonValue>) -> Seq<Json> {
    Seq::new(values.len(), |i: int| values[i]@)
}

/// Appends to `prompt` what tells of the tool call `call`.
fn append_call(prompt: &mut String, call: &ToolCallResult)
    ensures
        final(prompt)@ == old(prompt)@ + call_block(call@),
{
    let ghost start = prompt@;
    prompt.append("Action: ");
    prompt.append(call.tool_call.name.as_str());
    prompt.append("\n");
    prompt.append("Action Input: ");
    let args = call.tool_call.args.render();
    prompt.append(args.as_str());
    prompt.append("\n");
    match &call.outcome {
        ToolCallOutcome::Success { result } => {
            prompt.append("Observation: ");
            let shown = result.render();
            prompt.append(shown.as_str());
            prompt.append("\n");
        },
        ToolCallOutcome::Error { message } => {
            prompt.append("Error: ");
            prompt.append(message.as_str());
            prompt.append("\n");
        },
    }
    prompt.append("\n");
    assert(prompt@ =~= start + call_block(call@));
}

/// The decimal numeral of `n`.
fn numeral(n: u128) -> (r: String)
    ensures
        r@ == decimal(n as nat),
{
    from_chars(&decimal_chars(n))
}

impl Agent {
    /// The prompt for the next reasoning step of a run in the state `state`.
    pub fn build_prompt(state: &AgentState) -> (prompt: String)
        ensures
            prompt@ == prompt_text(state@.input, state@.reasoning_steps, state@.tool_calls),
    {
        let mut prompt = String::from_str("Question: ");
        prompt.append(state.input.as_str());
        prompt.append("\n\n");
        let ghost lead = prompt@;
        let ghost steps = state@.reasoning_steps;
        let ghost calls = state@.tool_calls;
        let n = state.reasoning_steps.len();
        let mut i: usize = 0;
        while i < n
            invariant
                i <= n,
                n == state.reasoning_steps@.len(),
                steps == state@.reasoning_steps,
                calls == state@.tool_calls,
                prompt@ == lead + history(steps, calls, i as int),
            decreases n - i,
        {
            let ghost before = prompt@;
            prompt.append("Thought ");
            let number = numeral(i as u128 + 1);
            prompt.append(number.as_str());
            prompt.append(": ");
            prompt.append(state.reasoning_steps[i].as_str());
            prompt.append("\n");
            let ghost thought = thought_line(i as int, steps[i as int]);
            assert(prompt@ =~= before + thought);
            let step = i + 1;
            let m = state.tool_calls.len();
            let mut k: usize = 0;
            while k < m
                invariant
                    k <= m,
                    m == state.tool_calls@.len(),
                    step == i + 1,
                    calls == state@.tool_calls,
                    prompt@ == before + thought + calls_block(calls, step as int, k as int),
                decreases m - k,
            {
                if state.tool_calls[k].step == step {
                    let ghost so_far = prompt@;
                    append_call(&mut prompt, &state.tool_calls[k].result);
                    assert(calls[k as int] == state.tool_calls@[k as int]@);
                    assert(prompt@ =~= before + thought + (calls_block(
                        calls,
                        step as int,
                        k as int,
                    ) + call_block(calls[k as int].result)));
                } else {
                    assert(calls[k as int] == state.tool_calls@[k as int]@);
                }
                k += 1;
            }
            assert(prompt@ =~= lead + (history(steps, calls, i as int) + step_block(
                i as int,
                steps[i as int],
                calls,
            )));
            i += 1;
        }
        prompt.append("Thought ");
        let number = numeral(n as u128 + 1);
        prompt.append(number.as_str());
        prompt.append(": ");
        assert(prompt@ =~= prompt_text(state@.input, steps, calls));
        prompt
    }

    /// The system prompt of this agent.
    pub fn system_prompt(&self) -> (prompt: String)
        ensures
            prompt@ == system_prompt_text(self.tools@, text_view(self.custom_instructions)),
    {
        let mut prompt = String::from_str(PROMPT_HEAD);
        let ghost lead = prompt@;
        let n = self.tools.len();
        let mut i: usize = 0;
        while i < n
            invariant
                i <= n,
                n == self.tools@.len(),
                lead == PROMPT_HEAD@,
                prompt@ == lead + joined(tool_lines(self.tools@, i as int), "\n"@),
            decreases n - i,
        {
            let ghost before = prompt@;
            let ghost lines = tool_lines(self.tools@, i + 1);
            assert(lines.drop_last() =~= tool_lines(self.tools@, i as int));
            if i > 0 {
                prompt.append("\n");
            }
            prompt.append("- ");
            prompt.append(self.tools[i].name.as_str());
            prompt.append(": ");
            prompt.append(self.tools[i].description.as_str());
            assert(lines.last() == tool_line(self.tools@[i as int]@));
            assert(prompt@ =~= lead + joined(lines, "\n"@));
            i += 1;
        }
        prompt.append(PROMPT_RULES);
        if let Some(custom) = &self.custom_instructions {
            prompt.append(CUSTOM_HEAD);
            prompt.append(custom.as_str());
            prompt.append(CUSTOM_REMINDER);
        }
        prompt.append(PROMPT_END);
        assert(prompt@ =~= system_prompt_text(self.tools@, text_view(self.custom_instructions)));
        prompt
    }

    /// What is wrong with the system prompt `prompt` of this agent.
    pub fn check_prompt(&self, prompt: &str) -> (issues: Vec<String>)
        ensures
            texts(issues@) == prompt_issues(prompt@, tool_names(self.tools@)),
    {
        let text = to_chars(prompt);
        let mut issues: Vec<String> = Vec::new();
        let keywords: [&str; 5] = [
            "Thought:",
            "Action:",
            "Action Input:",
            "Observation:",
            "Final Answer:",
        ];
        let mut k: usize = 0;
        while k < 5
            invariant
                k <= 5,
                text@ == prompt@,
                keywords@.len() == 5,
                forall|j: int| 0 <= j < 5 ==> (#[trigger] keywords@[j])@ == required_keywords()[j],
                texts(issues@) == keyword_issues(prompt@, k as int),
            decreases 5 - k,
        {
            if !holds(&text, keywords[k]) {
                let mut issue = String::from_str("Missing required format keyword: '");
                issue.append(keywords[k]);
                issue.append("'");
                issues.push(issue);
                assert(texts(issues@) =~= keyword_issues(prompt@, k as int).push(
                    keyword_issue(required_keywords()[k as int]),
                ));
            }
            k += 1;
        }
        let ghost first = texts(issues@);
        if !holds(&text, "{\"tool\":") && !holds(&text, "{\"tool\": ") {
            issues.push(String::from_str("Missing required tool call JSON format specification"));
        }
        assert(texts(issues@) =~= first + format_issues(prompt@));
        let ghost second = texts(issues@);
        let ghost names = tool_names(self.tools@);
        if self.tools.len() == 0 {
            issues.push(String::from_str("No tools available to the agent"));
        } else {
            let mut mentioned = false;
            let mut i: usize = 0;
            while i < self.tools.len()
                invariant
                    i <= self.tools@.len(),
                    text@ == prompt@,
                    names == tool_names(self.tools@),
                    mentioned == mentions_one(prompt@, names, i as int),
                decreases self.tools.len() - i,
            {
                if holds(&text, self.tools[i].name.as_str()) {
                    assert(contains(prompt@, names[i as int]));
                    mentioned = true;
                }
                i += 1;
            }
            if !mentioned && !holds(&text, "Available tools:") {
                issues.push(String::from_str("Tools may not be properly described in the prompt"));
            }
        }
        assert(texts(issues@) =~= second + tool_issues(prompt@, names));
        issues
    }

    /// Checks that the system prompt holds what the agent's reading of its
    /// answers relies on; the error tells what is missing.
    pub fn validate_system_prompt(&self) -> (r: Result<(), Error>)
        ensures
            ({
                let issues = prompt_issues(
                    system_prompt_text(self.tools@, text_view(self.custom_instructions)),
                    tool_names(self.tools@),
                );
                match r {
                    Ok(_) => issues.len() == 0,
                    Err(Error::Any(message)) => issues.len() > 0 && message@ == issues_message(
                        issues,
                    ),
                    Err(_) => false,
                }
            }),
    {
        let prompt = self.system_prompt();
        let issues = self.check_prompt(prompt.as_str());
        if issues.len() == 0 {
            return Ok(());
        }
        let mut message = String::from_str("System prompt validation failed with ");
        let count = numeral(issues.len() as u128);
        message.append(count.as_str());
        message.append(" issues:\n");
        let ghost lead = message@;
        let ghost all = texts(issues@);
        let mut i: usize = 0;
        while i < issues.len()
            invariant
                i <= issues@.len(),
                all == texts(issues@),
                message@ == lead + joined(all.take(i as int), "\n- "@),
            decreases issues.len() - i,
        {
            let ghost upto = all.take(i + 1);
            assert(upto.drop_last() =~= all.take(i as int));
            assert(upto.last() == issues@[i as int]@);
            if i > 0 {
                message.append("\n- ");
            }
            message.append(issues[i].as_str());
            assert(message@ =~= lead + joined(upto, "\n- "@));
            i += 1;
        }
        assert(all.take(issues@.len() as int) =~= all);
        Err(Error::any(message))
    }

    /// The tool call that the reasoning text `output` asks for.
    pub fn parse_tool_call(output: &str) -> (call: Option<ToolCall>)
        ensures
            call_view(call) == extracted_call(output@),
    {
        extract_tool_call(output)
    }

    /// The tool call that the completion `response` asks for in structured
    /// form.
    pub fn parse_tool_call_structured(response: &JsonValue) -> (call: Option<ToolCall>)
        ensures
            call_view(call) == structured_call(response@),
    {
        parse_structured_call(response)
    }

    /// The definitions of the tools in function-calling form.
    pub fn get_tool_definitions(&self) -> (definitions: Vec<JsonValue>)
        ensures
            values_view(definitions@) == tool_definitions(self.tools@),
    {
        let mut definitions: Vec<JsonValue> = Vec::new();
        let mut i: usize = 0;
        while i < self.tools.len()
            invariant
                i <= self.tools@.len(),
                definitions@.len() == i,
                forall|j: int|
                    0 <= j < i ==> (#[trigger] definitions@[j])@ == tool_definition(
                        self.tools@[j]@,
                    ),
            decreases self.tools.len() - i,
        {
            definitions.push(define_tool(&self.tools[i]));
            i += 1;
        }
        assert(values_view(definitions@) =~= tool_definitions(self.tools@));
        definitions
    }
}

/// The definition of `tool` in function-calling form.
pub fn define_tool(tool: &ToolDescription) -> (definition: JsonValue)
    ensures
        definition@ == tool_definition(tool@),
{
    let mut inner: Vec<(String, JsonValue)> = Vec::new();
    inner.push((String::from_str("description"), JsonValue::String(tool.description.clone())));
    inner.push((String::from_str("name"), JsonValue::String(tool.name.clone())));
    inner.push((String::from_str("parameters"), tool.schema.clone()));
    let function = JsonValue::Object(inner);
    proof {
        crate::json::lemma_view_object(function);
        assert(function@->Object_0 =~= seq![
            Member { key: "description"@, value: Json::String(tool.description@) },
            Member { key: "name"@, value: Json::String(tool.name@) },
            Member { key: "parameters"@, value: tool.schema@ },
        ]);
    }
    let mut outer: Vec<(String, JsonValue)> = Vec::new();
    outer.push((String::from_str("function"), function));
    outer.push((String::from_str("type"), JsonValue::String(String::from_str("function"))));
    let definition = JsonValue::Object(outer);
    proof {
        crate::json::lemma_view_object(definition);
        assert(definition@->Object_0 =~= tool_definition(tool@)->Object_0);
    }
    definition
}

} // verus!
