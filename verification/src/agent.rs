//! The agent: its options, its registry of tools, the state of a run and
//! the events that a run emits.

use crate::extract::{contains_final_marker, has_final_marker};
use crate::http::Auth;
use crate::json::{Json, JsonValue};
use crate::text::{text_view, texts};
use crate::tool::{
    RecordedCall, RecordedCallView, ToolCallResult, ToolDescription, ToolDescriptionView,
};
use vstd::prelude::*;

verus! {

/// The time from `start` to `end`, in milliseconds; zero where `end` is the
/// earlier one.
pub open spec fn elapsed(start: u64, end: u64) -> u64 {
    if end >= start {
        (end - start) as u64
    } else {
        0
    }
}

/// The time from `start` to `end`, in milliseconds.
pub fn elapsed_between(start: u64, end: u64) -> (r: u64)
    ensures
        r == elapsed(start, end),
{
    if end >= start {
        end - start
    } else {
        0
    }
}

/// The counters and times of a run. Times are readings, in milliseconds, of
/// a clock that never goes back.
#[derive(Clone, Copy, Debug, PartialEq, Eq)]
pub struct AgentMetadata {
    /// The number of reasoning steps taken.
    pub total_steps: usize,
    /// The number of tool calls made.
    pub tool_calls_count: usize,
    /// When the run began.
    pub start_time: Option<u64>,
    /// When the run ended.
    pub end_time: Option<u64>,
    /// How long the run took, in milliseconds.
    pub duration_ms: Option<u64>,
}

impl Default for AgentMetadata {
    fn default() -> (r: AgentMetadata)
        ensures
            r == (AgentMetadata {
                total_steps: 0,
                tool_calls_count: 0,
                start_time: None,
                end_time: None,
                duration_ms: None,
            }),
    {
        AgentMetadata {
            total_steps: 0,
            tool_calls_count: 0,
            start_time: None,
            end_time: None,
            duration_ms: None,
        }
    }
}

impl AgentMetadata {
    /// The metadata of a run that begins at `now`.
    pub fn new(now: u64) -> (r: AgentMetadata)
        ensures
            r == (AgentMetadata {
                total_steps: 0,
                tool_calls_count: 0,
                start_time: Some(now),
                end_time: None,
                duration_ms: None,
            }),
    {
        AgentMetadata {
            total_steps: 0,
            tool_calls_count: 0,
            start_time: Some(now),
            end_time: None,
            duration_ms: None,
        }
    }

    /// This metadata once the run has ended at `now`.
    pub open spec fn completed_at(self, now: u64) -> AgentMetadata {
        AgentMetadata {
            end_time: Some(now),
            duration_ms: match self.start_time {
                Some(start) => Some(elapsed(start, now)),
                None => self.duration_ms,
            },
            ..self
        }
    }

    /// Marks the run as ended at `now`, and works out how long it took.
    pub fn complete(&mut self, now: u64)
        ensures
            *final(self) == old(self).completed_at(now),
    {
        self.end_time = Some(now);
        if let Some(start) = self.start_time {
            self.duration_ms = Some(elapsed_between(start, now));
        }
    }

    /// How long the run took, seen at `now`: the duration that was worked
    /// out, else the time from its beginning to its end, else the time since
    /// its beginning.
    pub open spec fn duration_at(self, now: u64) -> Option<u64> {
        match self.duration_ms {
            Some(ms) => Some(ms),
            None => match (self.start_time, self.end_time) {
                (Some(start), Some(end)) => Some(elapsed(start, end)),
                (Some(start), None) => Some(elapsed(start, now)),
                (None, _) => None,
            },
        }
    }

    /// How long the run took, in milliseconds, seen at `now`.
    pub fn get_duration(&self, now: u64) -> (r: Option<u64>)
        ensures
            r == self.duration_at(now),
    {
        if let Some(ms) = self.duration_ms {
            Some(ms)
        } else if let Some(start) = self.start_time {
            if let Some(end) = self.end_time {
                Some(elapsed_between(start, end))
            } else {
                Some(elapsed_between(start, now))
            }
        } else {
            None
        }
    }
}

/// The mapping that a list of entries stands for; of two entries with one
/// key the later counts.
pub open spec fn memory_of(entries: Seq<(String, String)>) -> Map<Seq<char>, Seq<char>>
    decreases entries.len(),
{
    if entries.len() == 0 {
        Map::empty()
    } else {
        memory_of(entries.drop_last()).insert(entries.last().0@, entries.last().1@)
    }
}

/// Whether no key stands twice in `entries`.
pub open spec fn keys_unique(entries: Seq<(String, String)>) -> bool {
    forall|i: int, j: int|
        0 <= i < j < entries.len() ==> (#[trigger] entries[i]).0@ != (#[trigger] entries[j]).0@
}

/// The contents of recorded tool calls.
pub open spec fn results_view(results: Seq<RecordedCall>) -> Seq<RecordedCallView> {
    Seq::new(results.len(), |i: int| results[i]@)
}

/// Whether one of `steps` holds the marker of a final answer.
pub open spec fn any_final_marker(steps: Seq<Seq<char>>) -> bool {
    exists|i: int| 0 <= i < steps.len() && has_final_marker(#[trigger] steps[i])
}

/// The content of an `AgentState`.
pub struct AgentStateView {
    pub input: Seq<char>,
    pub memory: Map<Seq<char>, Seq<char>>,
    pub reasoning_steps: Seq<Seq<char>>,
    pub tool_calls: Seq<RecordedCallView>,
    pub metadata: AgentMetadata,
}

/// The state of a run: the task, what the agent noted, the reasoning steps
/// and the tool calls so far, and the counters.
#[derive(Clone, Debug, PartialEq, Eq)]
pub struct AgentState {
    /// The task as it was given.
    pub input: String,
    /// What the agent noted, key by key.
    pub memory: Vec<(String, String)>,
    /// The reasoning texts, one for each step that was completed.
    pub reasoning_steps: Vec<String>,
    /// The results of the tool calls, in the order in which they came, each
    /// with the number of the reasoning step that asked for the call.
    pub tool_calls: Vec<RecordedCall>,
    /// The counters and times of the run.
    pub metadata: AgentMetadata,
}

impl View for AgentState {
    type V = AgentStateView;

    open spec fn view(&self) -> AgentStateView {
        AgentStateView {
            input: self.input@,
            memory: memory_of(self.memory@),
            reasoning_steps: texts(self.reasoning_steps@),
            tool_calls: results_view(self.tool_calls@),
            metadata: self.metadata,
        }
    }
}

/// What is noted under `key` is what the last entry with that key holds.
pub proof fn lemma_memory_last_entry(entries: Seq<(String, String)>, key: Seq<char>, i: int)
    requires
        0 <= i < entries.len(),
        entries[i].0@ == key,
        forall|j: int| i < j < entries.len() ==> (#[trigger] entries[j]).0@ != key,
    ensures
        memory_of(entries).contains_key(key),
        memory_of(entries)[key] == entries[i].1@,
    decreases entries.len(),
{
    if i < entries.len() - 1 {
        assert(entries[entries.len() - 1].0@ != key);
        let before = entries.drop_last();
        assert forall|j: int| i < j < before.len() implies (#[trigger] before[j]).0@ != key by {
            assert(before[j] == entries[j]);
        }
        lemma_memory_last_entry(before, key, i);
    }
}

/// Nothing is noted under a key that no entry has.
pub proof fn lemma_memory_no_entry(entries: Seq<(String, String)>, key: Seq<char>)
    requires
        forall|j: int| 0 <= j < entries.len() ==> (#[trigger] entries[j]).0@ != key,
    ensures
        !memory_of(entries).contains_key(key),
    decreases entries.len(),
{
    if entries.len() > 0 {
        assert(entries[entries.len() - 1].0@ != key);
        let before = entries.drop_last();
        assert forall|j: int| 0 <= j < before.len() implies (#[trigger] before[j]).0@ != key by {
            assert(before[j] == entries[j]);
        }
        lemma_memory_no_entry(before, key);
    }
}

/// To put a new value in the place of the last entry with a key is to note
/// the value under that key.
pub proof fn lemma_memory_replace(
    entries: Seq<(String, String)>,
    i: int,
    entry: (String, String),
)
    requires
        0 <= i < entries.len(),
        entries[i].0@ == entry.0@,
        forall|j: int| i < j < entries.len() ==> (#[trigger] entries[j]).0@ != entry.0@,
    ensures
        memory_of(entries.update(i, entry)) == memory_of(entries).insert(entry.0@, entry.1@),
    decreases entries.len(),
{
    let changed = entries.update(i, entry);
    if i == entries.len() - 1 {
        assert(changed.drop_last() =~= entries.drop_last());
        assert(memory_of(changed) =~= memory_of(entries).insert(entry.0@, entry.1@));
    } else {
        let before = entries.drop_last();
        assert(entries[entries.len() - 1].0@ != entry.0@);
        assert forall|j: int| i < j < before.len() implies (#[trigger] before[j]).0@
            != entry.0@ by {
            assert(before[j] == entries[j]);
        }
        lemma_memory_replace(before, i, entry);
        assert(changed.drop_last() =~= before.update(i, entry));
        assert(changed.last() == entries.last());
        assert(memory_of(changed) =~= memory_of(entries).insert(entry.0@, entry.1@));
    }
}

impl AgentState {
    /// The state of a run on the task `input` that begins at `now`.
    pub fn new(input: String, now: u64) -> (state: AgentState)
        ensures
            state@ == (AgentStateView {
                input: input@,
                memory: Map::empty(),
                reasoning_steps: Seq::empty(),
                tool_calls: Seq::empty(),
                metadata: AgentMetadata {
                    total_steps: 0,
                    tool_calls_count: 0,
                    start_time: Some(now),
                    end_time: None,
                    duration_ms: None,
                },
            }),
            keys_unique(state.memory@),
    {
        let state = AgentState {
            input,
            memory: Vec::new(),
            reasoning_steps: Vec::new(),
            tool_calls: Vec::new(),
            metadata: AgentMetadata::new(now),
        };
        assert(state@.reasoning_steps =~= Seq::empty());
        assert(state@.tool_calls =~= Seq::empty());
        state
    }

    /// Adds a reasoning step and counts it.
    pub fn add_step(&mut self, reasoning: String)
        requires
            old(self).metadata.total_steps < usize::MAX,
        ensures
            final(self)@ == (AgentStateView {
                reasoning_steps: old(self)@.reasoning_steps.push(reasoning@),
                metadata: AgentMetadata {
                    total_steps: (old(self).metadata.total_steps + 1) as usize,
                    ..old(self).metadata
                },
                ..old(self)@
            }),
            final(self).memory == old(self).memory,
    {
        self.reasoning_steps.push(reasoning);
        self.metadata.total_steps += 1;
        assert(self@.reasoning_steps =~= old(self)@.reasoning_steps.push(reasoning@));
    }

    /// Adds the result of a tool call, as one that the last reasoning step
    /// asked for, and counts it.
    pub fn add_tool_call(&mut self, result: ToolCallResult)
        requires
            old(self).metadata.tool_calls_count < usize::MAX,
        ensures
            final(self)@ == (AgentStateView {
                tool_calls: old(self)@.tool_calls.push(
                    RecordedCallView {
                        step: old(self)@.reasoning_steps.len() as usize,
                        result: result@,
                    },
                ),
                metadata: AgentMetadata {
                    tool_calls_count: (old(self).metadata.tool_calls_count + 1) as usize,
                    ..old(self).metadata
                },
                ..old(self)@
            }),
            final(self).memory == old(self).memory,
    {
        let step = self.reasoning_steps.len();
        let recorded = RecordedCall { step, result };
        self.tool_calls.push(recorded);
        self.metadata.tool_calls_count += 1;
        assert(self@.tool_calls =~= old(self)@.tool_calls.push(recorded@));
    }

    /// The index of the last entry of the memory with the key `key`.
    fn position(&self, key: &String) -> (r: Option<usize>)
        ensures
            match r {
                Some(i) => i < self.memory@.len() && self.memory@[i as int].0@ == key@ && forall|
                    j: int,
                |
                    i < j < self.memory@.len() ==> (#[trigger] self.memory@[j]).0@ != key@,
                None => forall|j: int|
                    0 <= j < self.memory@.len() ==> (#[trigger] self.memory@[j]).0@ != key@,
            },
    {
        let mut i: usize = self.memory.len();
        while i > 0
            invariant
                i <= self.memory@.len(),
                forall|j: int|
                    i <= j < self.memory@.len() ==> (#[trigger] self.memory@[j]).0@ != key@,
            decreases i,
        {
            if self.memory[i - 1].0 == *key {
                return Some(i - 1);
            }
            i -= 1;
        }
        None
    }

    /// Notes `value` under `key`, in the place of what was noted there
    /// before.
    pub fn remember(&mut self, key: String, value: String)
        ensures
            final(self)@ == (AgentStateView {
                memory: old(self)@.memory.insert(key@, value@),
                ..old(self)@
            }),
            keys_unique(old(self).memory@) ==> keys_unique(final(self).memory@),
    {
        match self.position(&key) {
            Some(i) => {
                proof {
                    lemma_memory_replace(self.memory@, i as int, (key, value));
                }
                self.memory[i] = (key, value);
            },
            None => {
                self.memory.push((key, value));
                assert(self.memory@.drop_last() =~= old(self).memory@);
            },
        }
    }

    /// What is noted under `key`.
    pub fn recall(&self, key: &str) -> (r: Option<&String>)
        ensures
            r is Some <==> self@.memory.contains_key(key@),
            r matches Some(value) ==> value@ == self@.memory[key@],
    {
        let wanted = key.to_owned();
        match self.position(&wanted) {
            Some(i) => {
                proof {
                    lemma_memory_last_entry(self.memory@, key@, i as int);
                }
                Some(&self.memory[i].1)
            },
            None => {
                proof {
                    lemma_memory_no_entry(self.memory@, key@);
                }
                None
            },
        }
    }

    /// The number of reasoning steps held.
    pub fn current_step(&self) -> (r: usize)
        ensures
            r == self@.reasoning_steps.len(),
    {
        self.reasoning_steps.len()
    }

    /// The number of reasoning steps counted.
    pub fn total_steps(&self) -> (r: usize)
        ensures
            r == self.metadata.total_steps,
    {
        self.metadata.total_steps
    }

    /// Whether a reasoning step holds the marker of a final answer.
    pub fn is_complete(&self) -> (r: bool)
        ensures
            r == any_final_marker(self@.reasoning_steps),
    {
        let mut i: usize = 0;
        while i < self.reasoning_steps.len()
            invariant
                i <= self.reasoning_steps@.len(),
                forall|j: int|
                    0 <= j < i ==> !has_final_marker(#[trigger] texts(self.reasoning_steps@)[j]),
            decreases self.reasoning_steps.len() - i,
        {
            if contains_final_marker(self.reasoning_steps[i].as_str()) {
                assert(has_final_marker(texts(self.reasoning_steps@)[i as int]));
                return true;
            }
            i += 1;
        }
        false
    }
}

/// What configures a run. The temperature is held in thousandths, and the
/// limit of a tool call in milliseconds.
#[derive(Clone, Copy, Debug, PartialEq, Eq)]
pub struct AgentOptions {
    /// The greatest number of reasoning steps.
    pub max_steps: usize,
    /// The time that one tool call may take, in milliseconds.
    pub timeout: u64,
    /// The sampling temperature, in thousandths, at most 2000.
    pub temperature: u32,
    /// The greatest number of tokens of a completion.
    pub max_completion_tokens: u32,
    /// Whether reasoning effort is asked for.
    pub reasoning_effort: bool,
}

/// The options that a run has unless told otherwise: ten steps, five
/// minutes for a tool call, a temperature of 0.7 and 4000 tokens.
pub open spec fn default_options() -> AgentOptions {
    AgentOptions {
        max_steps: 10,
        timeout: 300_000,
        temperature: 700,
        max_completion_tokens: 4000,
        reasoning_effort: false,
    }
}

impl Default for AgentOptions {
    fn default() -> (r: AgentOptions)
        ensures
            r == default_options(),
    {
        AgentOptions {
            max_steps: 10,
            timeout: 300_000,
            temperature: 700,
            max_completion_tokens: 4000,
            reasoning_effort: false,
        }
    }
}

/// Builds an agent step by step.
#[derive(Clone, Debug, PartialEq, Eq)]
pub struct AgentBuilder {
    /// The credentials of the API.
    pub auth: Auth,
    /// The options so far.
    pub options: AgentOptions,
    /// Instructions to add to the system prompt.
    pub custom_instructions: Option<String>,
}

impl AgentBuilder {
    /// Sets the greatest number of reasoning steps.
    pub fn max_steps(self, steps: usize) -> (r: AgentBuilder)
        ensures
            r.options == (AgentOptions { max_steps: steps, ..self.options }),
            r.auth == self.auth,
            r.custom_instructions == self.custom_instructions,
    {
        let mut builder = self;
        builder.options.max_steps = steps;
        builder
    }

    /// Sets the time that one tool call may take, in milliseconds.
    pub fn timeout(self, duration: u64) -> (r: AgentBuilder)
        ensures
            r.options == (AgentOptions { timeout: duration, ..self.options }),
            r.auth == self.auth,
            r.custom_instructions == self.custom_instructions,
    {
        let mut builder = self;
        builder.options.timeout = duration;
        builder
    }

    /// Sets the temperature, in thousandths; what is above 2000 counts as
    /// 2000.
    pub fn temperature(self, temp: u32) -> (r: AgentBuilder)
        ensures
            r.options == (AgentOptions {
                temperature: if temp > 2000 {
                    2000
                } else {
                    temp
                },
                ..self.options
            }),
            r.auth == self.auth,
            r.custom_instructions == self.custom_instructions,
    {
        let mut builder = self;
        builder.options.temperature = if temp > 2000 {
            2000
        } else {
            temp
        };
        builder
    }

    /// Sets the greatest number of tokens of a completion.
    pub fn max_completion_tokens(self, tokens: u32) -> (r: AgentBuilder)
        ensures
            r.options == (AgentOptions { max_completion_tokens: tokens, ..self.options }),
            r.auth == self.auth,
            r.custom_instructions == self.custom_instructions,
    {
        let mut builder = self;
        builder.options.max_completion_tokens = tokens;
        builder
    }

    /// Sets the instructions that are added to the system prompt.
    pub fn custom_instructions(self, instructions: String) -> (r: AgentBuilder)
        ensures
            r.options == self.options,
            r.auth == self.auth,
            r.custom_instructions == Some(instructions),
    {
        let mut builder = self;
        builder.custom_instructions = Some(instructions);
        builder
    }

    /// Sets whether reasoning effort is asked for.
    pub fn reasoning_effort(self, enabled: bool) -> (r: AgentBuilder)
        ensures
            r.options == (AgentOptions { reasoning_effort: enabled, ..self.options }),
            r.auth == self.auth,
            r.custom_instructions == self.custom_instructions,
    {
        let mut builder = self;
        builder.options.reasoning_effort = enabled;
        builder
    }

    /// The agent with the options set so far, and no tool yet.
    pub fn build(self) -> (agent: Agent)
        ensures
            agent.options == self.options,
            agent.custom_instructions == self.custom_instructions,
            agent.tools@.len() == 0,
            agent.well_formed(),
    {
        Agent {
            options: self.options,
            custom_instructions: self.custom_instructions,
            tools: Vec::new(),
        }
    }
}

/// The contents of tool descriptions.
pub open spec fn tools_view(tools: Seq<ToolDescription>) -> Seq<ToolDescriptionView> {
    Seq::new(tools.len(), |i: int| tools[i]@)
}

/// The names of tools.
pub open spec fn tool_names(tools: Seq<ToolDescription>) -> Seq<Seq<char>> {
    Seq::new(tools.len(), |i: int| tools[i].name@)
}

/// The index of the tool called `name`.
pub open spec fn tool_index(tools: Seq<ToolDescription>, name: Seq<char>, upto: int) -> Option<int>
    decreases upto,
{
    if upto <= 0 || upto > tools.len() {
        None
    } else if tools[upto - 1].name@ == name {
        Some(upto - 1)
    } else {
        tool_index(tools, name, upto - 1)
    }
}

/// `tools` after `tool` was registered: in the place of the tool with its
/// name, or at the end where there is none.
pub open spec fn registered(tools: Seq<ToolDescription>, tool: ToolDescription) -> Seq<
    ToolDescription,
> {
    match tool_index(tools, tool.name@, tools.len() as int) {
        Some(i) => tools.update(i, tool),
        None => tools.push(tool),
    }
}

/// `tools` after the first `upto` of `new` were registered, one after the
/// other.
pub open spec fn registered_all(
    tools: Seq<ToolDescription>,
    new: Seq<ToolDescription>,
    upto: int,
) -> Seq<ToolDescription>
    decreases upto,
{
    if upto <= 0 || upto > new.len() {
        tools
    } else {
        registered(registered_all(tools, new, upto - 1), new[upto - 1])
    }
}

/// The agent: its options and the tools it may call.
#[derive(Debug, PartialEq, Eq)]
pub struct Agent {
    /// What configures each run.
    pub options: AgentOptions,
    /// Instructions that are added to the system prompt.
    pub custom_instructions: Option<String>,
    /// The tools, in the order in which their names were first registered.
    pub tools: Vec<ToolDescription>,
}

impl Clone for Agent {
    fn clone(&self) -> (r: Agent)
        ensures
            r.options == self.options,
            text_view(r.custom_instructions) == text_view(self.custom_instructions),
            tools_view(r.tools@) == tools_view(self.tools@),
    {
        let mut tools: Vec<ToolDescription> = Vec::new();
        let mut i: usize = 0;
        while i < self.tools.len()
            invariant
                i <= self.tools@.len(),
                tools@.len() == i,
                forall|j: int| 0 <= j < i ==> (#[trigger] tools@[j])@ == self.tools@[j]@,
            decreases self.tools.len() - i,
        {
            tools.push(self.tools[i].clone());
            i += 1;
        }
        assert(tools_view(tools@) =~= tools_view(self.tools@));
        let custom_instructions = match &self.custom_instructions {
            Some(text) => Some(text.clone()),
            None => None,
        };
        Agent { options: self.options, custom_instructions, tools }
    }
}

impl Agent {
    /// Whether no two tools share a name.
    pub open spec fn well_formed(&self) -> bool {
        forall|i: int, j: int|
            0 <= i < j < self.tools@.len() ==> (#[trigger] self.tools@[i]).name@ != (
            #[trigger] self.tools@[j]).name@
    }

    /// A builder with the default options.
    pub fn builder(auth: Auth) -> (r: AgentBuilder)
        ensures
            r.auth == auth,
            r.options == default_options(),
            r.custom_instructions is None,
    {
        AgentBuilder { auth, options: AgentOptions::default(), custom_instructions: None }
    }

    /// The index of the tool called `name`.
    fn position(&self, name: &String) -> (r: Option<usize>)
        ensures
            match r {
                Some(i) => i < self.tools@.len() && self.tools@[i as int].name@ == name@
                    && tool_index(self.tools@, name@, self.tools@.len() as int) == Some(i as int),
                None => tool_index(self.tools@, name@, self.tools@.len() as int) is None
                    && forall|j: int|
                    0 <= j < self.tools@.len() ==> (#[trigger] self.tools@[j]).name@ != name@,
            },
    {
        let mut i: usize = self.tools.len();
        while i > 0
            invariant
                i <= self.tools@.len(),
                tool_index(self.tools@, name@, self.tools@.len() as int) == tool_index(
                    self.tools@,
                    name@,
                    i as int,
                ),
                forall|j: int|
                    i <= j < self.tools@.len() ==> (#[trigger] self.tools@[j]).name@ != name@,
            decreases i,
        {
            if self.tools[i - 1].name == *name {
                return Some(i - 1);
            }
            i -= 1;
        }
        None
    }

    /// Registers a tool. A tool that has the name of one registered before
    /// takes its place.
    pub fn register_tool(&mut self, tool: ToolDescription)
        requires
            old(self).well_formed(),
        ensures
            final(self).well_formed(),
            final(self).options == old(self).options,
            final(self).custom_instructions == old(self).custom_instructions,
            final(self).tools@ == registered(old(self).tools@, tool),
    {
        match self.position(&tool.name) {
            Some(i) => {
                self.tools[i] = tool;
            },
            None => {
                self.tools.push(tool);
            },
        }
    }

    /// Registers each of `tools`, in their order.
    pub fn register_tools(&mut self, tools: Vec<ToolDescription>)
        requires
            old(self).well_formed(),
        ensures
            final(self).well_formed(),
            final(self).options == old(self).options,
            final(self).custom_instructions == old(self).custom_instructions,
            final(self).tools@ == registered_all(old(self).tools@, tools@, tools@.len() as int),
    {
        let total = tools.len();
        let ghost all = tools@;
        let mut rest = tools;
        let mut done: usize = 0;
        while rest.len() > 0
            invariant
                all.len() == total,
                self.well_formed(),
                self.options == old(self).options,
                self.custom_instructions == old(self).custom_instructions,
                done + rest@.len() == all.len(),
                rest@ == all.skip(done as int),
                self.tools@ == registered_all(old(self).tools@, all, done as int),
            decreases rest.len(),
        {
            let next = rest.remove(0);
            assert(next == all[done as int]);
            assert(rest@ =~= all.skip(done + 1));
            self.register_tool(next);
            done += 1;
        }
    }

    /// The tool called `name`.
    pub fn find_tool(&self, name: &str) -> (r: Option<&ToolDescription>)
        ensures
            match r {
                Some(tool) => tool_index(self.tools@, name@, self.tools@.len() as int) is Some
                    && *tool == self.tools@[tool_index(
                    self.tools@,
                    name@,
                    self.tools@.len() as int,
                )->Some_0] && tool.name@ == name@,
                None => tool_index(self.tools@, name@, self.tools@.len() as int) is None,
            },
    {
        let wanted = name.to_owned();
        match self.position(&wanted) {
            Some(i) => Some(&self.tools[i]),
            None => None,
        }
    }

    /// The names of the tools.
    pub fn list_tools(&self) -> (names: Vec<String>)
        ensures
            texts(names@) == tool_names(self.tools@),
    {
        let mut names: Vec<String> = Vec::new();
        let mut i: usize = 0;
        while i < self.tools.len()
            invariant
                i <= self.tools@.len(),
                names@.len() == i,
                forall|j: int| 0 <= j < i ==> (#[trigger] names@[j])@ == self.tools@[j].name@,
            decreases self.tools.len() - i,
        {
            names.push(self.tools[i].name.clone());
            i += 1;
        }
        assert(texts(names@) =~= tool_names(self.tools@));
        names
    }
}

/// The content of an `AgentEvent`.
pub enum EventView {
    ReasoningToken { content: Seq<char> },
    ReasoningStepDone { content: Seq<char> },
    ToolCall { name: Seq<char>, args: Json },
    ToolResult { name: Seq<char>, result: Json, is_streaming: Option<bool> },
    FinalAnswer { content: Seq<char> },
    Error { message: Seq<char> },
    Metadata { data: AgentMetadata },
    Started { max_steps: usize, tools: Seq<Seq<char>> },
    Completed { success: bool, total_steps: usize, duration: Option<u64> },
}

/// What a run lets its caller know while it goes on.
#[derive(Clone, Debug, PartialEq, Eq)]
pub enum AgentEvent {
    /// A token of reasoning.
    ReasoningToken { content: String },
    /// A reasoning step is complete.
    ReasoningStepDone { content: String },
    /// A tool is about to be called.
    ToolCall { name: String, args: JsonValue },
    /// What a tool returned, whole or in part.
    ToolResult { name: String, result: JsonValue, is_streaming: Option<bool> },
    /// The final answer.
    FinalAnswer { content: String },
    /// Something failed.
    Error { message: String },
    /// The counters of the run.
    Metadata { data: AgentMetadata },
    /// The run began.
    Started { max_steps: usize, tools: Vec<String> },
    /// The run ended; the duration is in milliseconds.
    Completed { success: bool, total_steps: usize, duration: Option<u64> },
}

impl View for AgentEvent {
    type V = EventView;

    open spec fn view(&self) -> EventView {
        match self {
            AgentEvent::ReasoningToken { content } => EventView::ReasoningToken {
                content: content@,
            },
            AgentEvent::ReasoningStepDone { content } => EventView::ReasoningStepDone {
                content: content@,
            },
            AgentEvent::ToolCall { name, args } => EventView::ToolCall {
                name: name@,
                args: args@,
            },
            AgentEvent::ToolResult { name, result, is_streaming } => EventView::ToolResult {
                name: name@,
                result: result@,
                is_streaming: *is_streaming,
            },
            AgentEvent::FinalAnswer { content } => EventView::FinalAnswer { content: content@ },
            AgentEvent::Error { message } => EventView::Error { message: message@ },
            AgentEvent::Metadata { data } => EventView::Metadata { data: *data },
            AgentEvent::Started { max_steps, tools } => EventView::Started {
                max_steps: *max_steps,
                tools: texts(tools@),
            },
            AgentEvent::Completed { success, total_steps, duration } => EventView::Completed {
                success: *success,
                total_steps: *total_steps,
                duration: *duration,
            },
        }
    }
}

impl AgentEvent {
    /// The event of a failure.
    pub fn err(message: String) -> (r: AgentEvent)
        ensures
            r@ == (EventView::Error { message: message@ }),
    {
        AgentEvent::Error { message }
    }

    /// The event of a token of reasoning.
    pub fn reasoning_token(content: String) -> (r: AgentEvent)
        ensures
            r@ == (EventView::ReasoningToken { content: content@ }),
    {
        AgentEvent::ReasoningToken { content }
    }

    /// The event of the beginning of a run.
    pub fn started(max_steps: usize, tools: Vec<String>) -> (r: AgentEvent)
        ensures
            r@ == (EventView::Started { max_steps, tools: texts(tools@) }),
    {
        AgentEvent::Started { max_steps, tools }
    }

    /// The event of the end of a run.
    pub fn completed(success: bool, total_steps: usize, duration: Option<u64>) -> (r: AgentEvent)
        ensures
            r@ == (EventView::Completed { success, total_steps, duration }),
    {
        AgentEvent::Completed { success, total_steps, duration }
    }
}

/// The contents of events.
pub open spec fn events_view(events: Seq<AgentEvent>) -> Seq<EventView> {
    Seq::new(events.len(), |i: int| events[i]@)
}

} // verus!
