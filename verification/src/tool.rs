//! Tool calls and what comes back from them.

use crate::json::{Json, JsonValue};
use vstd::prelude::*;

verus! {

/// The content of a `ToolCall`.
pub struct ToolCallView {
    pub name: Seq<char>,
    pub args: Json,
}

/// A request to call a tool with given arguments.
#[derive(Debug, PartialEq, Eq)]
pub struct ToolCall {
    /// The name of the tool.
    pub name: String,
    /// The arguments to call it with.
    pub args: JsonValue,
}

impl View for ToolCall {
    type V = ToolCallView;

    open spec fn view(&self) -> ToolCallView {
        ToolCallView { name: self.name@, args: self.args@ }
    }
}

impl Clone for ToolCall {
    fn clone(&self) -> (r: ToolCall)
        ensures
            r@ == self@,
    {
        ToolCall { name: self.name.clone(), args: self.args.clone() }
    }
}

/// The content of a `ToolCallOutcome`.
pub enum OutcomeView {
    Success { result: Json },
    Error { message: Seq<char> },
}

/// How a tool call ended.
#[derive(Debug, PartialEq, Eq)]
pub enum ToolCallOutcome {
    /// The tool returned a value.
    Success { result: JsonValue },
    /// The call failed.
    Error { message: String },
}

impl View for ToolCallOutcome {
    type V = OutcomeView;

    open spec fn view(&self) -> OutcomeView {
        match self {
            ToolCallOutcome::Success { result } => OutcomeView::Success { result: result@ },
            ToolCallOutcome::Error { message } => OutcomeView::Error { message: message@ },
        }
    }
}

impl Clone for ToolCallOutcome {
    fn clone(&self) -> (r: ToolCallOutcome)
        ensures
            r@ == self@,
    {
        match self {
            ToolCallOutcome::Success { result } => ToolCallOutcome::Success {
                result: result.clone(),
            },
            ToolCallOutcome::Error { message } => ToolCallOutcome::Error {
                message: message.clone(),
            },
        }
    }
}

/// The content of a `ToolCallResult`.
pub struct ToolCallResultView {
    pub tool_call: ToolCallView,
    pub outcome: OutcomeView,
}

/// A tool call together with how it ended.
#[derive(Debug, PartialEq, Eq)]
pub struct ToolCallResult {
    /// The call that was made.
    pub tool_call: ToolCall,
    /// How it ended.
    pub outcome: ToolCallOutcome,
}

impl View for ToolCallResult {
    type V = ToolCallResultView;

    open spec fn view(&self) -> ToolCallResultView {
        ToolCallResultView { tool_call: self.tool_call@, outcome: self.outcome@ }
    }
}

impl Clone for ToolCallResult {
    fn clone(&self) -> (r: ToolCallResult)
        ensures
            r@ == self@,
    {
        ToolCallResult { tool_call: self.tool_call.clone(), outcome: self.outcome.clone() }
    }
}

impl ToolCallResult {
    /// The record of a call that returned `result`.
    pub fn success(tool: String, args: JsonValue, result: JsonValue) -> (r: ToolCallResult)
        ensures
            r@ == (ToolCallResultView {
                tool_call: ToolCallView { name: tool@, args: args@ },
                outcome: OutcomeView::Success { result: result@ },
            }),
    {
        ToolCallResult {
            tool_call: ToolCall { name: tool, args },
            outcome: ToolCallOutcome::Success { result },
        }
    }

    /// The record of a call that failed with `message`.
    pub fn err(tool: String, args: JsonValue, message: String) -> (r: ToolCallResult)
        ensures
            r@ == (ToolCallResultView {
                tool_call: ToolCallView { name: tool@, args: args@ },
                outcome: OutcomeView::Error { message: message@ },
            }),
    {
        ToolCallResult {
            tool_call: ToolCall { name: tool, args },
            outcome: ToolCallOutcome::Error { message },
        }
    }
}

/// The content of a `RecordedCall`.
pub struct RecordedCallView {
    pub step: usize,
    pub result: ToolCallResultView,
}

/// The result of a tool call, with the reasoning step that asked for the
/// call.
#[derive(Debug, PartialEq, Eq)]
pub struct RecordedCall {
    /// The number of the reasoning step that asked for the call, counted
    /// from one; zero for a result that was recorded before any step.
    pub step: usize,
    /// The call and how it ended.
    pub result: ToolCallResult,
}

impl View for RecordedCall {
    type V = RecordedCallView;

    open spec fn view(&self) -> RecordedCallView {
        RecordedCallView { step: self.step, result: self.result@ }
    }
}

impl Clone for RecordedCall {
    fn clone(&self) -> (r: RecordedCall)
        ensures
            r@ == self@,
    {
        RecordedCall { step: self.step, result: self.result.clone() }
    }
}

/// The content of a `ToolDescription`.
pub struct ToolDescriptionView {
    pub name: Seq<char>,
    pub description: Seq<char>,
    pub schema: Json,
    pub supports_stream: bool,
}

/// What the agent knows of a tool: how it is called, what it is for, the
/// schema of its parameters, and whether it can hand its result out in
/// chunks.
#[derive(Debug, PartialEq, Eq)]
pub struct ToolDescription {
    /// The name by which the tool is called; no two tools share one.
    pub name: String,
    /// What the tool does, in words.
    pub description: String,
    /// The JSON schema of the parameters.
    pub schema: JsonValue,
    /// Whether the tool has a streaming path.
    pub supports_stream: bool,
}

impl View for ToolDescription {
    type V = ToolDescriptionView;

    open spec fn view(&self) -> ToolDescriptionView {
        ToolDescriptionView {
            name: self.name@,
            description: self.description@,
            schema: self.schema@,
            supports_stream: self.supports_stream,
        }
    }
}

impl Clone for ToolDescription {
    fn clone(&self) -> (r: ToolDescription)
        ensures
            r@ == self@,
    {
        ToolDescription {
            name: self.name.clone(),
            description: self.description.clone(),
            schema: self.schema.clone(),
            supports_stream: self.supports_stream,
        }
    }
}

} // verus!
