//! Errors of the library, each with the message it is reported by.

use crate::api::types::ApiError;
use crate::text::{decimal, decimal_chars, from_chars};
use vstd::prelude::*;

verus! {

/// The text by which `std::time::Duration` shows, in its `Debug` form, a span
/// of `millis` milliseconds.
pub uninterp spec fn duration_text(millis: u64) -> Seq<char>;

/// Formats a `std::time::Duration` of `millis` milliseconds with `{:?}`. The
/// result is the text that std writes for that span.
#[verifier::external_body]
fn format_duration(millis: u64) -> (r: String)
    ensures
        r@ == duration_text(millis),
{
    format!("{:?}", std::time::Duration::from_millis(millis))
}

/// The message of a run that used up its `steps` steps.
pub open spec fn max_steps_text(steps: usize) -> Seq<char> {
    "maximum steps "@ + decimal(steps as nat) + " reached without final answer"@
}

/// The message of a call to a tool `tool` that is not registered.
pub open spec fn unknown_tool_text(tool: Seq<char>) -> Seq<char> {
    "unknown tool: "@ + tool
}

/// The message of a call to the streaming path of a tool `tool` that has
/// none.
pub open spec fn no_streaming_text(tool: Seq<char>) -> Seq<char> {
    "tool '"@ + tool + "' does not support streaming"@
}

/// The message of a limit of `millis` milliseconds that ran out.
pub open spec fn timeout_text(millis: u64) -> Seq<char> {
    "timeout after "@ + duration_text(millis)
}

/// A failure of a run of the agent.
#[derive(Debug, PartialEq, Eq)]
pub enum AgentError {
    /// The run used up its reasoning steps without a final answer.
    MaxStepsExceeded(usize),
}

impl AgentError {
    /// The message of this error.
    pub open spec fn message_text(self) -> Seq<char> {
        match self {
            AgentError::MaxStepsExceeded(steps) => max_steps_text(steps),
        }
    }

    /// The message of this error.
    pub fn message(&self) -> (r: String)
        ensures
            r@ == self.message_text(),
    {
        match self {
            AgentError::MaxStepsExceeded(steps) => {
                let mut r = String::from_str("maximum steps ");
                let digits = from_chars(&decimal_chars(*steps as u128));
                r.append(digits.as_str());
                r.append(" reached without final answer");
                r
            },
        }
    }
}

/// A failure to reach or to use a tool.
#[derive(Debug, PartialEq, Eq)]
pub enum ToolError {
    /// The tool has no streaming path.
    StreamingNotSupported(String),
    /// No tool of that name is registered.
    Unknown(String),
}

impl ToolError {
    /// The message of this error.
    pub open spec fn message_text(self) -> Seq<char> {
        match self {
            ToolError::StreamingNotSupported(tool) => no_streaming_text(tool@),
            ToolError::Unknown(tool) => unknown_tool_text(tool@),
        }
    }

    /// The message of this error.
    pub fn message(&self) -> (r: String)
        ensures
            r@ == self.message_text(),
    {
        match self {
            ToolError::StreamingNotSupported(tool) => {
                let mut r = String::from_str("tool '");
                r.append(tool.as_str());
                r.append("' does not support streaming");
                r
            },
            ToolError::Unknown(tool) => {
                let mut r = String::from_str("unknown tool: ");
                r.append(tool.as_str());
                r
            },
        }
    }
}

/// Any failure that the library reports. What came from the transport, the
/// line framing or a JSON codec is held as the message it was reported with.
#[derive(Debug, PartialEq, Eq)]
pub enum Error {
    /// A failure described by free text.
    Any(String),
    /// An input or output failure.
    Io(String),
    /// A failure of the line framing.
    Codec(String),
    /// A failure of the HTTP transport.
    Reqwest(String),
    /// A failure to read or write JSON.
    SerdeJson(String),
    /// A failure of a run of the agent.
    Agent(AgentError),
    /// An error that the remote API returned.
    Api(ApiError),
    /// A limit of that many milliseconds ran out.
    Timeout(u64),
    /// A failure to reach or to use a tool.
    Tool(ToolError),
}

impl Error {
    /// An error described by free text.
    pub fn any(any: String) -> (r: Error)
        ensures
            r == Error::Any(any),
    {
        Error::Any(any)
    }

    /// The message of this error.
    pub open spec fn message_text(self) -> Seq<char> {
        match self {
            Error::Any(text) => text@,
            Error::Io(text) => text@,
            Error::Codec(text) => text@,
            Error::Reqwest(text) => text@,
            Error::SerdeJson(text) => text@,
            Error::Agent(e) => e.message_text(),
            Error::Api(e) => e.message_text(),
            Error::Timeout(millis) => timeout_text(millis),
            Error::Tool(e) => e.message_text(),
        }
    }

    /// The message of this error.
    pub fn message(&self) -> (r: String)
        ensures
            r@ == self.message_text(),
    {
        match self {
            Error::Any(text) => text.clone(),
            Error::Io(text) => text.clone(),
            Error::Codec(text) => text.clone(),
            Error::Reqwest(text) => text.clone(),
            Error::SerdeJson(text) => text.clone(),
            Error::Agent(e) => e.message(),
            Error::Api(e) => e.message(),
            Error::Timeout(millis) => {
                let mut r = String::from_str("timeout after ");
                let span = format_duration(*millis);
                r.append(span.as_str());
                r
            },
            Error::Tool(e) => e.message(),
        }
    }
}

} // verus!
