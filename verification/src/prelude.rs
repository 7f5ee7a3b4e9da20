//! The items that most callers need, under one path.

pub use crate::agent::{
    Agent, AgentBuilder, AgentEvent, AgentMetadata, AgentOptions, AgentState,
};
pub use crate::api::types::{ApiError, ApiErrorWrapper, ApiResult, Either, ErrorBase};
pub use crate::api::ApiEventHandler;
pub use crate::error::{AgentError, Error, ToolError};
pub use crate::http::{Auth, EventHandler, Multipart, Reconnect, SseOptions};
pub use crate::json::JsonValue;
pub use crate::model::Model;
pub use crate::run::{AgentRun, Phase, Request, Turn};
pub use crate::sse::{Sse, SseAction, SseStep};
pub use crate::tool::{
    RecordedCall, ToolCall, ToolCallOutcome, ToolCallResult, ToolDescription,
};
