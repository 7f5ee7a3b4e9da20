//! Events of the stream of the responses endpoint.

use crate::api::response::types::Annotation;
use crate::api::types::ErrorBase;
use crate::json::JsonValue;
use vstd::prelude::*;

verus! {

/// What every event of the stream holds.
#[derive(Clone, Debug, PartialEq, Eq)]
pub struct EventBase {
    pub sequence_number: u32,
}

/// The event `response.queued`.
#[derive(Clone, Debug, PartialEq, Eq)]
pub struct ResponseQueuedEvent {
    pub base: EventBase,
    pub response: JsonValue,
}

/// The event `response.content_part.done`.
#[derive(Clone, Debug, PartialEq, Eq)]
pub struct ResponseContentPartDoneEvent {
    pub base: EventBase,
    pub item_id: String,
    pub output_index: u32,
    pub content_index: u32,
    pub part: JsonValue,
}

/// The event `response.output_text.delta`.
#[derive(Clone, Debug, PartialEq, Eq)]
pub struct ResponseOutputTextDeltaEvent {
    pub base: EventBase,
    pub item_id: String,
    pub output_index: u32,
    pub content_index: u32,
    pub delta: String,
}

/// The event `response.output_text.done`.
#[derive(Clone, Debug, PartialEq, Eq)]
pub struct ResponseOutputTextDoneEvent {
    pub base: EventBase,
    pub item_id: String,
    pub output_index: u32,
    pub content_index: u32,
    pub text: String,
}

/// The event `response.refusal.delta`.
#[derive(Clone, Debug, PartialEq, Eq)]
pub struct ResponseRefusalDeltaEvent {
    pub base: EventBase,
    pub item_id: String,
    pub output_index: u32,
    pub content_index: u32,
    pub delta: String,
}

/// The event `response.refusal.done`.
#[derive(Clone, Debug, PartialEq, Eq)]
pub struct ResponseRefusalDoneEvent {
    pub base: EventBase,
    pub item_id: String,
    pub output_index: u32,
    pub content_index: u32,
    pub refusal: String,
}

/// The event `response.function_call_arguments.delta`.
#[derive(Clone, Debug, PartialEq, Eq)]
pub struct ResponseFunctionCallArgumentsDeltaEvent {
    pub base: EventBase,
    pub item_id: String,
    pub output_index: u32,
    pub delta: String,
}

/// The event `response.function_call_arguments.done`.
#[derive(Clone, Debug, PartialEq, Eq)]
pub struct ResponseFunctionCallArgumentsDoneEvent {
    pub base: EventBase,
    pub item_id: String,
    pub output_index: u32,
    pub arguments: String,
}

/// The event `response.file_search_call.in_progress`.
#[derive(Clone, Debug, PartialEq, Eq)]
pub struct ResponseFileSearchCallInProgressEvent {
    pub base: EventBase,
    pub item_id: String,
    pub output_index: u32,
}

/// The event `response.file_search_call.searching`.
#[derive(Clone, Debug, PartialEq, Eq)]
pub struct ResponseFileSearchCallSearchingEvent {
    pub base: EventBase,
    pub item_id: String,
    pub output_index: u32,
}

/// The event `response.file_search_call.completed`.
#[derive(Clone, Debug, PartialEq, Eq)]
pub struct ResponseFileSearchCallCompletedEvent {
    pub base: EventBase,
    pub item_id: String,
    pub output_index: u32,
}

/// The event `response.web_search_call.in_progress`.
#[derive(Clone, Debug, PartialEq, Eq)]
pub struct ResponseWebSearchCallInProgressEvent {
    pub base: EventBase,
    pub item_id: String,
    pub output_index: u32,
}

/// The event `response.web_search_call.searching`.
#[derive(Clone, Debug, PartialEq, Eq)]
pub struct ResponseWebSearchCallSearchingEvent {
    pub base: EventBase,
    pub item_id: String,
    pub output_index: u32,
}

/// The event `response.web_search_call.completed`.
#[derive(Clone, Debug, PartialEq, Eq)]
pub struct ResponseWebSearchCallCompletedEvent {
    pub base: EventBase,
    pub item_id: String,
    pub output_index: u32,
}

/// The event `response.reasoning_summary_part.added`.
#[derive(Clone, Debug, PartialEq, Eq)]
pub struct ResponseReasoningSummaryPartAddedEvent {
    pub base: EventBase,
    pub item_id: String,
    pub output_index: u32,
    pub summary_index: u32,
    pub part: JsonValue,
}

/// The event `response.reasoning_summary_part.done`.
#[derive(Clone, Debug, PartialEq, Eq)]
pub struct ResponseReasoningSummaryPartDoneEvent {
    pub base: EventBase,
    pub item_id: String,
    pub output_index: u32,
    pub summary_index: u32,
    pub part: JsonValue,
}

/// The event `response.reasoning_summary_text.delta`.
#[derive(Clone, Debug, PartialEq, Eq)]
pub struct ResponseReasoningSummaryTextDeltaEvent {
    pub base: EventBase,
    pub item_id: String,
    pub output_index: u32,
    pub summary_index: u32,
    pub delta: String,
}

/// The event `response.reasoning_summary_text.done`.
#[derive(Clone, Debug, PartialEq, Eq)]
pub struct ResponseReasoningSummaryTextDoneEvent {
    pub base: EventBase,
    pub item_id: String,
    pub output_index: u32,
    pub summary_index: u32,
    pub text: String,
}

/// The event `response.image_generation_call.completed`.
#[derive(Clone, Debug, PartialEq, Eq)]
pub struct ResponseImageGenerationCallCompletedEvent {
    pub base: EventBase,
    pub item_id: String,
    pub output_index: u32,
}

/// The event `response.image_generation_call.generating`.
#[derive(Clone, Debug, PartialEq, Eq)]
pub struct ResponseImageGenerationCallGeneratingEvent {
    pub base: EventBase,
    pub item_id: String,
    pub output_index: u32,
}

/// The event `response.image_generation_call.in_progress`.
#[derive(Clone, Debug, PartialEq, Eq)]
pub struct ResponseImageGenerationCallInProgressEvent {
    pub base: EventBase,
    pub item_id: String,
    pub output_index: u32,
}

/// The event `response.image_generation_call.partial_image`.
#[derive(Clone, Debug, PartialEq, Eq)]
pub struct ResponseImageGenerationCallPartialImageEvent {
    pub base: EventBase,
    pub item_id: String,
    pub output_index: u32,
    pub partial_image_index: u32,
    pub partial_image_b64: String,
}

/// The event `response.mcp_call.arguments.delta`.
#[derive(Clone, Debug, PartialEq, Eq)]
pub struct ResponseMcpCallArgumentsDeltaEvent {
    pub base: EventBase,
    pub item_id: String,
    pub output_index: u32,
    pub delta: JsonValue,
}

/// The event `response.mcp_call.arguments.done`.
#[derive(Clone, Debug, PartialEq, Eq)]
pub struct ResponseMcpCallArgumentsDoneEvent {
    pub base: EventBase,
    pub item_id: String,
    pub output_index: u32,
    pub arguments: JsonValue,
}

/// The event `response.mcp_call.completed`.
#[derive(Clone, Debug, PartialEq, Eq)]
pub struct ResponseMcpCallCompletedEvent {
    pub base: EventBase,
}

/// The event `response.mcp_call.failed`.
#[derive(Clone, Debug, PartialEq, Eq)]
pub struct ResponseMcpCallFailedEvent {
    pub base: EventBase,
}

/// The event `response.mcp_call.in_progress`.
#[derive(Clone, Debug, PartialEq, Eq)]
pub struct ResponseMcpCallInProgressEvent {
    pub base: EventBase,
    pub item_id: String,
    pub output_index: u32,
}

/// The event `response.mcp_list_tools.completed`.
#[derive(Clone, Debug, PartialEq, Eq)]
pub struct ResponseMcpListToolsCompletedEvent {
    pub base: EventBase,
}

/// The event `response.mcp_list_tools.failed`.
#[derive(Clone, Debug, PartialEq, Eq)]
pub struct ResponseMcpListToolsFailedEvent {
    pub base: EventBase,
}

/// The event `response.mcp_list_tools.in_progress`.
#[derive(Clone, Debug, PartialEq, Eq)]
pub struct ResponseMcpListToolsInProgressEvent {
    pub base: EventBase,
}

/// The event `response.output_text.annotation.added`.
#[derive(Clone, Debug, PartialEq, Eq)]
pub struct ResponseOutputTextAnnotationAddedEvent {
    pub base: EventBase,
    pub item_id: String,
    pub output_index: u32,
    pub content_index: u32,
    pub annotation_index: u32,
    pub annotation: Annotation,
}

/// The event `response.reasoning.delta`.
#[derive(Clone, Debug, PartialEq, Eq)]
pub struct ResponseReasoningDeltaEvent {
    pub base: EventBase,
    pub item_id: String,
    pub output_index: u32,
    pub content_index: u32,
    pub delta: JsonValue,
}

/// The event `response.reasoning.done`.
#[derive(Clone, Debug, PartialEq, Eq)]
pub struct ResponseReasoningDoneEvent {
    pub base: EventBase,
    pub item_id: String,
    pub output_index: u32,
    pub content_index: u32,
    pub text: String,
}

/// The event `response.reasoning_summary.delta`.
#[derive(Clone, Debug, PartialEq, Eq)]
pub struct ResponseReasoningSummaryDeltaEvent {
    pub base: EventBase,
    pub item_id: String,
    pub output_index: u32,
    pub summary_index: u32,
    pub delta: JsonValue,
}

/// The event `response.reasoning_summary.done`.
#[derive(Clone, Debug, PartialEq, Eq)]
pub struct ResponseReasoningSummaryDoneEvent {
    pub base: EventBase,
    pub item_id: String,
    pub output_index: u32,
    pub summary_index: u32,
    pub text: String,
}

/// The event `error`.
#[derive(Clone, Debug, PartialEq, Eq)]
pub struct ErrorEvent {
    pub error: ErrorBase,
    pub event: EventBase,
}

} // verus!
