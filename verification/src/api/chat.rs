//! Types of the chat endpoint.

use crate::api::types::{ConstFunction, Either, ImageDetail, Role};
use crate::json::JsonValue;
use crate::text::{same, to_chars};
use vstd::prelude::*;

verus! {

/// A chat message.
#[derive(Clone, Debug, PartialEq, Eq)]
pub enum ChatMessage {
    Developer(ChatMessageCommon<Either<String, Vec<ChatMessageContentText>>>),
    System(ChatMessageCommon<Either<String, Vec<ChatMessageContentText>>>),
    User(ChatMessageCommon<Either<String, Vec<ChatMessageContentMultimedia>>>),
    Assistant(ChatMessageAssistant),
    Tool(ChatMessageTool),
}

/// What the messages of the chat endpoint have in common.
#[derive(Clone, Debug, PartialEq, Eq)]
pub struct ChatMessageCommon<T> {
    pub content: T,
    pub name: Option<String>,
}

/// A chat message content text.
#[derive(Clone, Debug, PartialEq, Eq)]
pub struct ChatMessageContentText {
    pub text: String,
    pub kind: ConstText,
}

/// A member that always holds `text`.
#[derive(Clone, Debug, PartialEq, Eq)]
pub struct ConstText;

impl Default for ConstText {
    fn default() -> (r: ConstText)
        ensures
            r == ConstText,
    {
        ConstText
    }
}

impl ConstText {
    /// The text that the member holds.
    pub fn as_str(&self) -> (r: &'static str)
        ensures
            r@ == "text"@,
    {
        "text"
    }

    /// Whether `text` is what the member holds.
    pub fn accepts(text: &str) -> (r: bool)
        ensures
            r == (text@ == "text"@),
    {
        same(&to_chars(text), &to_chars("text"))
    }
}

/// A chat message content multimedia.
#[derive(Clone, Debug, PartialEq, Eq)]
pub enum ChatMessageContentMultimedia {
    Text(String),
    InputImage { image_url: ImageUrl },
    InputAudio { input_audio: InputAudio },
    File { file_data: Option<String>, file_id: Option<String>, filename: Option<String> },
}

/// An image URL.
#[derive(Clone, Debug, PartialEq, Eq)]
pub struct ImageUrl {
    pub url: String,
    pub detail: Option<ImageDetail>,
}

/// An input audio.
#[derive(Clone, Debug, PartialEq, Eq)]
pub struct InputAudio {
    pub data: String,
    pub format: AudioFormat,
}

/// An audio format; each variant has a name on the wire.
#[derive(Clone, Debug, PartialEq, Eq)]
pub enum AudioFormat {
    Wav,
    Mp3,
}

impl AudioFormat {
    /// The name of this variant on the wire.
    pub open spec fn name(self) -> Seq<char> {
        match self {
            AudioFormat::Wav => "wav"@,
            AudioFormat::Mp3 => "mp3"@,
        }
    }

    /// The name of this variant on the wire.
    pub fn as_str(&self) -> (r: &'static str)
        ensures
            r@ == self.name(),
    {
        match self {
            AudioFormat::Wav => "wav",
            AudioFormat::Mp3 => "mp3",
        }
    }
}

/// A chat message assistant.
#[derive(Clone, Debug, PartialEq, Eq)]
pub struct ChatMessageAssistant {
    pub common: ChatMessageCommon<
        Either<String, Vec<Either<ChatMessageContentText, ChatMessageContentRefusal>>>,
    >,
    pub audio: Option<Audio>,
    pub refusal: Option<String>,
    pub tool_calls: Option<Vec<ChatToolCall>>,
}

/// A chat message content refusal.
#[derive(Clone, Debug, PartialEq, Eq)]
pub struct ChatMessageContentRefusal {
    pub refusal: String,
    pub kind: String,
}

/// An audio.
#[derive(Clone, Debug, PartialEq, Eq)]
pub struct Audio {
    pub id: String,
}

/// A chat tool call.
#[derive(Clone, Debug, PartialEq, Eq)]
pub struct ChatToolCall {
    pub function: Function,
    pub id: String,
    pub kind: ConstFunction,
}

/// A function.
#[derive(Clone, Debug, PartialEq, Eq)]
pub struct Function {
    pub arguments: JsonValue,
    pub name: String,
}

/// A chat message tool.
#[derive(Clone, Debug, PartialEq, Eq)]
pub struct ChatMessageTool {
    pub content: Either<String, Vec<ChatMessageContentText>>,
    pub tool_call_id: String,
}

/// A chat response format.
#[derive(Clone, Debug, PartialEq, Eq)]
pub enum ChatResponseFormat {
    Text,
    JsonSchema { json_schema: ChatResponseFormatJsonSchema },
    JsonObject,
}

/// A chat response format json schema.
#[derive(Clone, Debug, PartialEq, Eq)]
pub struct ChatResponseFormatJsonSchema {
    pub name: String,
    pub description: Option<String>,
    pub schema: Option<JsonValue>,
    pub strict: Option<bool>,
}

/// Stream options.
#[derive(Clone, Debug, PartialEq, Eq)]
pub struct StreamOptions {
    pub include_usage: Option<bool>,
}

/// A chat choice message.
#[derive(Clone, Debug, PartialEq, Eq)]
pub struct ChatChoiceMessage {
    pub content: Option<String>,
    pub refusal: Option<String>,
    pub role: Role,
    pub annotations: Option<Vec<JsonValue>>,
    pub audio: Option<JsonValue>,
    pub tool_calls: Option<Vec<JsonValue>>,
}

/// A chat usage.
#[derive(Clone, Debug, PartialEq, Eq)]
pub struct ChatUsage {
    pub completion_tokens: u32,
    pub prompt_tokens: u32,
    pub total_tokens: u32,
    pub completion_tokens_details: ChatCompletionTokensDetails,
    pub prompt_tokens_details: ChatPromptTokensDetails,
}

/// Chat completion tokens details.
#[derive(Clone, Debug, PartialEq, Eq)]
pub struct ChatCompletionTokensDetails {
    pub accepted_prediction_tokens: Option<u32>,
    pub audio_tokens: Option<u32>,
    pub reasoning_tokens: u32,
    pub rejected_prediction_tokens: Option<u32>,
}

/// Chat prompt tokens details.
#[derive(Clone, Debug, PartialEq, Eq)]
pub struct ChatPromptTokensDetails {
    pub audio_tokens: Option<u32>,
    pub cached_tokens: u32,
}

/// A chat chunk choice delta.
#[derive(Clone, Debug, PartialEq, Eq)]
pub struct ChatChunkChoiceDelta {
    pub content: Option<String>,
    pub refusal: Option<String>,
    pub role: Option<String>,
    pub tool_calls: Option<Vec<ChatToolCall>>,
}

/// A chat tool call indexed.
#[derive(Clone, Debug, PartialEq, Eq)]
pub struct ChatToolCallIndexed {
    pub index: u32,
    pub tool_call: ChatToolCall,
}

impl<A: Default, B> Default for ChatMessageCommon<Either<A, B>> {
    /// A message without a name whose content is the default of the first
    /// type.
    fn default() -> (r: ChatMessageCommon<Either<A, B>>)
        ensures
            r.content is A,
            r.name is None,
    {
        ChatMessageCommon { content: Either::A(A::default()), name: None }
    }
}

} // verus!
