//! Types of a request to the responses endpoint.

use crate::api::response::types::{ResponseMessage, Status3};
use crate::api::types::ImageDetail;
use crate::text::{same, to_chars};
use vstd::prelude::*;

verus! {

/// A response message input content.
#[derive(Clone, Debug, PartialEq, Eq)]
pub enum ResponseMessageInputContent {
    InputText {
        text: String,
    },
    InputImage {
        detail: ImageDetail,
        file_id: Option<String>,
        image_url: Option<String>,
    },
    InputFile {
        file_data: Option<String>,
        file_id: Option<String>,
        filename: Option<String>,
    },
}

/// A computer screenshot.
#[derive(Clone, Debug, PartialEq, Eq)]
pub struct ComputerScreenshot {
    pub kind: ConstComputerScreenshot,
    pub file_id: Option<String>,
    pub image_url: Option<String>,
}

/// A member that always holds `computer_screenshot`.
#[derive(Clone, Debug, PartialEq, Eq)]
pub struct ConstComputerScreenshot;

impl Default for ConstComputerScreenshot {
    fn default() -> (r: ConstComputerScreenshot)
        ensures
            r == ConstComputerScreenshot,
    {
        ConstComputerScreenshot
    }
}

impl ConstComputerScreenshot {
    /// The text that the member holds.
    pub fn as_str(&self) -> (r: &'static str)
        ensures
            r@ == "computer_screenshot"@,
    {
        "computer_screenshot"
    }

    /// Whether `text` is what the member holds.
    pub fn accepts(text: &str) -> (r: bool)
        ensures
            r == (text@ == "computer_screenshot"@),
    {
        same(&to_chars(text), &to_chars("computer_screenshot"))
    }
}

/// An acknowledged safety check.
#[derive(Clone, Debug, PartialEq, Eq)]
pub struct AcknowledgedSafetyCheck {
    pub id: String,
    pub code: Option<String>,
    pub message: Option<String>,
}

/// A response input message.
#[derive(Clone, Debug, PartialEq, Eq)]
pub struct ResponseInputMessage {
    pub message: ResponseMessage<Vec<ResponseMessageInputContent>>,
    pub status: Option<Status3>,
}

/// What a response is asked to include; each variant has a name on the wire.
#[derive(Clone, Debug, PartialEq, Eq)]
pub enum Include {
    FileSearchCallResults,
    MessageInputImageImageUrl,
    ComputerCallOutputOutputImageUrl,
    ReasoningEncryptedContent,
    CodeInterpreterCallOutputs,
}

impl Include {
    /// The name of this variant on the wire.
    pub open spec fn name(self) -> Seq<char> {
        match self {
            Include::FileSearchCallResults => "file_search_call.results"@,
            Include::MessageInputImageImageUrl => "message.input_image.image_url"@,
            Include::ComputerCallOutputOutputImageUrl => "computer_call_output.output.image_url"@,
            Include::ReasoningEncryptedContent => "reasoning.encrypted_content"@,
            Include::CodeInterpreterCallOutputs => "code_interpreter_call.outputs"@,
        }
    }

    /// The name of this variant on the wire.
    pub fn as_str(&self) -> (r: &'static str)
        ensures
            r@ == self.name(),
    {
        match self {
            Include::FileSearchCallResults => "file_search_call.results",
            Include::MessageInputImageImageUrl => "message.input_image.image_url",
            Include::ComputerCallOutputOutputImageUrl => "computer_call_output.output.image_url",
            Include::ReasoningEncryptedContent => "reasoning.encrypted_content",
            Include::CodeInterpreterCallOutputs => "code_interpreter_call.outputs",
        }
    }
}

} // verus!
