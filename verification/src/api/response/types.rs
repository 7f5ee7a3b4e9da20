//! Types that requests, objects and events of the responses endpoint share.

use crate::api::types::{ConstFunction, ReasoningEffort, Role};
use crate::json::JsonValue;
use crate::text::{same, to_chars};
use vstd::prelude::*;

verus! {

/// A response message.
#[derive(Clone, Debug, PartialEq, Eq)]
pub struct ResponseMessage<T> {
    pub content: T,
    pub role: Role,
}

/// An annotation.
#[derive(Clone, Debug, PartialEq, Eq)]
pub enum Annotation {
    FileCitation {
        file_id: String,
        index: u32,
    },
    UrlCitation {
        end_index: u32,
        start_index: u32,
        title: String,
        url: String,
    },
    ContainerFileCitation {
        container_id: String,
        end_index: u32,
        file_id: String,
        start_index: u32,
    },
    FilePath {
        file_id: String,
        index: u32,
    },
}

/// A refusal.
#[derive(Clone, Debug, PartialEq, Eq)]
pub struct Refusal {
    pub refusal: String,
}

/// One of the three states of an item; each variant has a name on the wire.
#[derive(Clone, Debug, PartialEq, Eq)]
pub enum Status3 {
    InProgress,
    Completed,
    Incomplete,
}

impl Status3 {
    /// The name of this variant on the wire.
    pub open spec fn name(self) -> Seq<char> {
        match self {
            Status3::InProgress => "in_progress"@,
            Status3::Completed => "completed"@,
            Status3::Incomplete => "incomplete"@,
        }
    }

    /// The name of this variant on the wire.
    pub fn as_str(&self) -> (r: &'static str)
        ensures
            r@ == self.name(),
    {
        match self {
            Status3::InProgress => "in_progress",
            Status3::Completed => "completed",
            Status3::Incomplete => "incomplete",
        }
    }

    /// The variant that `name` names on the wire.
    pub open spec fn named(name: Seq<char>) -> Option<Status3> {
        if name == "in_progress"@ {
            Some(Status3::InProgress)
        } else if name == "completed"@ {
            Some(Status3::Completed)
        } else if name == "incomplete"@ {
            Some(Status3::Incomplete)
        } else {
            None
        }
    }

    /// The variant that `name` names on the wire; none for any other
    /// text.
    pub fn from_name(name: &str) -> (r: Option<Status3>)
        ensures
            r == Status3::named(name@),
    {
        let text = to_chars(name);
        if same(&text, &to_chars("in_progress")) {
            Some(Status3::InProgress)
        } else if same(&text, &to_chars("completed")) {
            Some(Status3::Completed)
        } else if same(&text, &to_chars("incomplete")) {
            Some(Status3::Incomplete)
        } else {
            None
        }
    }

    /// Each variant is the one that its name on the wire names: no two
    /// variants share a name.
    pub proof fn law_name_names_the_variant(value: Status3)
        ensures
            Status3::named(value.name()) == Some(value),
    {
        reveal_strlit("in_progress");
        reveal_strlit("completed");
        reveal_strlit("incomplete");
        assert("in_progress"@.len() != "completed"@.len());
        assert("in_progress"@.len() != "incomplete"@.len());
        assert("completed"@.len() != "incomplete"@.len());
    }
}

/// A file search tool call status; each variant has a name on the wire.
#[derive(Clone, Debug, PartialEq, Eq)]
pub enum FileSearchToolCallStatus {
    InProgress,
    Searching,
    Incomplete,
    Failed,
}

impl FileSearchToolCallStatus {
    /// The name of this variant on the wire.
    pub open spec fn name(self) -> Seq<char> {
        match self {
            FileSearchToolCallStatus::InProgress => "in_progress"@,
            FileSearchToolCallStatus::Searching => "searching"@,
            FileSearchToolCallStatus::Incomplete => "incomplete"@,
            FileSearchToolCallStatus::Failed => "failed"@,
        }
    }

    /// The name of this variant on the wire.
    pub fn as_str(&self) -> (r: &'static str)
        ensures
            r@ == self.name(),
    {
        match self {
            FileSearchToolCallStatus::InProgress => "in_progress",
            FileSearchToolCallStatus::Searching => "searching",
            FileSearchToolCallStatus::Incomplete => "incomplete",
            FileSearchToolCallStatus::Failed => "failed",
        }
    }

    /// The variant that `name` names on the wire.
    pub open spec fn named(name: Seq<char>) -> Option<FileSearchToolCallStatus> {
        if name == "in_progress"@ {
            Some(FileSearchToolCallStatus::InProgress)
        } else if name == "searching"@ {
            Some(FileSearchToolCallStatus::Searching)
        } else if name == "incomplete"@ {
            Some(FileSearchToolCallStatus::Incomplete)
        } else if name == "failed"@ {
            Some(FileSearchToolCallStatus::Failed)
        } else {
            None
        }
    }

    /// The variant that `name` names on the wire; none for any other
    /// text.
    pub fn from_name(name: &str) -> (r: Option<FileSearchToolCallStatus>)
        ensures
            r == FileSearchToolCallStatus::named(name@),
    {
        let text = to_chars(name);
        if same(&text, &to_chars("in_progress")) {
            Some(FileSearchToolCallStatus::InProgress)
        } else if same(&text, &to_chars("searching")) {
            Some(FileSearchToolCallStatus::Searching)
        } else if same(&text, &to_chars("incomplete")) {
            Some(FileSearchToolCallStatus::Incomplete)
        } else if same(&text, &to_chars("failed")) {
            Some(FileSearchToolCallStatus::Failed)
        } else {
            None
        }
    }

    /// Each variant is the one that its name on the wire names: no two
    /// variants share a name.
    pub proof fn law_name_names_the_variant(value: FileSearchToolCallStatus)
        ensures
            FileSearchToolCallStatus::named(value.name()) == Some(value),
    {
        reveal_strlit("in_progress");
        reveal_strlit("searching");
        reveal_strlit("incomplete");
        reveal_strlit("failed");
        assert("in_progress"@.len() != "searching"@.len());
        assert("in_progress"@.len() != "incomplete"@.len());
        assert("in_progress"@.len() != "failed"@.len());
        assert("searching"@.len() != "incomplete"@.len());
        assert("searching"@.len() != "failed"@.len());
        assert("incomplete"@.len() != "failed"@.len());
    }
}

/// A computer call.
#[derive(Clone, Debug, PartialEq, Eq)]
pub struct ComputerCall {
    pub action: ComputerToolCallAction,
    pub call_id: String,
    pub id: String,
    pub pending_safety_checks: Vec<PendingSafetyCheck>,
    pub status: Status3,
}

/// A computer tool call action.
#[derive(Clone, Debug, PartialEq, Eq)]
pub enum ComputerToolCallAction {
    Click {
        button: Button,
        coordinate: Coordinate,
    },
    DoubleClick {
        coordinate: Coordinate,
    },
    Drag {
        path: Vec<Coordinate>,
    },
    Keypress {
        keys: Vec<String>,
    },
    Move {
        coordinate: Coordinate,
    },
    Screenshot,
    Scroll {
        scroll_x: i32,
        scroll_y: i32,
        coordinate: Coordinate,
    },
    Type {
        text: String,
    },
    Wait,
}

/// A button of the mouse; each variant has a name on the wire.
#[derive(Clone, Debug, PartialEq, Eq)]
pub enum Button {
    Left,
    Right,
    Wheel,
    Back,
    Forward,
}

impl Button {
    /// The name of this variant on the wire.
    pub open spec fn name(self) -> Seq<char> {
        match self {
            Button::Left => "left"@,
            Button::Right => "right"@,
            Button::Wheel => "wheel"@,
            Button::Back => "back"@,
            Button::Forward => "forward"@,
        }
    }

    /// The name of this variant on the wire.
    pub fn as_str(&self) -> (r: &'static str)
        ensures
            r@ == self.name(),
    {
        match self {
            Button::Left => "left",
            Button::Right => "right",
            Button::Wheel => "wheel",
            Button::Back => "back",
            Button::Forward => "forward",
        }
    }

    /// The variant that `name` names on the wire.
    pub open spec fn named(name: Seq<char>) -> Option<Button> {
        if name == "left"@ {
            Some(Button::Left)
        } else if name == "right"@ {
            Some(Button::Right)
        } else if name == "wheel"@ {
            Some(Button::Wheel)
        } else if name == "back"@ {
            Some(Button::Back)
        } else if name == "forward"@ {
            Some(Button::Forward)
        } else {
            None
        }
    }

    /// The variant that `name` names on the wire; none for any other
    /// text.
    pub fn from_name(name: &str) -> (r: Option<Button>)
        ensures
            r == Button::named(name@),
    {
        let text = to_chars(name);
        if same(&text, &to_chars("left")) {
            Some(Button::Left)
        } else if same(&text, &to_chars("right")) {
            Some(Button::Right)
        } else if same(&text, &to_chars("wheel")) {
            Some(Button::Wheel)
        } else if same(&text, &to_chars("back")) {
            Some(Button::Back)
        } else if same(&text, &to_chars("forward")) {
            Some(Button::Forward)
        } else {
            None
        }
    }

    /// Each variant is the one that its name on the wire names: no two
    /// variants share a name.
    pub proof fn law_name_names_the_variant(value: Button)
        ensures
            Button::named(value.name()) == Some(value),
    {
        reveal_strlit("left");
        reveal_strlit("right");
        reveal_strlit("wheel");
        reveal_strlit("back");
        reveal_strlit("forward");
        assert("left"@.len() != "right"@.len());
        assert("left"@.len() != "wheel"@.len());
        assert("left"@[0] != "back"@[0]);
        assert("left"@.len() != "forward"@.len());
        assert("right"@[0] != "wheel"@[0]);
        assert("right"@.len() != "back"@.len());
        assert("right"@.len() != "forward"@.len());
        assert("wheel"@.len() != "back"@.len());
        assert("wheel"@.len() != "forward"@.len());
        assert("back"@.len() != "forward"@.len());
    }
}

/// A coordinate.
#[derive(Clone, Debug, PartialEq, Eq)]
pub struct Coordinate {
    pub x: u32,
    pub y: u32,
}

/// A pending safety check.
#[derive(Clone, Debug, PartialEq, Eq)]
pub struct PendingSafetyCheck {
    pub code: String,
    pub id: String,
    pub message: String,
}

/// A web search call.
#[derive(Clone, Debug, PartialEq, Eq)]
pub struct WebSearchCall {
    pub id: String,
    pub status: String,
}

/// A function call.
#[derive(Clone, Debug, PartialEq, Eq)]
pub struct FunctionCall {
    pub arguments: JsonValue,
    pub call_id: String,
    pub name: String,
    pub id: Option<String>,
    pub status: Option<Status3>,
}

/// A reasoning item.
#[derive(Clone, Debug, PartialEq, Eq)]
pub struct ReasoningItem {
    pub id: String,
    pub summary: Vec<SummaryText>,
    pub encrypted_content: Option<String>,
    pub status: Option<Status3>,
}

/// A summary text.
#[derive(Clone, Debug, PartialEq, Eq)]
pub struct SummaryText {
    pub text: String,
    pub kind: ConstSummaryText,
}

/// A member that always holds `summary_text`.
#[derive(Clone, Debug, PartialEq, Eq)]
pub struct ConstSummaryText;

impl Default for ConstSummaryText {
    fn default() -> (r: ConstSummaryText)
        ensures
            r == ConstSummaryText,
    {
        ConstSummaryText
    }
}

impl ConstSummaryText {
    /// The text that the member holds.
    pub fn as_str(&self) -> (r: &'static str)
        ensures
            r@ == "summary_text"@,
    {
        "summary_text"
    }

    /// Whether `text` is what the member holds.
    pub fn accepts(text: &str) -> (r: bool)
        ensures
            r == (text@ == "summary_text"@),
    {
        same(&to_chars(text), &to_chars("summary_text"))
    }
}

/// An image generation call.
#[derive(Clone, Debug, PartialEq, Eq)]
pub struct ImageGenerationCall {
    pub id: String,
    pub result: Option<String>,
    pub status: String,
}

/// A code interpreter call.
#[derive(Clone, Debug, PartialEq, Eq)]
pub struct CodeInterpreterCall {
    pub code: String,
    pub id: String,
    pub results: Vec<CodeInterpreterCallOutput>,
    pub status: String,
    pub container_id: Option<String>,
}

/// A code interpreter call output.
#[derive(Clone, Debug, PartialEq, Eq)]
pub enum CodeInterpreterCallOutput {
    Logs { logs: String },
    Files { files: Vec<FileOutput> },
}

/// A file output.
#[derive(Clone, Debug, PartialEq, Eq)]
pub struct FileOutput {
    pub file_id: String,
    pub mime_type: String,
}

/// A local shell call.
#[derive(Clone, Debug, PartialEq, Eq)]
pub struct LocalShellCall {
    pub action: ShellAction,
    pub call_id: String,
    pub id: String,
    pub status: String,
}

/// A shell action.
#[derive(Clone, Debug, PartialEq, Eq)]
pub struct ShellAction {
    pub command: Vec<String>,
    pub env: JsonValue,
    pub kind: ConstExec,
    pub timeout_ms: Option<u64>,
    pub user: Option<String>,
    pub working_directory: Option<String>,
}

/// A member that always holds `exec`.
#[derive(Clone, Debug, PartialEq, Eq)]
pub struct ConstExec;

impl Default for ConstExec {
    fn default() -> (r: ConstExec)
        ensures
            r == ConstExec,
    {
        ConstExec
    }
}

impl ConstExec {
    /// The text that the member holds.
    pub fn as_str(&self) -> (r: &'static str)
        ensures
            r@ == "exec"@,
    {
        "exec"
    }

    /// Whether `text` is what the member holds.
    pub fn accepts(text: &str) -> (r: bool)
        ensures
            r == (text@ == "exec"@),
    {
        same(&to_chars(text), &to_chars("exec"))
    }
}

/// The tools that an MCP server lists.
#[derive(Clone, Debug, PartialEq, Eq)]
pub struct McpListTools {
    pub id: String,
    pub server_label: String,
    pub tools: Vec<ToolInfo>,
    pub error: Option<String>,
}

/// A tool info.
#[derive(Clone, Debug, PartialEq, Eq)]
pub struct ToolInfo {
    pub input_schema: JsonValue,
    pub name: String,
    pub annotations: Option<JsonValue>,
    pub description: Option<String>,
}

/// An MCP approval request.
#[derive(Clone, Debug, PartialEq, Eq)]
pub struct McpApprovalRequest {
    pub arguments: JsonValue,
    pub id: String,
    pub name: String,
    pub server_label: String,
}

/// An MCP call.
#[derive(Clone, Debug, PartialEq, Eq)]
pub struct McpCall {
    pub arguments: JsonValue,
    pub id: String,
    pub name: String,
    pub server_label: String,
    pub error: Option<String>,
    pub output: Option<String>,
}

/// The reasoning options of a response.
#[derive(Clone, Debug, PartialEq, Eq)]
pub struct Reasoning {
    pub effort: Option<ReasoningEffort>,
    pub summary: Option<Summary>,
}

/// How much of the reasoning is summarised; each variant has a name on the wire.
#[derive(Clone, Debug, PartialEq, Eq)]
pub enum Summary {
    Auto,
    Concise,
    Detailed,
}

impl Summary {
    /// The name of this variant on the wire.
    pub open spec fn name(self) -> Seq<char> {
        match self {
            Summary::Auto => "auto"@,
            Summary::Concise => "concise"@,
            Summary::Detailed => "detailed"@,
        }
    }

    /// The name of this variant on the wire.
    pub fn as_str(&self) -> (r: &'static str)
        ensures
            r@ == self.name(),
    {
        match self {
            Summary::Auto => "auto",
            Summary::Concise => "concise",
            Summary::Detailed => "detailed",
        }
    }

    /// The variant that `name` names on the wire.
    pub open spec fn named(name: Seq<char>) -> Option<Summary> {
        if name == "auto"@ {
            Some(Summary::Auto)
        } else if name == "concise"@ {
            Some(Summary::Concise)
        } else if name == "detailed"@ {
            Some(Summary::Detailed)
        } else {
            None
        }
    }

    /// The variant that `name` names on the wire; none for any other
    /// text.
    pub fn from_name(name: &str) -> (r: Option<Summary>)
        ensures
            r == Summary::named(name@),
    {
        let text = to_chars(name);
        if same(&text, &to_chars("auto")) {
            Some(Summary::Auto)
        } else if same(&text, &to_chars("concise")) {
            Some(Summary::Concise)
        } else if same(&text, &to_chars("detailed")) {
            Some(Summary::Detailed)
        } else {
            None
        }
    }

    /// Each variant is the one that its name on the wire names: no two
    /// variants share a name.
    pub proof fn law_name_names_the_variant(value: Summary)
        ensures
            Summary::named(value.name()) == Some(value),
    {
        reveal_strlit("auto");
        reveal_strlit("concise");
        reveal_strlit("detailed");
        assert("auto"@.len() != "concise"@.len());
        assert("auto"@.len() != "detailed"@.len());
        assert("concise"@.len() != "detailed"@.len());
    }
}

/// The text options of a response.
#[derive(Clone, Debug, PartialEq, Eq)]
pub struct Text {
    pub format: Option<ResponseTextFormat>,
}

/// A response text format.
#[derive(Clone, Debug, PartialEq, Eq)]
pub enum ResponseTextFormat {
    Text,
    JsonSchema {
        name: String,
        schema: JsonValue,
        description: Option<String>,
        strict: Option<bool>,
    },
    JsonObject,
}

/// A tool choice.
#[derive(Clone, Debug, PartialEq, Eq)]
#[allow(inconsistent_fields)]
pub enum ToolChoice {
    Mode(ToolChoiceMode),
    HostedTool { kind: HostedTool },
    FunctionTool { name: String, kind: ConstFunction },
}

/// A tool choice mode; each variant has a name on the wire.
#[derive(Clone, Debug, PartialEq, Eq)]
pub enum ToolChoiceMode {
    Never,
    Auto,
    Required,
}

impl ToolChoiceMode {
    /// The name of this variant on the wire.
    pub open spec fn name(self) -> Seq<char> {
        match self {
            ToolChoiceMode::Never => "none"@,
            ToolChoiceMode::Auto => "auto"@,
            ToolChoiceMode::Required => "required"@,
        }
    }

    /// The name of this variant on the wire.
    pub fn as_str(&self) -> (r: &'static str)
        ensures
            r@ == self.name(),
    {
        match self {
            ToolChoiceMode::Never => "none",
            ToolChoiceMode::Auto => "auto",
            ToolChoiceMode::Required => "required",
        }
    }

    /// The variant that `name` names on the wire.
    pub open spec fn named(name: Seq<char>) -> Option<ToolChoiceMode> {
        if name == "none"@ {
            Some(ToolChoiceMode::Never)
        } else if name == "auto"@ {
            Some(ToolChoiceMode::Auto)
        } else if name == "required"@ {
            Some(ToolChoiceMode::Required)
        } else {
            None
        }
    }

    /// The variant that `name` names on the wire; none for any other
    /// text.
    pub fn from_name(name: &str) -> (r: Option<ToolChoiceMode>)
        ensures
            r == ToolChoiceMode::named(name@),
    {
        let text = to_chars(name);
        if same(&text, &to_chars("none")) {
            Some(ToolChoiceMode::Never)
        } else if same(&text, &to_chars("auto")) {
            Some(ToolChoiceMode::Auto)
        } else if same(&text, &to_chars("required")) {
            Some(ToolChoiceMode::Required)
        } else {
            None
        }
    }

    /// Each variant is the one that its name on the wire names: no two
    /// variants share a name.
    pub proof fn law_name_names_the_variant(value: ToolChoiceMode)
        ensures
            ToolChoiceMode::named(value.name()) == Some(value),
    {
        reveal_strlit("none");
        reveal_strlit("auto");
        reveal_strlit("required");
        assert("none"@[0] != "auto"@[0]);
        assert("none"@.len() != "required"@.len());
        assert("auto"@.len() != "required"@.len());
    }
}

/// A hosted tool; each variant has a name on the wire.
#[derive(Clone, Debug, PartialEq, Eq)]
pub enum HostedTool {
    FileSearch,
    WebSearchPreview,
    WebSearchPreview20250311,
    ComputerUsePreview,
    CodeInterpreter,
    Mcp,
    ImageGeneration,
}

impl HostedTool {
    /// The name of this variant on the wire.
    pub open spec fn name(self) -> Seq<char> {
        match self {
            HostedTool::FileSearch => "file_search"@,
            HostedTool::WebSearchPreview => "web_search_preview"@,
            HostedTool::WebSearchPreview20250311 => "web_search_preview_2025_03_11"@,
            HostedTool::ComputerUsePreview => "computer_use_preview"@,
            HostedTool::CodeInterpreter => "code_interpreter"@,
            HostedTool::Mcp => "mcp"@,
            HostedTool::ImageGeneration => "image_generation"@,
        }
    }

    /// The name of this variant on the wire.
    pub fn as_str(&self) -> (r: &'static str)
        ensures
            r@ == self.name(),
    {
        match self {
            HostedTool::FileSearch => "file_search",
            HostedTool::WebSearchPreview => "web_search_preview",
            HostedTool::WebSearchPreview20250311 => "web_search_preview_2025_03_11",
            HostedTool::ComputerUsePreview => "computer_use_preview",
            HostedTool::CodeInterpreter => "code_interpreter",
            HostedTool::Mcp => "mcp",
            HostedTool::ImageGeneration => "image_generation",
        }
    }

    /// The variant that `name` names on the wire.
    pub open spec fn named(name: Seq<char>) -> Option<HostedTool> {
        if name == "file_search"@ {
            Some(HostedTool::FileSearch)
        } else if name == "web_search_preview"@ {
            Some(HostedTool::WebSearchPreview)
        } else if name == "web_search_preview_2025_03_11"@ {
            Some(HostedTool::WebSearchPreview20250311)
        } else if name == "computer_use_preview"@ {
            Some(HostedTool::ComputerUsePreview)
        } else if name == "code_interpreter"@ {
            Some(HostedTool::CodeInterpreter)
        } else if name == "mcp"@ {
            Some(HostedTool::Mcp)
        } else if name == "image_generation"@ {
            Some(HostedTool::ImageGeneration)
        } else {
            None
        }
    }

    /// The variant that `name` names on the wire; none for any other
    /// text.
    pub fn from_name(name: &str) -> (r: Option<HostedTool>)
        ensures
            r == HostedTool::named(name@),
    {
        let text = to_chars(name);
        if same(&text, &to_chars("file_search")) {
            Some(HostedTool::FileSearch)
        } else if same(&text, &to_chars("web_search_preview")) {
            Some(HostedTool::WebSearchPreview)
        } else if same(&text, &to_chars("web_search_preview_2025_03_11")) {
            Some(HostedTool::WebSearchPreview20250311)
        } else if same(&text, &to_chars("computer_use_preview")) {
            Some(HostedTool::ComputerUsePreview)
        } else if same(&text, &to_chars("code_interpreter")) {
            Some(HostedTool::CodeInterpreter)
        } else if same(&text, &to_chars("mcp")) {
            Some(HostedTool::Mcp)
        } else if same(&text, &to_chars("image_generation")) {
            Some(HostedTool::ImageGeneration)
        } else {
            None
        }
    }

    /// Each variant is the one that its name on the wire names: no two
    /// variants share a name.
    pub proof fn law_name_names_the_variant(value: HostedTool)
        ensures
            HostedTool::named(value.name()) == Some(value),
    {
        reveal_strlit("file_search");
        reveal_strlit("web_search_preview");
        reveal_strlit("web_search_preview_2025_03_11");
        reveal_strlit("computer_use_preview");
        reveal_strlit("code_interpreter");
        reveal_strlit("mcp");
        reveal_strlit("image_generation");
        assert("file_search"@.len() != "web_search_preview"@.len());
        assert("file_search"@.len() != "web_search_preview_2025_03_11"@.len());
        assert("file_search"@.len() != "computer_use_preview"@.len());
        assert("file_search"@.len() != "code_interpreter"@.len());
        assert("file_search"@.len() != "mcp"@.len());
        assert("file_search"@.len() != "image_generation"@.len());
        assert("web_search_preview"@.len() != "web_search_preview_2025_03_11"@.len());
        assert("web_search_preview"@.len() != "computer_use_preview"@.len());
        assert("web_search_preview"@.len() != "code_interpreter"@.len());
        assert("web_search_preview"@.len() != "mcp"@.len());
        assert("web_search_preview"@.len() != "image_generation"@.len());
        assert("web_search_preview_2025_03_11"@.len() != "computer_use_preview"@.len());
        assert("web_search_preview_2025_03_11"@.len() != "code_interpreter"@.len());
        assert("web_search_preview_2025_03_11"@.len() != "mcp"@.len());
        assert("web_search_preview_2025_03_11"@.len() != "image_generation"@.len());
        assert("computer_use_preview"@.len() != "code_interpreter"@.len());
        assert("computer_use_preview"@.len() != "mcp"@.len());
        assert("computer_use_preview"@.len() != "image_generation"@.len());
        assert("code_interpreter"@.len() != "mcp"@.len());
        assert("code_interpreter"@[0] != "image_generation"@[0]);
        assert("mcp"@.len() != "image_generation"@.len());
    }
}

/// A search context size; each variant has a name on the wire.
#[derive(Clone, Debug, PartialEq, Eq)]
pub enum SearchContextSize {
    Low,
    Medium,
    High,
}

impl SearchContextSize {
    /// The name of this variant on the wire.
    pub open spec fn name(self) -> Seq<char> {
        match self {
            SearchContextSize::Low => "low"@,
            SearchContextSize::Medium => "medium"@,
            SearchContextSize::High => "high"@,
        }
    }

    /// The name of this variant on the wire.
    pub fn as_str(&self) -> (r: &'static str)
        ensures
            r@ == self.name(),
    {
        match self {
            SearchContextSize::Low => "low",
            SearchContextSize::Medium => "medium",
            SearchContextSize::High => "high",
        }
    }

    /// The variant that `name` names on the wire.
    pub open spec fn named(name: Seq<char>) -> Option<SearchContextSize> {
        if name == "low"@ {
            Some(SearchContextSize::Low)
        } else if name == "medium"@ {
            Some(SearchContextSize::Medium)
        } else if name == "high"@ {
            Some(SearchContextSize::High)
        } else {
            None
        }
    }

    /// The variant that `name` names on the wire; none for any other
    /// text.
    pub fn from_name(name: &str) -> (r: Option<SearchContextSize>)
        ensures
            r == SearchContextSize::named(name@),
    {
        let text = to_chars(name);
        if same(&text, &to_chars("low")) {
            Some(SearchContextSize::Low)
        } else if same(&text, &to_chars("medium")) {
            Some(SearchContextSize::Medium)
        } else if same(&text, &to_chars("high")) {
            Some(SearchContextSize::High)
        } else {
            None
        }
    }

    /// Each variant is the one that its name on the wire names: no two
    /// variants share a name.
    pub proof fn law_name_names_the_variant(value: SearchContextSize)
        ensures
            SearchContextSize::named(value.name()) == Some(value),
    {
        reveal_strlit("low");
        reveal_strlit("medium");
        reveal_strlit("high");
        assert("low"@.len() != "medium"@.len());
        assert("low"@.len() != "high"@.len());
        assert("medium"@.len() != "high"@.len());
    }
}

/// A location.
#[derive(Clone, Debug, PartialEq, Eq)]
pub struct Location {
    pub kind: ConstApproximate,
    pub city: Option<String>,
    pub country: Option<String>,
    pub region: Option<String>,
    pub timezone: Option<String>,
}

/// A member that always holds `approximate`.
#[derive(Clone, Debug, PartialEq, Eq)]
pub struct ConstApproximate;

impl Default for ConstApproximate {
    fn default() -> (r: ConstApproximate)
        ensures
            r == ConstApproximate,
    {
        ConstApproximate
    }
}

impl ConstApproximate {
    /// The text that the member holds.
    pub fn as_str(&self) -> (r: &'static str)
        ensures
            r@ == "approximate"@,
    {
        "approximate"
    }

    /// Whether `text` is what the member holds.
    pub fn accepts(text: &str) -> (r: bool)
        ensures
            r == (text@ == "approximate"@),
    {
        same(&to_chars(text), &to_chars("approximate"))
    }
}

/// An MCP filter.
#[derive(Clone, Debug, PartialEq, Eq)]
pub struct McpFilter {
    pub tool_names: Option<Vec<String>>,
}

/// An MCP approval filter.
#[derive(Clone, Debug, PartialEq, Eq)]
pub struct McpApprovalFilter {
    pub always: Option<McpFilter>,
    pub never: Option<McpFilter>,
}

/// An MCP approval setting; each variant has a name on the wire.
#[derive(Clone, Debug, PartialEq, Eq)]
pub enum McpApprovalSetting {
    Always,
    Never,
}

impl McpApprovalSetting {
    /// The name of this variant on the wire.
    pub open spec fn name(self) -> Seq<char> {
        match self {
            McpApprovalSetting::Always => "always"@,
            McpApprovalSetting::Never => "never"@,
        }
    }

    /// The name of this variant on the wire.
    pub fn as_str(&self) -> (r: &'static str)
        ensures
            r@ == self.name(),
    {
        match self {
            McpApprovalSetting::Always => "always",
            McpApprovalSetting::Never => "never",
        }
    }

    /// The variant that `name` names on the wire.
    pub open spec fn named(name: Seq<char>) -> Option<McpApprovalSetting> {
        if name == "always"@ {
            Some(McpApprovalSetting::Always)
        } else if name == "never"@ {
            Some(McpApprovalSetting::Never)
        } else {
            None
        }
    }

    /// The variant that `name` names on the wire; none for any other
    /// text.
    pub fn from_name(name: &str) -> (r: Option<McpApprovalSetting>)
        ensures
            r == McpApprovalSetting::named(name@),
    {
        let text = to_chars(name);
        if same(&text, &to_chars("always")) {
            Some(McpApprovalSetting::Always)
        } else if same(&text, &to_chars("never")) {
            Some(McpApprovalSetting::Never)
        } else {
            None
        }
    }

    /// Each variant is the one that its name on the wire names: no two
    /// variants share a name.
    pub proof fn law_name_names_the_variant(value: McpApprovalSetting)
        ensures
            McpApprovalSetting::named(value.name()) == Some(value),
    {
        reveal_strlit("always");
        reveal_strlit("never");
        assert("always"@.len() != "never"@.len());
    }
}

/// A code interpreter container.
#[derive(Clone, Debug, PartialEq, Eq)]
pub struct CodeInterpreterContainer {
    pub kind: ConstAuto,
    pub file_ids: Option<Vec<String>>,
}

/// A member that always holds `auto`.
#[derive(Clone, Debug, PartialEq, Eq)]
pub struct ConstAuto;

impl Default for ConstAuto {
    fn default() -> (r: ConstAuto)
        ensures
            r == ConstAuto,
    {
        ConstAuto
    }
}

impl ConstAuto {
    /// The text that the member holds.
    pub fn as_str(&self) -> (r: &'static str)
        ensures
            r@ == "auto"@,
    {
        "auto"
    }

    /// Whether `text` is what the member holds.
    pub fn accepts(text: &str) -> (r: bool)
        ensures
            r == (text@ == "auto"@),
    {
        same(&to_chars(text), &to_chars("auto"))
    }
}

/// An image background; each variant has a name on the wire.
#[derive(Clone, Debug, PartialEq, Eq)]
pub enum ImageBackground {
    Transparent,
    Opaque,
    Auto,
}

impl ImageBackground {
    /// The name of this variant on the wire.
    pub open spec fn name(self) -> Seq<char> {
        match self {
            ImageBackground::Transparent => "transparent"@,
            ImageBackground::Opaque => "opaque"@,
            ImageBackground::Auto => "auto"@,
        }
    }

    /// The name of this variant on the wire.
    pub fn as_str(&self) -> (r: &'static str)
        ensures
            r@ == self.name(),
    {
        match self {
            ImageBackground::Transparent => "transparent",
            ImageBackground::Opaque => "opaque",
            ImageBackground::Auto => "auto",
        }
    }

    /// The variant that `name` names on the wire.
    pub open spec fn named(name: Seq<char>) -> Option<ImageBackground> {
        if name == "transparent"@ {
            Some(ImageBackground::Transparent)
        } else if name == "opaque"@ {
            Some(ImageBackground::Opaque)
        } else if name == "auto"@ {
            Some(ImageBackground::Auto)
        } else {
            None
        }
    }

    /// The variant that `name` names on the wire; none for any other
    /// text.
    pub fn from_name(name: &str) -> (r: Option<ImageBackground>)
        ensures
            r == ImageBackground::named(name@),
    {
        let text = to_chars(name);
        if same(&text, &to_chars("transparent")) {
            Some(ImageBackground::Transparent)
        } else if same(&text, &to_chars("opaque")) {
            Some(ImageBackground::Opaque)
        } else if same(&text, &to_chars("auto")) {
            Some(ImageBackground::Auto)
        } else {
            None
        }
    }

    /// Each variant is the one that its name on the wire names: no two
    /// variants share a name.
    pub proof fn law_name_names_the_variant(value: ImageBackground)
        ensures
            ImageBackground::named(value.name()) == Some(value),
    {
        reveal_strlit("transparent");
        reveal_strlit("opaque");
        reveal_strlit("auto");
        assert("transparent"@.len() != "opaque"@.len());
        assert("transparent"@.len() != "auto"@.len());
        assert("opaque"@.len() != "auto"@.len());
    }
}

/// An input image mask.
#[derive(Clone, Debug, PartialEq, Eq)]
pub struct InputImageMask {
    pub file_id: Option<String>,
    pub image_url: Option<String>,
}

/// An image format; each variant has a name on the wire.
#[derive(Clone, Debug, PartialEq, Eq)]
pub enum ImageFormat {
    Png,
    Webp,
    Jpeg,
}

impl ImageFormat {
    /// The name of this variant on the wire.
    pub open spec fn name(self) -> Seq<char> {
        match self {
            ImageFormat::Png => "png"@,
            ImageFormat::Webp => "webp"@,
            ImageFormat::Jpeg => "jpeg"@,
        }
    }

    /// The name of this variant on the wire.
    pub fn as_str(&self) -> (r: &'static str)
        ensures
            r@ == self.name(),
    {
        match self {
            ImageFormat::Png => "png",
            ImageFormat::Webp => "webp",
            ImageFormat::Jpeg => "jpeg",
        }
    }

    /// The variant that `name` names on the wire.
    pub open spec fn named(name: Seq<char>) -> Option<ImageFormat> {
        if name == "png"@ {
            Some(ImageFormat::Png)
        } else if name == "webp"@ {
            Some(ImageFormat::Webp)
        } else if name == "jpeg"@ {
            Some(ImageFormat::Jpeg)
        } else {
            None
        }
    }

    /// The variant that `name` names on the wire; none for any other
    /// text.
    pub fn from_name(name: &str) -> (r: Option<ImageFormat>)
        ensures
            r == ImageFormat::named(name@),
    {
        let text = to_chars(name);
        if same(&text, &to_chars("png")) {
            Some(ImageFormat::Png)
        } else if same(&text, &to_chars("webp")) {
            Some(ImageFormat::Webp)
        } else if same(&text, &to_chars("jpeg")) {
            Some(ImageFormat::Jpeg)
        } else {
            None
        }
    }

    /// Each variant is the one that its name on the wire names: no two
    /// variants share a name.
    pub proof fn law_name_names_the_variant(value: ImageFormat)
        ensures
            ImageFormat::named(value.name()) == Some(value),
    {
        reveal_strlit("png");
        reveal_strlit("webp");
        reveal_strlit("jpeg");
        assert("png"@.len() != "webp"@.len());
        assert("png"@.len() != "jpeg"@.len());
        assert("webp"@[0] != "jpeg"@[0]);
    }
}

/// An image quality; each variant has a name on the wire.
#[derive(Clone, Debug, PartialEq, Eq)]
pub enum ImageQuality {
    Low,
    Medium,
    High,
    Auto,
}

impl ImageQuality {
    /// The name of this variant on the wire.
    pub open spec fn name(self) -> Seq<char> {
        match self {
            ImageQuality::Low => "low"@,
            ImageQuality::Medium => "medium"@,
            ImageQuality::High => "high"@,
            ImageQuality::Auto => "auto"@,
        }
    }

    /// The name of this variant on the wire.
    pub fn as_str(&self) -> (r: &'static str)
        ensures
            r@ == self.name(),
    {
        match self {
            ImageQuality::Low => "low",
            ImageQuality::Medium => "medium",
            ImageQuality::High => "high",
            ImageQuality::Auto => "auto",
        }
    }

    /// The variant that `name` names on the wire.
    pub open spec fn named(name: Seq<char>) -> Option<ImageQuality> {
        if name == "low"@ {
            Some(ImageQuality::Low)
        } else if name == "medium"@ {
            Some(ImageQuality::Medium)
        } else if name == "high"@ {
            Some(ImageQuality::High)
        } else if name == "auto"@ {
            Some(ImageQuality::Auto)
        } else {
            None
        }
    }

    /// The variant that `name` names on the wire; none for any other
    /// text.
    pub fn from_name(name: &str) -> (r: Option<ImageQuality>)
        ensures
            r == ImageQuality::named(name@),
    {
        let text = to_chars(name);
        if same(&text, &to_chars("low")) {
            Some(ImageQuality::Low)
        } else if same(&text, &to_chars("medium")) {
            Some(ImageQuality::Medium)
        } else if same(&text, &to_chars("high")) {
            Some(ImageQuality::High)
        } else if same(&text, &to_chars("auto")) {
            Some(ImageQuality::Auto)
        } else {
            None
        }
    }

    /// Each variant is the one that its name on the wire names: no two
    /// variants share a name.
    pub proof fn law_name_names_the_variant(value: ImageQuality)
        ensures
            ImageQuality::named(value.name()) == Some(value),
    {
        reveal_strlit("low");
        reveal_strlit("medium");
        reveal_strlit("high");
        reveal_strlit("auto");
        assert("low"@.len() != "medium"@.len());
        assert("low"@.len() != "high"@.len());
        assert("low"@.len() != "auto"@.len());
        assert("medium"@.len() != "high"@.len());
        assert("medium"@.len() != "auto"@.len());
        assert("high"@[0] != "auto"@[0]);
    }
}

/// An image size; each variant has a name on the wire.
#[derive(Clone, Debug, PartialEq, Eq)]
pub enum ImageSize {
    W1024H1024,
    W1024H1536,
    W1536H1024,
    Auto,
}

impl ImageSize {
    /// The name of this variant on the wire.
    pub open spec fn name(self) -> Seq<char> {
        match self {
            ImageSize::W1024H1024 => "1024x1024"@,
            ImageSize::W1024H1536 => "1024x1536"@,
            ImageSize::W1536H1024 => "1536x1024"@,
            ImageSize::Auto => "auto"@,
        }
    }

    /// The name of this variant on the wire.
    pub fn as_str(&self) -> (r: &'static str)
        ensures
            r@ == self.name(),
    {
        match self {
            ImageSize::W1024H1024 => "1024x1024",
            ImageSize::W1024H1536 => "1024x1536",
            ImageSize::W1536H1024 => "1536x1024",
            ImageSize::Auto => "auto",
        }
    }

    /// The variant that `name` names on the wire.
    pub open spec fn named(name: Seq<char>) -> Option<ImageSize> {
        if name == "1024x1024"@ {
            Some(ImageSize::W1024H1024)
        } else if name == "1024x1536"@ {
            Some(ImageSize::W1024H1536)
        } else if name == "1536x1024"@ {
            Some(ImageSize::W1536H1024)
        } else if name == "auto"@ {
            Some(ImageSize::Auto)
        } else {
            None
        }
    }

    /// The variant that `name` names on the wire; none for any other
    /// text.
    pub fn from_name(name: &str) -> (r: Option<ImageSize>)
        ensures
            r == ImageSize::named(name@),
    {
        let text = to_chars(name);
        if same(&text, &to_chars("1024x1024")) {
            Some(ImageSize::W1024H1024)
        } else if same(&text, &to_chars("1024x1536")) {
            Some(ImageSize::W1024H1536)
        } else if same(&text, &to_chars("1536x1024")) {
            Some(ImageSize::W1536H1024)
        } else if same(&text, &to_chars("auto")) {
            Some(ImageSize::Auto)
        } else {
            None
        }
    }

    /// Each variant is the one that its name on the wire names: no two
    /// variants share a name.
    pub proof fn law_name_names_the_variant(value: ImageSize)
        ensures
            ImageSize::named(value.name()) == Some(value),
    {
        reveal_strlit("1024x1024");
        reveal_strlit("1024x1536");
        reveal_strlit("1536x1024");
        reveal_strlit("auto");
        assert("1024x1024"@[6] != "1024x1536"@[6]);
        assert("1024x1024"@[1] != "1536x1024"@[1]);
        assert("1024x1024"@.len() != "auto"@.len());
        assert("1024x1536"@[1] != "1536x1024"@[1]);
        assert("1024x1536"@.len() != "auto"@.len());
        assert("1536x1024"@.len() != "auto"@.len());
    }
}

/// How a response is truncated; each variant has a name on the wire.
#[derive(Clone, Debug, PartialEq, Eq)]
pub enum Truncation {
    Auto,
    Disabled,
}

impl Truncation {
    /// The name of this variant on the wire.
    pub open spec fn name(self) -> Seq<char> {
        match self {
            Truncation::Auto => "auto"@,
            Truncation::Disabled => "disabled"@,
        }
    }

    /// The name of this variant on the wire.
    pub fn as_str(&self) -> (r: &'static str)
        ensures
            r@ == self.name(),
    {
        match self {
            Truncation::Auto => "auto",
            Truncation::Disabled => "disabled",
        }
    }

    /// The variant that `name` names on the wire.
    pub open spec fn named(name: Seq<char>) -> Option<Truncation> {
        if name == "auto"@ {
            Some(Truncation::Auto)
        } else if name == "disabled"@ {
            Some(Truncation::Disabled)
        } else {
            None
        }
    }

    /// The variant that `name` names on the wire; none for any other
    /// text.
    pub fn from_name(name: &str) -> (r: Option<Truncation>)
        ensures
            r == Truncation::named(name@),
    {
        let text = to_chars(name);
        if same(&text, &to_chars("auto")) {
            Some(Truncation::Auto)
        } else if same(&text, &to_chars("disabled")) {
            Some(Truncation::Disabled)
        } else {
            None
        }
    }

    /// Each variant is the one that its name on the wire names: no two
    /// variants share a name.
    pub proof fn law_name_names_the_variant(value: Truncation)
        ensures
            Truncation::named(value.name()) == Some(value),
    {
        reveal_strlit("auto");
        reveal_strlit("disabled");
        assert("auto"@.len() != "disabled"@.len());
    }
}

impl Status3 {
    /// Whether the item is in progress.
    pub fn in_progress(&self) -> (r: bool)
        ensures
            r == (self is InProgress),
    {
        match self {
            Status3::InProgress => true,
            _ => false,
        }
    }

    /// Whether the item is completed.
    pub fn completed(&self) -> (r: bool)
        ensures
            r == (self is Completed),
    {
        match self {
            Status3::Completed => true,
            _ => false,
        }
    }

    /// Whether the item is incomplete.
    pub fn incomplete(&self) -> (r: bool)
        ensures
            r == (self is Incomplete),
    {
        match self {
            Status3::Incomplete => true,
            _ => false,
        }
    }
}

} // verus!
