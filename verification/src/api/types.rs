//! Types that the endpoints of the remote API share.

use crate::text::{decimal, decimal_chars, from_chars, same, to_chars};
use vstd::prelude::*;

verus! {

/// The text by which `str` shows, in its `Debug` form, the characters `s`:
/// in double quotes, with escapes.
pub uninterp spec fn quoted(s: Seq<char>) -> Seq<char>;

/// Formats `s` with `{:?}`. The result is the text that std writes for a
/// `str` of these characters.
#[verifier::external_body]
fn format_quoted(s: &str) -> (r: String)
    ensures
        r@ == quoted(s@),
{
    format!("{:?}", s)
}

/// The `Debug` form of an optional text.
pub open spec fn optional_text_shown(value: Option<String>) -> Seq<char> {
    match value {
        Some(s) => "Some("@ + quoted(s@) + ")"@,
        None => "None"@,
    }
}

/// The `Debug` form of an optional number.
pub open spec fn optional_number_shown(value: Option<u32>) -> Seq<char> {
    match value {
        Some(n) => "Some("@ + decimal(n as nat) + ")"@,
        None => "None"@,
    }
}

fn show_optional_text(value: &Option<String>) -> (r: String)
    ensures
        r@ == optional_text_shown(*value),
{
    match value {
        Some(s) => {
            let mut r = String::from_str("Some(");
            let inner = format_quoted(s.as_str());
            r.append(inner.as_str());
            r.append(")");
            r
        },
        None => String::from_str("None"),
    }
}

fn show_optional_number(value: &Option<u32>) -> (r: String)
    ensures
        r@ == optional_number_shown(*value),
{
    match value {
        Some(n) => {
            let mut r = String::from_str("Some(");
            let inner = from_chars(&decimal_chars(*n as u128));
            r.append(inner.as_str());
            r.append(")");
            r
        },
        None => String::from_str("None"),
    }
}

/// Either the data that a call was made for, or the error that the API
/// returned in its place.
#[derive(Clone, Debug, PartialEq, Eq)]
pub enum ApiResult<T> {
    /// The data.
    Success(T),
    /// The error, in its wrapper.
    Failure(ApiErrorWrapper),
}

impl<T> ApiResult<T> {
    /// This result as a `Result`.
    pub fn as_result(self) -> (r: Result<T, ApiError>)
        ensures
            r == match self {
                ApiResult::Success(t) => Ok::<T, ApiError>(t),
                ApiResult::Failure(e) => Err::<T, ApiError>(e.error),
            },
    {
        match self {
            ApiResult::Success(t) => Ok(t),
            ApiResult::Failure(e) => Err(e.error),
        }
    }
}

/// A value of one of two types.
#[derive(Clone, Debug, PartialEq, Eq)]
pub enum Either<A, B> {
    /// Of the first type.
    A(A),
    /// Of the second type.
    B(B),
}

impl<A: Default, B> Default for Either<A, B> {
    /// The default of the first type.
    fn default() -> (r: Either<A, B>)
        ensures
            r is A,
    {
        Either::A(A::default())
    }
}

/// The object in which the API returns an error.
#[derive(Clone, Debug, PartialEq, Eq)]
pub struct ApiErrorWrapper {
    /// The error.
    pub error: ApiError,
}

/// An error that the API returned.
#[derive(Clone, Debug, PartialEq, Eq)]
pub struct ApiError {
    /// The kind of error; on the wire this is the member `type`.
    pub kind: Option<String>,
    /// What all errors hold.
    pub base: ErrorBase,
}

impl ApiError {
    /// The message of this error: the error written out field by field.
    pub open spec fn message_text(self) -> Seq<char> {
        "ApiError { type: "@ + optional_text_shown(self.kind) + ", base: ErrorBase { message: "@
            + quoted(self.base.message@) + ", code: "@ + optional_number_shown(self.base.code)
            + ", param: "@ + optional_text_shown(self.base.param) + " } }"@
    }

    /// The message of this error.
    pub fn message(&self) -> (r: String)
        ensures
            r@ == self.message_text(),
    {
        let mut r = String::from_str("ApiError { type: ");
        let kind = show_optional_text(&self.kind);
        r.append(kind.as_str());
        r.append(", base: ErrorBase { message: ");
        let message = format_quoted(self.base.message.as_str());
        r.append(message.as_str());
        r.append(", code: ");
        let code = show_optional_number(&self.base.code);
        r.append(code.as_str());
        r.append(", param: ");
        let param = show_optional_text(&self.base.param);
        r.append(param.as_str());
        r.append(" } }");
        r
    }
}

/// What every error of the API holds.
#[derive(Clone, Debug, PartialEq, Eq)]
pub struct ErrorBase {
    /// The error in words.
    pub message: String,
    /// The number of the error.
    pub code: Option<u32>,
    /// The parameter at fault.
    pub param: Option<String>,
}

/// A member that always holds `function`.
#[derive(Clone, Debug, PartialEq, Eq)]
pub struct ConstFunction;

impl Default for ConstFunction {
    fn default() -> (r: ConstFunction)
        ensures
            r == ConstFunction,
    {
        ConstFunction
    }
}

impl ConstFunction {
    /// The text that the member holds.
    pub fn as_str(&self) -> (r: &'static str)
        ensures
            r@ == "function"@,
    {
        "function"
    }

    /// Whether `text` is what the member holds.
    pub fn accepts(text: &str) -> (r: bool)
        ensures
            r == (text@ == "function"@),
    {
        same(&to_chars(text), &to_chars("function"))
    }
}

/// A role; each variant has a name on the wire.
#[derive(Clone, Debug, PartialEq, Eq)]
pub enum Role {
    User,
    Assistant,
    System,
    Developer,
}

impl Role {
    /// The name of this variant on the wire.
    pub open spec fn name(self) -> Seq<char> {
        match self {
            Role::User => "user"@,
            Role::Assistant => "assistant"@,
            Role::System => "system"@,
            Role::Developer => "developer"@,
        }
    }

    /// The name of this variant on the wire.
    pub fn as_str(&self) -> (r: &'static str)
        ensures
            r@ == self.name(),
    {
        match self {
            Role::User => "user",
            Role::Assistant => "assistant",
            Role::System => "system",
            Role::Developer => "developer",
        }
    }

    /// The variant that `name` names on the wire.
    pub open spec fn named(name: Seq<char>) -> Option<Role> {
        if name == "user"@ {
            Some(Role::User)
        } else if name == "assistant"@ {
            Some(Role::Assistant)
        } else if name == "system"@ {
            Some(Role::System)
        } else if name == "developer"@ {
            Some(Role::Developer)
        } else {
            None
        }
    }

    /// The variant that `name` names on the wire; none for any other
    /// text.
    pub fn from_name(name: &str) -> (r: Option<Role>)
        ensures
            r == Role::named(name@),
    {
        let text = to_chars(name);
        if same(&text, &to_chars("user")) {
            Some(Role::User)
        } else if same(&text, &to_chars("assistant")) {
            Some(Role::Assistant)
        } else if same(&text, &to_chars("system")) {
            Some(Role::System)
        } else if same(&text, &to_chars("developer")) {
            Some(Role::Developer)
        } else {
            None
        }
    }

    /// Each variant is the one that its name on the wire names: no two
    /// variants share a name.
    pub proof fn law_name_names_the_variant(value: Role)
        ensures
            Role::named(value.name()) == Some(value),
    {
        reveal_strlit("user");
        reveal_strlit("assistant");
        reveal_strlit("system");
        reveal_strlit("developer");
        assert("user"@.len() != "assistant"@.len());
        assert("user"@.len() != "system"@.len());
        assert("user"@.len() != "developer"@.len());
        assert("assistant"@.len() != "system"@.len());
        assert("assistant"@[0] != "developer"@[0]);
        assert("system"@.len() != "developer"@.len());
    }
}

/// A reasoning effort; each variant has a name on the wire.
#[derive(Clone, Debug, PartialEq, Eq)]
pub enum ReasoningEffort {
    Low,
    Medium,
    High,
}

impl ReasoningEffort {
    /// The name of this variant on the wire.
    pub open spec fn name(self) -> Seq<char> {
        match self {
            ReasoningEffort::Low => "low"@,
            ReasoningEffort::Medium => "medium"@,
            ReasoningEffort::High => "high"@,
        }
    }

    /// The name of this variant on the wire.
    pub fn as_str(&self) -> (r: &'static str)
        ensures
            r@ == self.name(),
    {
        match self {
            ReasoningEffort::Low => "low",
            ReasoningEffort::Medium => "medium",
            ReasoningEffort::High => "high",
        }
    }

    /// The variant that `name` names on the wire.
    pub open spec fn named(name: Seq<char>) -> Option<ReasoningEffort> {
        if name == "low"@ {
            Some(ReasoningEffort::Low)
        } else if name == "medium"@ {
            Some(ReasoningEffort::Medium)
        } else if name == "high"@ {
            Some(ReasoningEffort::High)
        } else {
            None
        }
    }

    /// The variant that `name` names on the wire; none for any other
    /// text.
    pub fn from_name(name: &str) -> (r: Option<ReasoningEffort>)
        ensures
            r == ReasoningEffort::named(name@),
    {
        let text = to_chars(name);
        if same(&text, &to_chars("low")) {
            Some(ReasoningEffort::Low)
        } else if same(&text, &to_chars("medium")) {
            Some(ReasoningEffort::Medium)
        } else if same(&text, &to_chars("high")) {
            Some(ReasoningEffort::High)
        } else {
            None
        }
    }

    /// Each variant is the one that its name on the wire names: no two
    /// variants share a name.
    pub proof fn law_name_names_the_variant(value: ReasoningEffort)
        ensures
            ReasoningEffort::named(value.name()) == Some(value),
    {
        reveal_strlit("low");
        reveal_strlit("medium");
        reveal_strlit("high");
        assert("low"@.len() != "medium"@.len());
        assert("low"@.len() != "high"@.len());
        assert("medium"@.len() != "high"@.len());
    }
}

/// A service tier; each variant has a name on the wire.
#[derive(Clone, Debug, PartialEq, Eq)]
pub enum ServiceTier {
    Auto,
    Default,
    Flex,
}

impl ServiceTier {
    /// The name of this variant on the wire.
    pub open spec fn name(self) -> Seq<char> {
        match self {
            ServiceTier::Auto => "auto"@,
            ServiceTier::Default => "default"@,
            ServiceTier::Flex => "flex"@,
        }
    }

    /// The name of this variant on the wire.
    pub fn as_str(&self) -> (r: &'static str)
        ensures
            r@ == self.name(),
    {
        match self {
            ServiceTier::Auto => "auto",
            ServiceTier::Default => "default",
            ServiceTier::Flex => "flex",
        }
    }

    /// The variant that `name` names on the wire.
    pub open spec fn named(name: Seq<char>) -> Option<ServiceTier> {
        if name == "auto"@ {
            Some(ServiceTier::Auto)
        } else if name == "default"@ {
            Some(ServiceTier::Default)
        } else if name == "flex"@ {
            Some(ServiceTier::Flex)
        } else {
            None
        }
    }

    /// The variant that `name` names on the wire; none for any other
    /// text.
    pub fn from_name(name: &str) -> (r: Option<ServiceTier>)
        ensures
            r == ServiceTier::named(name@),
    {
        let text = to_chars(name);
        if same(&text, &to_chars("auto")) {
            Some(ServiceTier::Auto)
        } else if same(&text, &to_chars("default")) {
            Some(ServiceTier::Default)
        } else if same(&text, &to_chars("flex")) {
            Some(ServiceTier::Flex)
        } else {
            None
        }
    }

    /// Each variant is the one that its name on the wire names: no two
    /// variants share a name.
    pub proof fn law_name_names_the_variant(value: ServiceTier)
        ensures
            ServiceTier::named(value.name()) == Some(value),
    {
        reveal_strlit("auto");
        reveal_strlit("default");
        reveal_strlit("flex");
        assert("auto"@.len() != "default"@.len());
        assert("auto"@[0] != "flex"@[0]);
        assert("default"@.len() != "flex"@.len());
    }
}

/// An image detail; each variant has a name on the wire.
#[derive(Clone, Debug, PartialEq, Eq)]
pub enum ImageDetail {
    High,
    Low,
    Auto,
}

impl Default for ImageDetail {
    fn default() -> (r: ImageDetail)
        ensures
            r == ImageDetail::Auto,
    {
        ImageDetail::Auto
    }
}

impl ImageDetail {
    /// The name of this variant on the wire.
    pub open spec fn name(self) -> Seq<char> {
        match self {
            ImageDetail::High => "high"@,
            ImageDetail::Low => "low"@,
            ImageDetail::Auto => "auto"@,
        }
    }

    /// The name of this variant on the wire.
    pub fn as_str(&self) -> (r: &'static str)
        ensures
            r@ == self.name(),
    {
        match self {
            ImageDetail::High => "high",
            ImageDetail::Low => "low",
            ImageDetail::Auto => "auto",
        }
    }
}

/// A purpose; each variant has a name on the wire.
#[derive(Clone, Debug, PartialEq, Eq)]
pub enum Purpose {
    Assistants,
    Batch,
    FineTune,
    Vision,
    UserData,
    Evals,
}

impl Purpose {
    /// The name of this variant on the wire.
    pub open spec fn name(self) -> Seq<char> {
        match self {
            Purpose::Assistants => "assistants"@,
            Purpose::Batch => "batch"@,
            Purpose::FineTune => "fine-tune"@,
            Purpose::Vision => "vision"@,
            Purpose::UserData => "user_data"@,
            Purpose::Evals => "evals"@,
        }
    }

    /// The name of this variant on the wire.
    pub fn as_str(&self) -> (r: &'static str)
        ensures
            r@ == self.name(),
    {
        match self {
            Purpose::Assistants => "assistants",
            Purpose::Batch => "batch",
            Purpose::FineTune => "fine-tune",
            Purpose::Vision => "vision",
            Purpose::UserData => "user_data",
            Purpose::Evals => "evals",
        }
    }
}

} // verus!
