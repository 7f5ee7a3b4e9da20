//! Types of the batches endpoint.

use crate::api::types::ErrorBase;
use crate::json::JsonValue;
use crate::text::{same, to_chars};
use vstd::prelude::*;

verus! {

/// A batch request.
#[derive(Clone, Debug, PartialEq, Eq)]
pub struct BatchRequest {
    pub completion_window: Const24H,
    pub endpoint: Endpoint,
    pub input_file_id: String,
    pub metadata: Option<Vec<(String, JsonValue)>>,
}

/// A member that always holds `24h`.
#[derive(Clone, Debug, PartialEq, Eq)]
pub struct Const24H;

impl Default for Const24H {
    fn default() -> (r: Const24H)
        ensures
            r == Const24H,
    {
        Const24H
    }
}

impl Const24H {
    /// The text that the member holds.
    pub fn as_str(&self) -> (r: &'static str)
        ensures
            r@ == "24h"@,
    {
        "24h"
    }

    /// Whether `text` is what the member holds.
    pub fn accepts(text: &str) -> (r: bool)
        ensures
            r == (text@ == "24h"@),
    {
        same(&to_chars(text), &to_chars("24h"))
    }
}

/// An endpoint; each variant has a name on the wire.
#[derive(Clone, Debug, PartialEq, Eq)]
pub enum Endpoint {
    Response,
    ChatCompletion,
    Embeddings,
    Completions,
}

impl Default for Endpoint {
    fn default() -> (r: Endpoint)
        ensures
            r == Endpoint::Response,
    {
        Endpoint::Response
    }
}

impl Endpoint {
    /// The name of this variant on the wire.
    pub open spec fn name(self) -> Seq<char> {
        match self {
            Endpoint::Response => "/v1/response"@,
            Endpoint::ChatCompletion => "/v1/chat/completions"@,
            Endpoint::Embeddings => "/v1/embeddings"@,
            Endpoint::Completions => "/v1/completions"@,
        }
    }

    /// The name of this variant on the wire.
    pub fn as_str(&self) -> (r: &'static str)
        ensures
            r@ == self.name(),
    {
        match self {
            Endpoint::Response => "/v1/response",
            Endpoint::ChatCompletion => "/v1/chat/completions",
            Endpoint::Embeddings => "/v1/embeddings",
            Endpoint::Completions => "/v1/completions",
        }
    }

    /// The variant that `name` names on the wire.
    pub open spec fn named(name: Seq<char>) -> Option<Endpoint> {
        if name == "/v1/response"@ {
            Some(Endpoint::Response)
        } else if name == "/v1/chat/completions"@ {
            Some(Endpoint::ChatCompletion)
        } else if name == "/v1/embeddings"@ {
            Some(Endpoint::Embeddings)
        } else if name == "/v1/completions"@ {
            Some(Endpoint::Completions)
        } else {
            None
        }
    }

    /// The variant that `name` names on the wire; none for any other
    /// text.
    pub fn from_name(name: &str) -> (r: Option<Endpoint>)
        ensures
            r == Endpoint::named(name@),
    {
        let text = to_chars(name);
        if same(&text, &to_chars("/v1/response")) {
            Some(Endpoint::Response)
        } else if same(&text, &to_chars("/v1/chat/completions")) {
            Some(Endpoint::ChatCompletion)
        } else if same(&text, &to_chars("/v1/embeddings")) {
            Some(Endpoint::Embeddings)
        } else if same(&text, &to_chars("/v1/completions")) {
            Some(Endpoint::Completions)
        } else {
            None
        }
    }

    /// Each variant is the one that its name on the wire names: no two
    /// variants share a name.
    pub proof fn law_name_names_the_variant(value: Endpoint)
        ensures
            Endpoint::named(value.name()) == Some(value),
    {
        reveal_strlit("/v1/response");
        reveal_strlit("/v1/chat/completions");
        reveal_strlit("/v1/embeddings");
        reveal_strlit("/v1/completions");
        assert("/v1/response"@.len() != "/v1/chat/completions"@.len());
        assert("/v1/response"@.len() != "/v1/embeddings"@.len());
        assert("/v1/response"@.len() != "/v1/completions"@.len());
        assert("/v1/chat/completions"@.len() != "/v1/embeddings"@.len());
        assert("/v1/chat/completions"@.len() != "/v1/completions"@.len());
        assert("/v1/embeddings"@.len() != "/v1/completions"@.len());
    }
}

/// A batch input.
#[derive(Clone, Debug, PartialEq, Eq)]
pub struct BatchInput<T> {
    pub custom_id: String,
    pub method: ConstPost,
    pub url: Endpoint,
    pub body: T,
}

/// A member that always holds `POST`.
#[derive(Clone, Debug, PartialEq, Eq)]
pub struct ConstPost;

impl Default for ConstPost {
    fn default() -> (r: ConstPost)
        ensures
            r == ConstPost,
    {
        ConstPost
    }
}

impl ConstPost {
    /// The text that the member holds.
    pub fn as_str(&self) -> (r: &'static str)
        ensures
            r@ == "POST"@,
    {
        "POST"
    }

    /// Whether `text` is what the member holds.
    pub fn accepts(text: &str) -> (r: bool)
        ensures
            r == (text@ == "POST"@),
    {
        same(&to_chars(text), &to_chars("POST"))
    }
}

/// A batch object.
#[derive(Clone, Debug, PartialEq, Eq)]
pub struct BatchObject {
    pub cancelled_at: Option<u64>,
    pub cancelling_at: Option<u64>,
    pub completed_at: Option<u64>,
    pub created_at: u64,
    pub endpoint: Endpoint,
    pub error_file_id: Option<String>,
    pub errors: Option<BatchError>,
    pub expired_at: Option<u64>,
    pub expires_at: u64,
    pub failed_at: Option<u64>,
    pub finalizing_at: Option<u64>,
    pub id: String,
    pub in_progress_at: Option<u64>,
    pub input_file_id: String,
    pub metadata: Option<Vec<(String, JsonValue)>>,
    pub output_file_id: Option<String>,
    pub request_counts: RequestCounts,
    pub status: String,
}

/// A batch error.
#[derive(Clone, Debug, PartialEq, Eq)]
pub struct BatchError {
    pub data: Vec<ErrorData>,
}

/// An error data.
#[derive(Clone, Debug, PartialEq, Eq)]
pub struct ErrorData {
    pub base: ErrorBase,
    pub line: Option<String>,
}

/// How many requests of a batch were completed and failed.
#[derive(Clone, Debug, PartialEq, Eq)]
pub struct RequestCounts {
    pub completed: u32,
    pub failed: u32,
    pub total: u32,
}

impl Default for BatchRequest {
    /// A request for the responses endpoint, with no input file and no
    /// metadata yet.
    fn default() -> (r: BatchRequest)
        ensures
            r.endpoint == Endpoint::Response,
            r.input_file_id@.len() == 0,
            r.metadata is None,
    {
        BatchRequest {
            completion_window: Const24H,
            endpoint: Endpoint::Response,
            input_file_id: String::new(),
            metadata: None,
        }
    }
}

} // verus!
