//! Types of the object that the responses endpoint returns.

use crate::text::{same, to_chars};
use vstd::prelude::*;

verus! {

/// A response error.
#[derive(Clone, Debug, PartialEq, Eq)]
pub struct ResponseError {
    pub code: String,
    pub message: String,
}

/// Incomplete details.
#[derive(Clone, Debug, PartialEq, Eq)]
pub struct IncompleteDetails {
    pub reason: String,
}

/// A response status; each variant has a name on the wire.
#[derive(Clone, Debug, PartialEq, Eq)]
pub enum ResponseStatus {
    Completed,
    Failed,
    InProgress,
    Canceled,
    Queued,
    Incomplete,
}

impl ResponseStatus {
    /// The name of this variant on the wire.
    pub open spec fn name(self) -> Seq<char> {
        match self {
            ResponseStatus::Completed => "completed"@,
            ResponseStatus::Failed => "failed"@,
            ResponseStatus::InProgress => "in_progress"@,
            ResponseStatus::Canceled => "canceled"@,
            ResponseStatus::Queued => "queued"@,
            ResponseStatus::Incomplete => "incomplete"@,
        }
    }

    /// The variant that `name` names on the wire.
    pub open spec fn named(name: Seq<char>) -> Option<ResponseStatus> {
        if name == "completed"@ {
            Some(ResponseStatus::Completed)
        } else if name == "failed"@ {
            Some(ResponseStatus::Failed)
        } else if name == "in_progress"@ {
            Some(ResponseStatus::InProgress)
        } else if name == "canceled"@ {
            Some(ResponseStatus::Canceled)
        } else if name == "queued"@ {
            Some(ResponseStatus::Queued)
        } else if name == "incomplete"@ {
            Some(ResponseStatus::Incomplete)
        } else {
            None
        }
    }

    /// The variant that `name` names on the wire; none for any other
    /// text.
    pub fn from_name(name: &str) -> (r: Option<ResponseStatus>)
        ensures
            r == ResponseStatus::named(name@),
    {
        let text = to_chars(name);
        if same(&text, &to_chars("completed")) {
            Some(ResponseStatus::Completed)
        } else if same(&text, &to_chars("failed")) {
            Some(ResponseStatus::Failed)
        } else if same(&text, &to_chars("in_progress")) {
            Some(ResponseStatus::InProgress)
        } else if same(&text, &to_chars("canceled")) {
            Some(ResponseStatus::Canceled)
        } else if same(&text, &to_chars("queued")) {
            Some(ResponseStatus::Queued)
        } else if same(&text, &to_chars("incomplete")) {
            Some(ResponseStatus::Incomplete)
        } else {
            None
        }
    }

    /// Each variant is the one that its name on the wire names: no two
    /// variants share a name.
    pub proof fn law_name_names_the_variant(value: ResponseStatus)
        ensures
            ResponseStatus::named(value.name()) == Some(value),
    {
        reveal_strlit("completed");
        reveal_strlit("failed");
        reveal_strlit("in_progress");
        reveal_strlit("canceled");
        reveal_strlit("queued");
        reveal_strlit("incomplete");
        assert("completed"@.len() != "failed"@.len());
        assert("completed"@.len() != "in_progress"@.len());
        assert("completed"@.len() != "canceled"@.len());
        assert("completed"@.len() != "queued"@.len());
        assert("completed"@.len() != "incomplete"@.len());
        assert("failed"@.len() != "in_progress"@.len());
        assert("failed"@.len() != "canceled"@.len());
        assert("failed"@[0] != "queued"@[0]);
        assert("failed"@.len() != "incomplete"@.len());
        assert("in_progress"@.len() != "canceled"@.len());
        assert("in_progress"@.len() != "queued"@.len());
        assert("in_progress"@.len() != "incomplete"@.len());
        assert("canceled"@.len() != "queued"@.len());
        assert("canceled"@.len() != "incomplete"@.len());
        assert("queued"@.len() != "incomplete"@.len());
    }
}

/// A response usage.
#[derive(Clone, Debug, PartialEq, Eq)]
pub struct ResponseUsage {
    pub input_tokens: u32,
    pub input_tokens_details: ResponseInputTokensDetails,
    pub output_tokens: u32,
    pub output_tokens_details: ResponseOutputTokensDetails,
    pub total_tokens: u32,
}

/// Response input tokens details.
#[derive(Clone, Debug, PartialEq, Eq)]
pub struct ResponseInputTokensDetails {
    pub cached_tokens: u32,
}

/// Response output tokens details.
#[derive(Clone, Debug, PartialEq, Eq)]
pub struct ResponseOutputTokensDetails {
    pub reasoning_tokens: u32,
}

} // verus!
