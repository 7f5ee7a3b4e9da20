//! Types of the files endpoint.

use crate::text::{same, to_chars};
use vstd::prelude::*;

verus! {

/// A file object.
#[derive(Clone, Debug, PartialEq, Eq)]
pub struct FileObject {
    pub bytes: u32,
    pub created_at: u64,
    pub expires_at: Option<u64>,
    pub filename: String,
    pub id: String,
    pub object: String,
    pub purpose: String,
    pub status: StatusFallback,
}

/// The status of a file: completed, or whatever else the API says.
#[derive(Clone, Debug, PartialEq, Eq)]
pub enum StatusFallback {
    Completed,
    Fallback(String),
}

impl StatusFallback {
    /// The status as the API names it.
    pub open spec fn text(self) -> Seq<char> {
        match self {
            StatusFallback::Completed => "completed"@,
            StatusFallback::Fallback(status) => status@,
        }
    }

    /// The status that the API names `status`.
    pub open spec fn of(status: String) -> StatusFallback {
        if status@ == "completed"@ {
            StatusFallback::Completed
        } else {
            StatusFallback::Fallback(status)
        }
    }

    /// The status as the API names it.
    pub fn as_str(&self) -> (r: &str)
        ensures
            r@ == self.text(),
    {
        match self {
            StatusFallback::Completed => "completed",
            StatusFallback::Fallback(status) => status.as_str(),
        }
    }

    /// Whether the file is completed.
    pub fn completed(&self) -> (r: bool)
        ensures
            r == (self is Completed),
    {
        match self {
            StatusFallback::Completed => true,
            StatusFallback::Fallback(_) => false,
        }
    }

    /// The status that the API names `status`.
    pub fn from_wire(status: String) -> (r: StatusFallback)
        ensures
            r == StatusFallback::of(status),
    {
        if same(&to_chars(status.as_str()), &to_chars("completed")) {
            StatusFallback::Completed
        } else {
            StatusFallback::Fallback(status)
        }
    }
}

} // verus!
