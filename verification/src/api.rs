//! Types of the remote API, and the handler that reads its events.

pub mod batch;
pub mod chat;
pub mod embedding;
pub mod file;
pub mod response;
pub mod types;

use crate::api::types::ApiErrorWrapper;
use crate::error::Error;
use std::marker::PhantomData;
use vstd::prelude::*;

verus! {

/// The handler of a stream whose payloads are JSON texts of events of the
/// type `T`.
pub struct ApiEventHandler<T>(PhantomData<T>);

impl<T> ApiEventHandler<T> {
    /// A handler.
    pub fn new() -> ApiEventHandler<T> {
        ApiEventHandler(PhantomData)
    }
}

impl<T> Default for ApiEventHandler<T> {
    fn default() -> ApiEventHandler<T> {
        ApiEventHandler::new()
    }
}

/// The error that lines belonging to no field stand for: the error of the
/// API where they were read as one, else the lines themselves.
pub fn unexpected_error(parsed: Option<ApiErrorWrapper>, unexpected: String) -> (r: Error)
    ensures
        r == match parsed {
            Some(wrapper) => Error::Api(wrapper.error),
            None => Error::Any(unexpected),
        },
{
    match parsed {
        Some(wrapper) => Error::Api(wrapper.error),
        None => Error::any(unexpected),
    }
}

} // verus!
