//! Types of the responses endpoint.

pub mod create;
pub mod event;
pub mod object;
pub mod types;
