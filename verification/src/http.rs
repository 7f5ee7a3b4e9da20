//! What a streaming request is configured with: the handler of its events,
//! the reconnection policy, the credentials and the parts of a multipart body.

use crate::error::Error;
use vstd::prelude::*;

verus! {

/// Turns what an event stream carries into events of one type.
pub trait EventHandler {
    /// The type of the events.
    type Event;

    /// Called with the name of each `event` field. An error ends the stream.
    fn handle_event(&self, event: &str) -> (r: Result<(), Error>)
        default_ensures
            r is Ok,
    {
        Ok(())
    }

    /// Called with each complete payload; returns the event it stands for.
    fn handle_data(&self, data: String) -> (r: Result<Self::Event, Error>)
    ;

    /// Called once, at the end of the input, with the lines that belong to no
    /// field, if there were any.
    fn handle_unexpected(&self, unexpected: String) -> (r: Result<(), Error>)
        default_ensures
            r is Ok,
    {
        Ok(())
    }
}

impl EventHandler for () {
    type Event = String;

    fn handle_data(&self, data: String) -> (r: Result<String, Error>)
        ensures
            r == Ok::<String, Error>(data),
    {
        Ok(data)
    }
}

/// How a stream is reconnected. The interval is in milliseconds.
#[derive(Clone, Copy, Debug, PartialEq, Eq)]
pub struct Reconnect {
    /// Whether reconnection is supported.
    pub support: bool,
    /// The greatest number of retries.
    pub max_retries: usize,
    /// The time between two retries, in milliseconds.
    pub retry_interval: u64,
}

impl Default for Reconnect {
    fn default() -> (r: Reconnect)
        ensures
            r == (Reconnect { support: false, max_retries: 3, retry_interval: 200 }),
    {
        Reconnect { support: false, max_retries: 3, retry_interval: 200 }
    }
}

/// The options of an event stream.
#[derive(Debug)]
pub struct SseOptions<H> {
    /// Whether `event` fields are dropped, so that only payloads are handled.
    pub drop_event: bool,
    /// The handler of the stream's events.
    pub event_handler: H,
    /// How the stream is reconnected.
    pub reconnect: Reconnect,
}

impl<H> SseOptions<H> {
    /// Options with the given handler, which keep `event` fields and do not
    /// reconnect.
    pub fn new(event_handler: H) -> (r: SseOptions<H>)
        ensures
            r.drop_event == false,
            r.event_handler == event_handler,
            r.reconnect == (Reconnect { support: false, max_retries: 3, retry_interval: 200 }),
    {
        SseOptions { drop_event: false, event_handler, reconnect: Reconnect::default() }
    }

    /// These options with `drop_event` set to `drop`.
    pub fn drop_event(self, drop: bool) -> (r: SseOptions<H>)
        ensures
            r.drop_event == drop,
            r.event_handler == self.event_handler,
            r.reconnect == self.reconnect,
    {
        SseOptions {
            drop_event: drop,
            event_handler: self.event_handler,
            reconnect: self.reconnect,
        }
    }

    /// These options with another handler.
    pub fn event_handler(self, event_handler: H) -> (r: SseOptions<H>)
        ensures
            r.drop_event == self.drop_event,
            r.event_handler == event_handler,
            r.reconnect == self.reconnect,
    {
        SseOptions { drop_event: self.drop_event, event_handler, reconnect: self.reconnect }
    }

    /// These options with another reconnection policy.
    pub fn reconnect(self, reconnect: Reconnect) -> (r: SseOptions<H>)
        ensures
            r.drop_event == self.drop_event,
            r.event_handler == self.event_handler,
            r.reconnect == reconnect,
    {
        SseOptions { drop_event: self.drop_event, event_handler: self.event_handler, reconnect }
    }
}

/// The credentials of the API.
#[derive(Clone, Debug, PartialEq, Eq)]
pub struct Auth {
    /// The address that every endpoint is added to.
    pub uri: String,
    /// The key that requests are signed with.
    pub key: String,
}

/// The parts of a request that carries both bytes and text.
#[derive(Clone, Debug, PartialEq, Eq)]
pub struct Multipart {
    /// The binary parts: the name, the bytes, and the file name if there is
    /// one.
    pub binary: Vec<(String, Vec<u8>, Option<String>)>,
    /// The text parts: the name and the text.
    pub text: Vec<(String, String)>,
}

impl Default for Multipart {
    fn default() -> (r: Multipart)
        ensures
            r.binary@.len() == 0,
            r.text@.len() == 0,
    {
        Multipart { binary: Vec::new(), text: Vec::new() }
    }
}

} // verus!
