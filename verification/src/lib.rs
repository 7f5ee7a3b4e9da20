//! The verified core of an agent kit for the OpenAI API.
//!
//! Two machines carry the kit. The decoder of server-sent events ([`sse`])
//! takes the lines of a streamed response and hands out the payloads they
//! carry. The run of the agent ([`run`]) alternates reasoning and tool calls
//! within a bounded number of steps. Neither waits for anything: each is told
//! what happened and answers with what to do next, so that whoever drives
//! them (a transport, an async task) holds no rule of its own.
//!
//! Around them stand what they work with: text as sequences of characters
//! ([`text`]), JSON values ([`json`]), what the agent reads out of a
//! reasoning text ([`extract`]) and what it writes into a prompt
//! ([`prompt`]), the agent and the state of a run ([`agent`], [`tool`]),
//! errors with their messages ([`error`]), the models ([`model`]) and the
//! plain data of the API ([`api`], [`http`]).
//!
//! Every function states what it returns over the mathematical content of
//! its arguments; the few calls into outside crates are named where they
//! are made.

pub mod agent;
pub mod api;
pub mod error;
pub mod extract;
pub mod http;
pub mod json;
pub mod model;
pub mod prelude;
pub mod prompt;
pub mod run;
pub mod sse;
pub mod text;
pub mod tool;
