//! Verified core of an OpenAI-compatible chat server that bridges requests to
//! a GitHub Copilot session: prompt assembly, request validation, bearer
//! authentication, model listing and the event-to-chunk logic of the
//! streaming and non-streaming chat responses.

pub mod text;
pub mod config;
pub mod error;
pub mod types;
pub mod prompt;
pub mod middleware;
pub mod session;
pub mod streaming;
pub mod handlers;
pub mod runs;
