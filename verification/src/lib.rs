//! Core logic of a command-line controller for a home-automation gateway.
//!
//! The crate covers the pure parts of the tool: encoding user intents into
//! action-group requests, the bounded retry policy that reconciles the
//! gateway's asynchronous execution model with a synchronous command line,
//! the event-listener loop's schedule, alias bookkeeping, and the merging of
//! configuration sources. Network transport, file I/O and output rendering
//! live outside this crate and drive these components with plain values.

pub mod alias;
pub mod cli;
pub mod dotenv;
pub mod encoder;
pub mod formatter;
pub mod listener;
pub mod loader;
pub mod poller;
pub mod text;
