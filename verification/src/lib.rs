//! A concurrent load-generation engine.
//!
//! The library takes a list of templated HTTP request descriptions, expands
//! them across repeated iterations, splits the expanded list round-robin into
//! one batch per executor, prepares each request (placeholder substitution,
//! bearer authorization, expected status), and accounts for every request's
//! lifecycle (in-flight, succeeded, failed, with timing) in an aggregated
//! summary.
//!
//! The pieces that talk to the outside world — the HTTP transport, the
//! authentication call, the start-signal channel, the clock and the terminal
//! dashboard — live in the embedding application; this crate holds the logic
//! they are wired around, with its behaviour stated in contracts.

pub mod barrier;
pub mod batch_executor;
pub mod batcher;
pub mod config;
pub mod engine;
pub mod login;
pub mod metrics;
pub mod request;
pub mod text;
