//! The client side of a GraphQL subscription protocol, verified with Verus.
//!
//! The crate builds GraphQL operations (queries, aggregations, subscriptions
//! and batches of requests), writes the messages that a client sends, and
//! reads the messages that a server sends. It opens no connection and keeps
//! no state: every function goes from values to values.
//!
//! JSON values are those of `serde_json`. The contracts speak of them through
//! the model in [`json`], and rest on what that module assumes of the
//! outside crate.

/// Messages from the client, and their envelopes.
pub mod client;
/// The error that reading a message can give.
pub mod error;
/// JSON values, their model, and what is assumed of `serde_json`.
pub mod json;
/// Names of GraphQL types, derived from names of collections.
pub mod naming;
/// Operations and their builders.
pub mod operation;
/// Messages from the server, and how they are read.
pub mod server;
/// Characters, words and whitespace.
pub mod text;
/// The plain data that goes into variables.
pub mod types;
