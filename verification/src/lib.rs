//! Core of a contact/"start a project" form backend: decoding and rule-checking
//! the submitted form, mapping the closed set of failure kinds to one wire
//! format, and the bounded-retry policy of the outbound email dispatch.
//!
//! Network and process plumbing (the HTTP server, the SMTP session, tracing and
//! error-tracking sinks) live outside this crate; the logic here is pure and
//! carries contracts.

pub mod configs;
pub mod decode;
pub mod dispatch;
pub mod errors;
pub mod handler;
pub mod models;
