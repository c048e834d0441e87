//! A small HTTP service, stated as values: a request goes in, a response and
//! the record of a tracing span come out.
//!
//! The transport, the clock and the span exporter live outside this crate.
//! Everything here is a function of its arguments. All of it is verified but
//! the reading and writing of JSON, which `serde_json` does: the module
//! `json` states what is relied on there.

pub mod error;
pub mod handlers;
pub mod json;
pub mod router;
pub mod schema;
pub mod service;
pub mod span;
pub mod text;
