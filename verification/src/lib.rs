//! A typed client library for a text-generation HTTP API.
//!
//! Each endpoint is a payload struct whose JSON serialization is specified
//! character by character, together with the request descriptor (method,
//! URL, headers, body) that a transport layer sends.

pub mod client;
pub mod endpoints;
pub mod json;
