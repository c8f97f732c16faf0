//! Request-dispatch core of a small greeting service.
//!
//! The library decodes raw request parts (path segments, query string, JSON
//! body) into typed values, keeps a shared greeting counter, and maps each
//! request to a response through a route table that is fixed at startup.
//! Listening, TLS and the HTTP wire format stay outside; the library takes a
//! request as plain values and returns the response as plain values.

pub mod body;
pub mod dispatch;
pub mod laws;
pub mod num;
pub mod query;
pub mod state;
pub mod text;
