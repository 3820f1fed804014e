//! Uniform error reporting for an HTTP API: domain failures are classified
//! into a small set of stable codes, mapped to a transport status, and rendered
//! into a structured error envelope; successful payloads get a symmetric
//! success envelope.

pub mod code;
pub mod capability;
pub mod api_error;
pub mod response;
pub mod text;
pub mod templates;
pub mod users;
pub mod simple;
pub mod dependency;
pub mod controller;
pub mod laws;
