//! Exact-match request dispatch for a small licensing service, with JSON responses.

pub mod error;
pub mod handler;
pub mod request;
pub mod responder;
pub mod router;
pub mod status;
