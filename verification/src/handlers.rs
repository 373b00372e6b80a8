//! The decisions behind the HTTP endpoints.
pub mod authorize;
pub mod discovery;
pub mod token;
