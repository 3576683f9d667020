//! A two-route HTTP responder: exact (method, path) routing onto handlers
//! whose records are encoded as JSON bodies.
pub mod config;
pub mod json;
pub mod laws;
pub mod response;
pub mod router;
