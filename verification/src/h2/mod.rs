//! HTTP/2 protocol.

pub mod dispatcher;
pub mod payload;
pub mod service;
