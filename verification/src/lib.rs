//! HTTP/1 and HTTP/2 protocol logic: message decoding and encoding, connection
//! timers, the connection dispatcher's decisions and the client side of them.

pub mod body;
pub mod builder;
pub mod client;
pub mod config;
pub mod cookies;
pub mod encoding;
pub mod error;
pub mod h1;
pub mod h2;
pub mod headers;
pub mod helpers;
pub mod io;
pub mod laws;
pub mod message;
pub mod payload;
pub mod request;
pub mod response;
pub mod service;
pub mod testing;
pub mod text;
pub mod time;
pub mod types;
