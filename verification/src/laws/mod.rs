//! What holds of the library as a whole, stated over its results.

pub mod connection;
pub mod content;
pub mod http2;
pub mod pooling;
pub mod receiving;
pub mod requesting;
pub mod responding;
pub mod sending;
pub mod serving;
pub mod timing;
pub mod websockets;
