//! Transports.

use vstd::prelude::*;

use crate::error::IoError;
use crate::io::state::IoState;

pub mod listeners;
pub mod state;
pub mod tokio_impl;

verus! {

/// Why a write task does not write.
#[derive(Debug, Copy, Clone, PartialEq, Eq, Structural)]
pub enum WriteReadiness {
    /// The transport is shut down in order.
    Shutdown,
    /// The transport is closed at once.
    Terminate,
}

/// What a task is to do.
#[derive(Debug, Copy, Clone, PartialEq, Eq, Structural)]
pub enum Readiness<T> {
    /// Waits.
    Pending,
    /// Goes on.
    Ready,
    /// Stops, for the given reason.
    Stopped(T),
}

/// The reading side of a layer over a transport.
pub trait ReadFilter {
    /// Whether the read task reads.
    fn poll_read_ready(&mut self) -> Readiness<()>;

    /// The reading side of the transport is closed.
    fn read_closed(&mut self, err: Option<IoError>);

    /// Takes the read buffer.
    fn get_read_buf(&mut self) -> Option<Vec<u8>>;

    /// Gives the read buffer back, with a number of new bytes.
    fn release_read_buf(&mut self, buf: Vec<u8>, new_bytes: usize);
}

/// The writing side of a layer over a transport.
pub trait WriteFilter {
    /// Whether the write task writes.
    fn poll_write_ready(&mut self) -> Readiness<WriteReadiness>;

    /// The writing side of the transport is closed.
    fn write_closed(&mut self, err: Option<IoError>);

    /// Takes the write buffer.
    fn get_write_buf(&mut self) -> Option<Vec<u8>>;

    /// Gives the write buffer back.
    fn release_write_buf(&mut self, buf: Vec<u8>);
}

/// A layer over a transport.
pub trait Filter: ReadFilter + WriteFilter {

}

/// Makes layers.
pub trait FilterFactory<F: Filter> {
    /// The layer that is made.
    type Filter: Filter;

    /// Puts a layer over another.
    fn create(inner: F) -> Self::Filter;
}

/// A transport.
pub trait IoStream: Sized {
    /// Starts the tasks that read and write.
    fn start(self, state: &mut IoState);
}

} // verus!
