//! Connections of the client.

use vstd::prelude::*;

use crate::client::pool::{
    cleaned, given_back, wakes, Acquired, ConnectionType, Inner, Released, Waiters,
};

verus! {

/// Protocol of a connection.
#[derive(Debug, Copy, Clone, PartialEq, Eq, Structural)]
pub enum HttpProtocol {
    Http1,
    Http2,
    Unknown,
}

impl ConnectionType {
    /// Name of the protocol.
    pub open spec fn protocol_name(self) -> Seq<char> {
        match self {
            ConnectionType::H1(_) => "http/1"@,
            ConnectionType::H2(_) => "http/2"@,
        }
    }

    /// Name of the protocol.
    pub fn name(&self) -> (r: &'static str)
        ensures
            r@ == self.protocol_name(),
    {
        match self {
            ConnectionType::H1(_) => "http/1",
            ConnectionType::H2(_) => "http/2",
        }
    }
}

/// HTTP client connection
#[derive(Debug)]
pub struct Connection {
    /// The transport.
    pub io: Option<ConnectionType>,
    /// When the connection was opened, in nanoseconds.
    pub created: u64,
    /// The pool that the connection belongs to.
    pub pool: Option<Acquired>,
}

impl Connection {
    /// A connection.
    pub fn new(io: ConnectionType, created: u64, pool: Option<Acquired>) -> (r: Connection)
        ensures
            r == (Connection { io: Some(io), created, pool }),
    {
        Connection { io: Some(io), created, pool }
    }

    /// Gives the connection back to its pool. One without a pool is dropped.
    pub fn release(
        self,
        inner: &mut Inner,
        waiters: &mut Waiters,
        canceled: &Vec<u64>,
        close: bool,
        now: u64,
    ) -> (r: Released)
        requires
            self.io is Some,
            old(inner).wf(),
            old(waiters).wf(),
            self.pool matches Some(a) ==> a.live && old(inner).acquired > 0,
        ensures
            final(inner).wf(),
            final(waiters).wf(),
            match self.pool {
                Some(a) => {
                    &&& final(inner)@ == given_back(
                        old(inner)@,
                        a.key@,
                        self.io->0,
                        self.created,
                        close,
                        now,
                    )
                    &&& final(waiters).map() == cleaned(old(waiters).map(), canceled@)
                    &&& r == (Released { close, wake: wakes(final(inner)@, final(waiters).map()) })
                },
                None => *final(inner) == *old(inner) && *final(waiters) == *old(waiters) && r == (
                Released { close: false, wake: false }),
            },
    {
        let Connection { io, created, pool } = self;
        match pool {
            Some(mut pool) => match io {
                Some(io) => pool.release(inner, waiters, canceled, io, created, close, now),
                None => Released { close: false, wake: false },
            },
            None => Released { close: false, wake: false },
        }
    }

    /// Takes the connection apart.
    pub fn into_inner(self) -> (r: (ConnectionType, u64, Option<Acquired>))
        requires
            self.io is Some,
        ensures
            r == (self.io->0, self.created, self.pool),
    {
        (self.io.unwrap(), self.created, self.pool)
    }

    /// Protocol of the connection.
    pub fn protocol(&self) -> (r: HttpProtocol)
        ensures
            r == (match self.io {
                Some(ConnectionType::H1(_)) => HttpProtocol::Http1,
                Some(ConnectionType::H2(_)) => HttpProtocol::Http2,
                None => HttpProtocol::Unknown,
            }),
    {
        match &self.io {
            Some(ConnectionType::H1(_)) => HttpProtocol::Http1,
            Some(ConnectionType::H2(_)) => HttpProtocol::Http2,
            None => HttpProtocol::Unknown,
        }
    }
}

} // verus!
