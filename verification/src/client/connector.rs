//! Manages http client network connectivity.

use vstd::prelude::*;

use crate::builder::H2Config;
use crate::client::error::ConnectError;
use crate::client::pool::{ConnectionPool, PoolView, Waiting};
use crate::text::str_eq;
use crate::time::Seconds;
use crate::types::Uri;

verus! {

/// Nanoseconds of a second.
pub const NANOS: u64 = 1_000_000_000;

/// Manages http client network connectivity.
///
/// The `Connector` type uses a builder-like combinator pattern for service
/// construction.
#[derive(Debug, Copy, Clone, PartialEq, Eq, Structural)]
pub struct Connector {
    /// Longest time that a connection stays open, in nanoseconds.
    pub conn_lifetime: u64,
    /// Longest time that a connection stays unused, in nanoseconds.
    pub conn_keep_alive: u64,
    /// Most connections that are in use or being opened at once, 0 for any number.
    pub limit: usize,
    /// Secured connections can be opened.
    pub secure: bool,
}

impl Default for Connector {
    fn default() -> (r: Connector)
        ensures
            r == (Connector {
                conn_lifetime: (75 * NANOS) as u64,
                conn_keep_alive: (15 * NANOS) as u64,
                limit: 100,
                secure: false,
            }),
    {
        Connector::new()
    }
}

impl Connector {
    /// Connections live 75 seconds, stay unused for 15 seconds, and up to 100 of
    /// them are in use.
    pub fn new() -> (r: Connector)
        ensures
            r == (Connector {
                conn_lifetime: (75 * NANOS) as u64,
                conn_keep_alive: (15 * NANOS) as u64,
                limit: 100,
                secure: false,
            }),
    {
        Connector {
            conn_lifetime: 75 * NANOS,
            conn_keep_alive: 15 * NANOS,
            limit: 100,
            secure: false,
        }
    }

    /// Set total number of simultaneous connections per type of scheme.
    ///
    /// If limit is 0, the connector has no limit.
    /// The default limit size is 100.
    pub fn limit(self, limit: usize) -> (r: Connector)
        ensures
            r == (Connector { limit, ..self }),
    {
        Connector { limit, ..self }
    }

    /// Set keep-alive period for opened connection.
    ///
    /// Keep-alive period is the period between connection usage. If
    /// the delay between repeated usages of the same connection
    /// exceeds this period, the connection is closed.
    /// Default keep-alive period is 15 seconds.
    pub fn keep_alive(self, dur: Seconds) -> (r: Connector)
        ensures
            r == (Connector { conn_keep_alive: (dur.0 * NANOS) as u64, ..self }),
    {
        Connector { conn_keep_alive: dur.0 as u64 * NANOS, ..self }
    }

    /// Set max lifetime period for connection.
    ///
    /// Connection lifetime is max lifetime of any opened connection
    /// until it is closed regardless of keep-alive period.
    /// Default lifetime period is 75 seconds.
    pub fn lifetime(self, dur: Seconds) -> (r: Connector)
        ensures
            r == (Connector { conn_lifetime: (dur.0 * NANOS) as u64, ..self }),
    {
        Connector { conn_lifetime: dur.0 as u64 * NANOS, ..self }
    }

    /// Secured connections can be opened.
    pub fn secure_connector(self) -> (r: Connector)
        ensures
            r == (Connector { secure: true, ..self }),
    {
        Connector { secure: true, ..self }
    }

    /// The pools of the connector. How long connections take to close at most, and
    /// how HTTP/2 is spoken, is the same for both.
    pub fn create(&self, disconnect_timeout: Seconds, h2config: H2Config) -> (r: ConnectorService)
        ensures
            r.wf(),
            is_pool_of(r.tcp_pool, *self, disconnect_timeout, h2config),
            r.ssl_pool is Some <==> self.secure,
            r.ssl_pool matches Some(p) ==> is_pool_of(p, *self, disconnect_timeout, h2config),
    {
        let tcp_pool = ConnectionPool::new(
            self.conn_lifetime,
            self.conn_keep_alive,
            disconnect_timeout,
            self.limit,
            h2config,
        );
        let ssl_pool = if self.secure {
            Some(
                ConnectionPool::new(
                    self.conn_lifetime,
                    self.conn_keep_alive,
                    disconnect_timeout,
                    self.limit,
                    h2config,
                ),
            )
        } else {
            None
        };
        ConnectorService { tcp_pool, ssl_pool }
    }
}

/// A pool without connections that is set up as the connector says.
pub open spec fn is_pool_of(
    p: ConnectionPool,
    c: Connector,
    disconnect_timeout: Seconds,
    h2config: H2Config,
) -> bool {
    &&& p.inner@ == (PoolView {
        conn_lifetime: c.conn_lifetime,
        conn_keep_alive: c.conn_keep_alive,
        disconnect_timeout,
        limit: c.limit,
        h2config,
        acquired: 0,
        available: Map::empty(),
        connecting: Set::empty(),
    })
    &&& p.waiters.map() == Map::<Seq<u8>, Seq<Waiting>>::empty()
}

/// Manages http client network connectivity.
#[derive(Debug)]
pub struct ConnectorService {
    /// Plain connections.
    pub tcp_pool: ConnectionPool,
    /// Secured connections.
    pub ssl_pool: Option<ConnectionPool>,
}

/// Which pool a request goes to.
#[derive(Debug, Copy, Clone, PartialEq, Eq, Structural)]
pub enum PoolChoice {
    Tcp,
    Ssl,
}

/// The scheme asks for a secured connection.
pub open spec fn is_secure(scheme: Option<Seq<char>>) -> bool {
    scheme == Some("https"@) || scheme == Some("wss"@)
}

impl ConnectorService {
    /// The pools are in order.
    pub open spec fn wf(self) -> bool {
        self.tcp_pool.wf() && (self.ssl_pool matches Some(p) ==> p.wf())
    }

    /// The pool that a request goes to, by its scheme.
    pub fn choose_pool(&self, uri: &Uri) -> (r: Result<PoolChoice, ConnectError>)
        ensures
            r == (if is_secure(uri@.scheme) {
                if self.ssl_pool is Some {
                    Ok(PoolChoice::Ssl)
                } else {
                    Err(ConnectError::SslIsNotSupported)
                }
            } else {
                Ok(PoolChoice::Tcp)
            }),
    {
        let secure = match &uri.scheme {
            Some(s) => str_eq(s.as_str(), "https") || str_eq(s.as_str(), "wss"),
            None => false,
        };
        if secure {
            if self.ssl_pool.is_some() {
                Ok(PoolChoice::Ssl)
            } else {
                Err(ConnectError::SslIsNotSupported)
            }
        } else {
            Ok(PoolChoice::Tcp)
        }
    }
}

} // verus!
