//! Service builder.

use vstd::prelude::*;

use crate::config::{read_rate, keepalive_timeout, default_config, HttpServiceConfig, KeepAlive};
use crate::h1::control::DefaultControlService;
use crate::h2::service::DefaultControlService as H2DefaultControlService;
use crate::time::Seconds;

verus! {

/// Settings of HTTP/2 connections.
#[derive(Debug, Copy, Clone, PartialEq, Eq, Structural)]
pub struct H2Config {
    /// Most streams that are open at once.
    pub max_concurrent_streams: Option<u32>,
    /// Window of a stream.
    pub initial_window_size: Option<u32>,
}

/// A http service builder
///
/// This type can be used to construct an instance of `http service` through a
/// builder-like pattern.
#[derive(Debug)]
pub struct HttpServiceBuilder<C1, C2> {
    pub config: HttpServiceConfig,
    pub ssl_handshake_timeout: Seconds,
    pub h2config: H2Config,
    pub h1_control: C1,
    pub h2_control: C2,
}

impl HttpServiceBuilder<DefaultControlService, H2DefaultControlService> {
    /// Create instance of `ServiceConfigBuilder`
    pub fn new() -> (r: Self)
        ensures
            r.config == default_config(),
            r.ssl_handshake_timeout == Seconds(5),
            r.h2config == (H2Config { max_concurrent_streams: None, initial_window_size: None }),
    {
        HttpServiceBuilder::with_config(HttpServiceConfig::new())
    }

    /// Create instance of `ServiceConfigBuilder`
    pub fn with_config(config: HttpServiceConfig) -> (r: Self)
        ensures
            r.config == config,
            r.ssl_handshake_timeout == Seconds(5),
            r.h2config == (H2Config { max_concurrent_streams: None, initial_window_size: None }),
    {
        HttpServiceBuilder {
            config,
            ssl_handshake_timeout: Seconds(5),
            h2config: H2Config { max_concurrent_streams: None, initial_window_size: None },
            h1_control: DefaultControlService,
            h2_control: H2DefaultControlService,
        }
    }
}

impl<C1, C2> HttpServiceBuilder<C1, C2> {
    /// Set server keep-alive setting.
    ///
    /// By default keep alive is set to a 5 seconds.
    pub fn keep_alive(self, val: KeepAlive) -> (r: Self)
        ensures
            r == (HttpServiceBuilder {
                config: HttpServiceConfig {
                    keep_alive: keepalive_timeout(val),
                    ka_enabled: val != KeepAlive::Disabled,
                    ..self.config
                },
                ..self
            }),
    {
        let mut b = self;
        b.config = b.config.set_keepalive(val);
        b
    }

    /// Set request headers read timeout.
    ///
    /// Defines a timeout for reading client request header. If a client does not transmit
    /// the entire set headers within this time, the request is terminated with
    /// the 408 (Request Time-out) error.
    ///
    /// To disable timeout set value to 0.
    pub fn client_timeout(self, timeout: Seconds) -> (r: Self)
        ensures
            r == (HttpServiceBuilder { config: r.config, ..self }),
            r.config == (HttpServiceConfig {
                headers_read_rate: r.config.headers_read_rate,
                ..self.config
            }),
            timeout.0 == 0 ==> r.config.headers_read_rate is None,
            timeout.0 != 0 ==> r.config.headers_read_rate == Some(
                match self.config.headers_read_rate {
                    Some(rate) => crate::config::FrameReadRate { timeout, ..rate },
                    None => crate::config::default_head_rate(timeout),
                },
            ),
    {
        let mut b = self;
        b.config = b.config.set_client_timeout(timeout);
        b
    }

    /// Set server ssl handshake timeout.
    ///
    /// Defines a timeout for connection ssl handshake negotiation.
    /// To disable timeout set value to 0.
    ///
    /// By default handshake timeout is set to 5 seconds.
    pub fn ssl_handshake_timeout(self, timeout: Seconds) -> (r: Self)
        ensures
            r == (HttpServiceBuilder { ssl_handshake_timeout: timeout, ..self }),
    {
        let mut b = self;
        b.ssl_handshake_timeout = timeout;
        b
    }

    /// Set read rate parameters for request headers.
    ///
    /// Set max timeout for reading request headers. If the client
    /// sends `rate` amount of data, increase the timeout by 1 second for every.
    /// But no more than `max_timeout` timeout.
    pub fn headers_read_rate(self, timeout: Seconds, max_timeout: Seconds, rate: u32) -> (r: Self)
        ensures
            r == (HttpServiceBuilder {
                config: HttpServiceConfig {
                    headers_read_rate: read_rate(timeout, max_timeout, rate),
                    ..self.config
                },
                ..self
            }),
    {
        let mut b = self;
        b.config = b.config.set_headers_read_rate(timeout, max_timeout, rate);
        b
    }

    /// Set read rate parameters for request's payload.
    ///
    /// Set read timeout, max timeout and rate for reading payload. If the client
    /// sends `rate` amount of data within `timeout` period of time, extend timeout by `timeout` seconds.
    /// But no more than `max_timeout` timeout.
    ///
    /// By default payload read rate is disabled.
    pub fn payload_read_rate(self, timeout: Seconds, max_timeout: Seconds, rate: u32) -> (r: Self)
        ensures
            r == (HttpServiceBuilder {
                config: HttpServiceConfig {
                    payload_read_rate: read_rate(timeout, max_timeout, rate),
                    ..self.config
                },
                ..self
            }),
    {
        let mut b = self;
        b.config = b.config.set_payload_read_rate(timeout, max_timeout, rate);
        b
    }

    /// Provide control service for http/1.
    pub fn h1_control<C>(self, control: C) -> (r: HttpServiceBuilder<C, C2>)
        ensures
            r.h1_control == control,
            r.h2_control == self.h2_control,
            r.config == self.config,
            r.ssl_handshake_timeout == self.ssl_handshake_timeout,
            r.h2config == self.h2config,
    {
        HttpServiceBuilder {
            config: self.config,
            ssl_handshake_timeout: self.ssl_handshake_timeout,
            h2config: self.h2config,
            h1_control: control,
            h2_control: self.h2_control,
        }
    }

    /// Provide control service for http/2 protocol.
    pub fn h2_control<C>(self, control: C) -> (r: HttpServiceBuilder<C1, C>)
        ensures
            r.h1_control == self.h1_control,
            r.h2_control == control,
            r.config == self.config,
            r.ssl_handshake_timeout == self.ssl_handshake_timeout,
            r.h2config == self.h2config,
    {
        HttpServiceBuilder {
            config: self.config,
            ssl_handshake_timeout: self.ssl_handshake_timeout,
            h2config: self.h2config,
            h1_control: self.h1_control,
            h2_control: control,
        }
    }

    /// Configure http2 connection settings. The function is called once, on the
    /// builder's own settings; what it returns is dropped.
    pub fn h2_configure<O, R>(self, f: O) -> (r: Self) where O: FnOnce(&mut H2Config) -> R
        requires
            forall|c: &mut H2Config| *c == self.h2config ==> #[trigger] f.requires((c,)),
        ensures
            exists|c: &mut H2Config, out: R| #[trigger]
                f.ensures((c,), out) && *c == self.h2config && r == (HttpServiceBuilder {
                    h2config: *final(c),
                    ..self
                }),
    {
        let mut b = self;
        let _ = f(&mut b.h2config);
        b
    }
}

} // verus!
