//! HTTP services.

use vstd::prelude::*;

use crate::client::connection::HttpProtocol;
use crate::config::DispatcherConfig;
use crate::h1::control::{ControlResult, DefaultControlService};
use crate::h2::service::DefaultControlService as H2DefaultControlService;

verus! {

/// HTTP1.1/HTTP2 transport implementation
#[derive(Debug)]
pub struct HttpService<C1, C2> {
    /// Control service of HTTP/1.
    pub h1_ctl: C1,
    /// Control service of HTTP/2.
    pub h2_ctl: C2,
    /// Connections of the service.
    pub config: DispatcherConfig,
}

/// A connection that a service took.
#[derive(Debug, Copy, Clone, PartialEq, Eq, Structural)]
pub struct Accepted {
    /// Connection id, handed on in request heads.
    pub id: usize,
    /// Number of connections in flight.
    pub inflight: usize,
    /// The connection speaks HTTP/2.
    pub h2: bool,
}

/// A service takes a connection.
pub open spec fn takes(
    before: DispatcherConfig,
    after: DispatcherConfig,
    io: u64,
    id: usize,
    inflight: usize,
) -> bool {
    &&& after.wf()
    &&& id == before.issued()
    &&& after.issued() == id + 1
    &&& after.open_ios() == before.open_ios().insert(io)
    &&& inflight == after.open_ios().len()
    &&& after.stopping() == before.stopping()
    &&& after.announced() == before.announced()
}

/// A connection of a service ends: the result says whether the end of the
/// shutdown is announced.
pub open spec fn ends(before: DispatcherConfig, after: DispatcherConfig, io: u64, r: bool) -> bool {
    &&& after.wf()
    &&& after.open_ios() == before.open_ios().remove(io)
    &&& after.issued() == before.issued()
    &&& after.stopping() == before.stopping()
    &&& r == (after.open_ios().len() == 0 && before.stopping() && !before.announced())
    &&& after.announced() == (before.announced() || r)
}

impl HttpService<DefaultControlService, H2DefaultControlService> {
    /// Create new `HttpService` instance.
    pub fn new() -> (r: Self)
        ensures
            r.config.wf(),
            r.config.issued() == 0,
            r.config.open_ios() == Set::<u64>::empty(),
            !r.config.stopping(),
    {
        HttpService {
            h1_ctl: DefaultControlService,
            h2_ctl: H2DefaultControlService,
            config: DispatcherConfig::new(),
        }
    }
}

impl<C1, C2> HttpService<C1, C2> {
    /// Provide http/1 control service.
    pub fn h1_control<C>(self, ctl: C) -> (r: HttpService<C, C2>)
        ensures
            r.h1_ctl == ctl,
            r.h2_ctl == self.h2_ctl,
            r.config == self.config,
    {
        HttpService { h1_ctl: ctl, h2_ctl: self.h2_ctl, config: self.config }
    }

    /// Provide http/2 control service.
    pub fn h2_control<C>(self, ctl: C) -> (r: HttpService<C1, C>)
        ensures
            r.h1_ctl == self.h1_ctl,
            r.h2_ctl == ctl,
            r.config == self.config,
    {
        HttpService { h1_ctl: self.h1_ctl, h2_ctl: ctl, config: self.config }
    }

    /// Takes a connection. Its protocol is HTTP/1 unless the transport says
    /// otherwise.
    pub fn call(&mut self, io: u64, protocol: Option<HttpProtocol>) -> (r: Accepted)
        requires
            old(self).config.wf(),
            old(self).config.issued() < usize::MAX,
        ensures
            takes(old(self).config, final(self).config, io, r.id, r.inflight),
            r.h2 == (protocol == Some(HttpProtocol::Http2)),
            final(self).h1_ctl == old(self).h1_ctl,
            final(self).h2_ctl == old(self).h2_ctl,
    {
        let id = self.config.next_id();
        let inflight = self.config.insert_io(io);
        let h2 = match protocol {
            Some(HttpProtocol::Http2) => true,
            _ => false,
        };
        Accepted { id, inflight, h2 }
    }

    /// A connection ended. Returns whether the end of the shutdown is announced.
    pub fn finished(&mut self, io: u64) -> (r: bool)
        requires
            old(self).config.wf(),
        ensures
            ends(old(self).config, final(self).config, io, r),
            final(self).h1_ctl == old(self).h1_ctl,
            final(self).h2_ctl == old(self).h2_ctl,
    {
        self.config.connection_done(io)
    }
}

/// HTTP1 transport implementation
#[derive(Debug)]
pub struct H1Service<C> {
    /// Control service.
    pub ctl: C,
    /// Connections of the service.
    pub config: DispatcherConfig,
}

impl H1Service<DefaultControlService> {
    /// Create new service instance.
    pub fn new() -> (r: Self)
        ensures
            r.config.wf(),
            r.config.issued() == 0,
            r.config.open_ios() == Set::<u64>::empty(),
            !r.config.stopping(),
    {
        H1Service { ctl: DefaultControlService, config: DispatcherConfig::new() }
    }
}

impl<C> H1Service<C> {
    /// Provide http/1 control service.
    pub fn control<D>(self, ctl: D) -> (r: H1Service<D>)
        ensures
            r.ctl == ctl,
            r.config == self.config,
    {
        H1Service { ctl, config: self.config }
    }

    /// Takes a connection. Returns its id and the number of connections in
    /// flight.
    pub fn call(&mut self, io: u64) -> (r: (usize, usize))
        requires
            old(self).config.wf(),
            old(self).config.issued() < usize::MAX,
        ensures
            takes(old(self).config, final(self).config, io, r.0, r.1),
            final(self).ctl == old(self).ctl,
    {
        let id = self.config.next_id();
        let inflight = self.config.insert_io(io);
        (id, inflight)
    }

    /// A connection ended. Returns whether the end of the shutdown is announced.
    pub fn finished(&mut self, io: u64) -> (r: bool)
        requires
            old(self).config.wf(),
        ensures
            ends(old(self).config, final(self).config, io, r),
            final(self).ctl == old(self).ctl,
    {
        self.config.connection_done(io)
    }
}

/// HTTP2 transport implementation
#[derive(Debug)]
pub struct H2Service<C> {
    /// Control service.
    pub ctl: C,
    /// Connections of the service.
    pub config: DispatcherConfig,
}

impl H2Service<H2DefaultControlService> {
    /// Create new service instance.
    pub fn new() -> (r: Self)
        ensures
            r.config.wf(),
            r.config.issued() == 0,
            r.config.open_ios() == Set::<u64>::empty(),
            !r.config.stopping(),
    {
        H2Service { ctl: H2DefaultControlService, config: DispatcherConfig::new() }
    }
}

impl<C> H2Service<C> {
    /// Provide http/2 control service
    pub fn control<D>(self, ctl: D) -> (r: H2Service<D>)
        ensures
            r.ctl == ctl,
            r.config == self.config,
    {
        H2Service { ctl, config: self.config }
    }

    /// Takes a connection. Returns its id and the number of connections in
    /// flight.
    pub fn call(&mut self, io: u64) -> (r: (usize, usize))
        requires
            old(self).config.wf(),
            old(self).config.issued() < usize::MAX,
        ensures
            takes(old(self).config, final(self).config, io, r.0, r.1),
            final(self).ctl == old(self).ctl,
    {
        let id = self.config.next_id();
        let inflight = self.config.insert_io(io);
        (id, inflight)
    }

    /// A connection ended. Returns whether the end of the shutdown is announced.
    pub fn finished(&mut self, io: u64) -> (r: bool)
        requires
            old(self).config.wf(),
        ensures
            ends(old(self).config, final(self).config, io, r),
            final(self).ctl == old(self).ctl,
    {
        self.config.connection_done(io)
    }
}

/// The last connection that ends during a shutdown announces its end, and no
/// other does: as long as one is open, nothing is announced, and nothing is
/// announced twice.
pub proof fn shutdown_is_announced_once(
    a: DispatcherConfig,
    b: DispatcherConfig,
    c: DispatcherConfig,
    x: u64,
    y: u64,
    first: bool,
    second: bool,
)
    requires
        ends(a, b, x, first),
        ends(b, c, y, second),
    ensures
        first ==> a.stopping() && b.open_ios().len() == 0,
        first ==> !second,
        a.stopping() && !a.announced() && b.open_ios().len() == 0 ==> first,
{
}

/// Upgrade handler that takes no connection.
#[derive(Debug, Copy, Clone, PartialEq, Eq, Structural)]
pub struct UpgradeHandler;

/// Whether a connection that the control service was asked about is served.
pub fn is_connected(result: &ControlResult) -> (r: bool)
    ensures
        r == (*result is Connect),
{
    match result {
        ControlResult::Connect => true,
        _ => false,
    }
}

} // verus!
