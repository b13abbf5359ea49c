//! Connection lifecycle messages and acknowledgements.

use vstd::prelude::*;

use crate::body::{Body, ResponseBody};
use crate::error::IoError;
use crate::h1::codec::Codec;
use crate::request::Request;
use crate::response::{Response, ResponseError};

verus! {

/// Reason of a disconnect that the service asked for.
#[derive(Copy, Clone, Debug, PartialEq, Eq, Structural)]
pub enum ServiceDisconnectReason {
    /// The service is shutting down.
    Shutdown,
    /// An upgrade handler took the connection.
    UpgradeHandled,
    /// An upgrade was refused.
    UpgradeFailed,
    /// An expectation was refused.
    ExpectFailed,
    /// The request payload was dropped before it was complete.
    PayloadDropped,
}

/// Messages to the control service.
#[derive(Debug)]
pub enum Control<Fault> {
    /// New connection
    Connect(Connection),
    /// New request
    Request(NewRequest),
    /// Request asks for an upgrade
    Upgrade(Upgrade),
    /// Request expects `100 Continue`
    Expect(Expect),
    /// The connection ends
    Disconnect(Reason<Fault>),
}

/// Why a connection ends.
#[derive(Debug)]
pub enum Reason<Fault> {
    /// The service asked for it
    Service(ServiceDisconnect),
    /// The service failed
    Error(Error<Fault>),
    /// The protocol was violated
    ProtocolError(ProtocolError),
    /// The peer is gone
    PeerGone(PeerGone),
    /// Keep-alive ended
    KeepAlive(KeepAlive),
}

/// Acknowledgement of a control message.
#[derive(Debug)]
pub struct ControlAck {
    pub result: ControlResult,
}

/// What to do next.
#[derive(Debug)]
pub enum ControlResult {
    /// handle connection
    Connect,
    /// continue an expectation
    Continue(Request),
    /// handle request expect
    Expect(Request),
    /// handle request upgrade
    Upgrade(Request),
    /// upgrade is acknowledged
    UpgradeAck(Request),
    /// upgrade handler took the connection
    UpgradeHandled,
    /// pass request to publish service
    Publish(Request),
    /// respond
    Response(Response<()>, Body),
    /// service error
    Error(Response<()>, Body),
    /// protocol error
    ProtocolError(Response<()>, Body),
    /// upgrade is refused
    UpgradeFailed(Response<()>, Body),
    /// expectation is refused
    ExpectFailed(Response<()>, Body),
    /// stop
    Stop,
}

/// The body that a response holds.
pub open spec fn held(b: ResponseBody<Body>) -> Body {
    match b {
        ResponseBody::Body(b) => b,
        ResponseBody::Other(b) => b,
    }
}

/// A head and a body are those of a response.
pub open spec fn parts_of(res: Response<()>, body: Body, whole: Response<Body>) -> bool {
    res.head == whole.head && res.body == ResponseBody::Body(()) && body == held(whole.body)
}

fn split(res: Response<Body>) -> (r: (Response<()>, Body))
    ensures
        parts_of(r.0, r.1, res),
{
    let (res, body) = res.into_parts();
    let body = match body {
        ResponseBody::Body(b) => b,
        ResponseBody::Other(b) => b,
    };
    (res, body)
}

/// The acknowledgement of a new request: an expectation comes first, then an
/// upgrade.
pub open spec fn request_ack(req: Request) -> ControlResult {
    if req.head.flags.expect {
        ControlResult::Expect(req)
    } else if req.head.flags.upgrade || req.head.method is CONNECT {
        ControlResult::Upgrade(req)
    } else {
        ControlResult::Publish(req)
    }
}

impl<Fault: ResponseError> Control<Fault> {
    /// New connection
    pub fn connect(id: usize) -> (r: Control<Fault>)
        ensures
            r == Control::<Fault>::Connect(Connection { id }),
    {
        Control::Connect(Connection { id })
    }

    /// New request
    pub fn request(req: Request) -> (r: Control<Fault>)
        ensures
            r == Control::<Fault>::Request(NewRequest { req }),
    {
        Control::Request(NewRequest { req })
    }

    /// Request asks for an upgrade
    pub fn upgrade(req: Request, codec: Codec) -> (r: Control<Fault>)
        ensures
            r == Control::<Fault>::Upgrade(Upgrade { req, codec }),
    {
        Control::Upgrade(Upgrade { req, codec })
    }

    /// Request expects `100 Continue`
    pub fn expect(req: Request) -> (r: Control<Fault>)
        ensures
            r == Control::<Fault>::Expect(Expect { req }),
    {
        Control::Expect(Expect { req })
    }

    /// The service failed
    pub fn err(err: Fault) -> (r: Control<Fault>)
        ensures
            r matches Control::Disconnect(Reason::Error(e)) && e.err == err && err.answered_with(
                e.pkt,
            ),
    {
        Control::Disconnect(Reason::Error(Error::new(err)))
    }

    /// The peer is gone
    pub fn peer_gone(err: Option<IoError>) -> (r: Control<Fault>)
        ensures
            r == Control::<Fault>::Disconnect(Reason::PeerGone(PeerGone { err })),
    {
        Control::Disconnect(Reason::PeerGone(PeerGone { err }))
    }

    /// The protocol was violated
    pub fn proto_err(err: crate::h1::ProtocolError) -> (r: Control<Fault>)
        ensures
            r == Control::<Fault>::Disconnect(Reason::ProtocolError(ProtocolError { err })),
    {
        Control::Disconnect(Reason::ProtocolError(ProtocolError { err }))
    }

    /// Keep-alive ended
    pub fn keepalive(enabled: bool) -> (r: Control<Fault>)
        ensures
            r == Control::<Fault>::Disconnect(Reason::KeepAlive(KeepAlive { enabled })),
    {
        Control::Disconnect(Reason::KeepAlive(KeepAlive::new(enabled)))
    }

    /// The service asked for a disconnect
    pub fn svc_disconnect(reason: ServiceDisconnectReason) -> (r: Control<Fault>)
        ensures
            r == Control::<Fault>::Disconnect(Reason::Service(ServiceDisconnect { reason })),
    {
        Control::Disconnect(Reason::Service(ServiceDisconnect::new(reason)))
    }

    /// Ack control message
    pub fn ack(self) -> (r: ControlAck)
        ensures
            match self {
                Control::Connect(_) => r.result is Connect,
                Control::Request(m) => r.result == request_ack(m.req),
                Control::Upgrade(m) => r.result == ControlResult::UpgradeAck(m.req),
                Control::Expect(m) => r.result == ControlResult::Continue(m.req),
                Control::Disconnect(m) => reason_ack(m, r.result),
            },
    {
        match self {
            Control::Connect(msg) => msg.ack(),
            Control::Request(msg) => msg.ack(),
            Control::Upgrade(msg) => msg.ack(),
            Control::Expect(msg) => msg.ack(),
            Control::Disconnect(msg) => msg.ack(),
        }
    }
}

/// The acknowledgement of the end of a connection: errors are answered, the rest
/// stops the connection.
pub open spec fn reason_ack<Fault: ResponseError>(reason: Reason<Fault>, r: ControlResult) -> bool {
    match reason {
        Reason::Error(m) => r matches ControlResult::Error(res, body) && parts_of(
            res,
            body,
            m.pkt,
        ),
        Reason::ProtocolError(m) => r matches ControlResult::ProtocolError(res, body) && exists|
            whole: Response<Body>,
        | #[trigger] m.err.answered_with(whole) && parts_of(res, body, whole),
        _ => r is Stop,
    }
}

impl<Fault: ResponseError> Reason<Fault> {
    /// Ack control message
    pub fn ack(self) -> (r: ControlAck)
        ensures
            reason_ack(self, r.result),
    {
        match self {
            Reason::Error(msg) => msg.ack(),
            Reason::ProtocolError(msg) => msg.ack(),
            Reason::PeerGone(msg) => msg.ack(),
            Reason::KeepAlive(msg) => msg.ack(),
            Reason::Service(msg) => msg.ack(),
        }
    }
}

/// New connection
#[derive(Debug)]
pub struct Connection {
    pub id: usize,
}

impl Connection {
    /// Connection id
    pub fn id(&self) -> (r: usize)
        ensures
            r == self.id,
    {
        self.id
    }

    /// Ack connection
    pub fn ack(self) -> (r: ControlAck)
        ensures
            r.result is Connect,
    {
        ControlAck { result: ControlResult::Connect }
    }
}

/// New request
#[derive(Debug)]
pub struct NewRequest {
    pub req: Request,
}

impl NewRequest {
    /// Returns reference to http request
    pub fn get_ref(&self) -> (r: &Request)
        ensures
            *r == self.req,
    {
        &self.req
    }

    /// Returns mut reference to http request
    pub fn get_mut(&mut self) -> (r: &mut Request)
        ensures
            *r == old(self).req,
            final(self).req == *final(r),
    {
        &mut self.req
    }

    /// Ack request and continue handling process
    pub fn ack(self) -> (r: ControlAck)
        ensures
            r.result == request_ack(self.req),
    {
        let result = if self.req.head().expect() {
            ControlResult::Expect(self.req)
        } else if self.req.upgrade() {
            ControlResult::Upgrade(self.req)
        } else {
            ControlResult::Publish(self.req)
        };
        ControlAck { result }
    }

    /// Fail request handling
    pub fn fail<E: ResponseError>(self, err: E) -> (r: ControlAck)
        ensures
            exists|whole: Response<Body>| #[trigger]
                err.answered_with(whole) && (r.result matches ControlResult::Response(res, body)
                    && parts_of(res, body, whole)),
    {
        let (res, body) = split(err.error_response());
        ControlAck { result: ControlResult::Response(res, body) }
    }

    /// Fail request and send custom response
    pub fn fail_with(self, res: Response<Body>) -> (r: ControlAck)
        ensures
            r.result matches ControlResult::Response(head, body) && parts_of(head, body, res),
    {
        let (res, body) = split(res);
        ControlAck { result: ControlResult::Response(res, body) }
    }
}

/// Access to the connection of an upgraded request: it can be taken once.
#[derive(Debug, Copy, Clone, PartialEq, Eq, Structural)]
pub struct RequestIoAccess {
    pub taken: bool,
}

impl RequestIoAccess {
    /// The connection was not taken.
    pub fn new() -> (r: RequestIoAccess)
        ensures
            !r.taken,
    {
        RequestIoAccess { taken: false }
    }

    /// Whether the connection can still be reached.
    pub fn get(&self) -> (r: bool)
        ensures
            r == !self.taken,
    {
        !self.taken
    }

    /// Takes the connection. Returns whether it was there.
    pub fn take(&mut self) -> (r: bool)
        ensures
            r == !old(self).taken,
            final(self).taken,
    {
        let there = !self.taken;
        self.taken = true;
        there
    }
}

/// Request asks for an upgrade
#[derive(Debug)]
pub struct Upgrade {
    pub req: Request,
    pub codec: Codec,
}

impl Upgrade {
    /// Returns reference to http request
    pub fn get_ref(&self) -> (r: &Request)
        ensures
            *r == self.req,
    {
        &self.req
    }

    /// Returns mut reference to http request
    pub fn get_mut(&mut self) -> (r: &mut Request)
        ensures
            *r == old(self).req,
            final(self).req == *final(r),
            final(self).codec == old(self).codec,
    {
        &mut self.req
    }

    /// Ack upgrade request and continue handling process
    pub fn ack(self) -> (r: ControlAck)
        ensures
            r.result == ControlResult::UpgradeAck(self.req),
    {
        ControlAck { result: ControlResult::UpgradeAck(self.req) }
    }

    /// Handle upgrade request: the caller takes over the connection
    pub fn handle(self) -> (r: (ControlAck, Request, Codec))
        ensures
            r.0.result is UpgradeHandled,
            r.1 == self.req,
            r.2 == self.codec,
    {
        (ControlAck { result: ControlResult::UpgradeHandled }, self.req, self.codec)
    }

    /// Fail request handling
    pub fn fail<E: ResponseError>(self, err: E) -> (r: ControlAck)
        ensures
            exists|whole: Response<Body>| #[trigger]
                err.answered_with(whole) && (r.result matches ControlResult::UpgradeFailed(
                    res,
                    body,
                ) && parts_of(res, body, whole)),
    {
        let (res, body) = split(err.error_response());
        ControlAck { result: ControlResult::UpgradeFailed(res, body) }
    }

    /// Fail request and send custom response
    pub fn fail_with(self, res: Response<Body>) -> (r: ControlAck)
        ensures
            r.result matches ControlResult::UpgradeFailed(head, body) && parts_of(head, body, res),
    {
        let (res, body) = split(res);
        ControlAck { result: ControlResult::UpgradeFailed(res, body) }
    }
}

/// The service asked for a disconnect
#[derive(Debug)]
pub struct ServiceDisconnect {
    pub reason: ServiceDisconnectReason,
}

impl ServiceDisconnect {
    fn new(reason: ServiceDisconnectReason) -> (r: ServiceDisconnect)
        ensures
            r.reason == reason,
    {
        ServiceDisconnect { reason }
    }

    /// Service disconnect reason
    pub fn reason(&self) -> (r: ServiceDisconnectReason)
        ensures
            r == self.reason,
    {
        self.reason
    }

    /// Ack message
    pub fn ack(self) -> (r: ControlAck)
        ensures
            r.result is Stop,
    {
        ControlAck { result: ControlResult::Stop }
    }
}

/// Keep-alive ended
#[derive(Debug)]
pub struct KeepAlive {
    pub enabled: bool,
}

impl KeepAlive {
    /// Keep-alive ended
    pub fn new(enabled: bool) -> (r: KeepAlive)
        ensures
            r.enabled == enabled,
    {
        KeepAlive { enabled }
    }

    /// Connection keep-alive was enabled
    pub fn is_enabled(&self) -> (r: bool)
        ensures
            r == self.enabled,
    {
        self.enabled
    }

    /// Ack keep-alive timeout
    pub fn ack(self) -> (r: ControlAck)
        ensures
            r.result is Stop,
    {
        ControlAck { result: ControlResult::Stop }
    }
}

/// The service failed
#[derive(Debug)]
pub struct Error<Fault> {
    pub err: Fault,
    pub pkt: Response<Body>,
}

impl<Fault: ResponseError> Error<Fault> {
    fn new(err: Fault) -> (r: Error<Fault>)
        ensures
            r.err == err,
            err.answered_with(r.pkt),
    {
        Error { pkt: err.error_response(), err }
    }

    /// Returns reference to the error
    pub fn get_ref(&self) -> (r: &Fault)
        ensures
            *r == self.err,
    {
        &self.err
    }

    /// Returns mut reference to the error
    pub fn get_mut(&mut self) -> (r: &mut Fault)
        ensures
            *r == old(self).err,
            final(self).err == *final(r),
            final(self).pkt == old(self).pkt,
    {
        &mut self.err
    }

    /// Ack service error and close connection.
    pub fn ack(self) -> (r: ControlAck)
        ensures
            r.result matches ControlResult::Error(res, body) && parts_of(res, body, self.pkt),
    {
        let (res, body) = split(self.pkt);
        ControlAck { result: ControlResult::Error(res, body) }
    }

    /// Fail error handling
    pub fn fail<E: ResponseError>(self, err: E) -> (r: ControlAck)
        ensures
            exists|whole: Response<Body>| #[trigger]
                err.answered_with(whole) && (r.result matches ControlResult::Error(res, body)
                    && parts_of(res, body, whole)),
    {
        let (res, body) = split(err.error_response());
        ControlAck { result: ControlResult::Error(res, body) }
    }

    /// Fail error handling and send custom response
    pub fn fail_with(self, res: Response<Body>) -> (r: ControlAck)
        ensures
            r.result matches ControlResult::Error(head, body) && parts_of(head, body, res),
    {
        let (res, body) = split(res);
        ControlAck { result: ControlResult::Error(res, body) }
    }
}

/// The protocol was violated
#[derive(Debug)]
pub struct ProtocolError {
    pub err: crate::h1::ProtocolError,
}

impl ProtocolError {
    /// Returns error reference
    pub fn get_ref(&self) -> (r: &crate::h1::ProtocolError)
        ensures
            *r == self.err,
    {
        &self.err
    }

    /// Ack protocol error, respond with the status of the error and close the
    /// connection
    pub fn ack(self) -> (r: ControlAck)
        ensures
            r.result matches ControlResult::ProtocolError(res, body) && exists|
                whole: Response<Body>,
            | #[trigger] self.err.answered_with(whole) && parts_of(res, body, whole),
    {
        let (res, body) = split(self.err.error_response());
        ControlAck { result: ControlResult::ProtocolError(res, body) }
    }

    /// Fail error handling
    pub fn fail<E: ResponseError>(self, err: E) -> (r: ControlAck)
        ensures
            exists|whole: Response<Body>| #[trigger]
                err.answered_with(whole) && (r.result matches ControlResult::ProtocolError(
                    res,
                    body,
                ) && parts_of(res, body, whole)),
    {
        let (res, body) = split(err.error_response());
        ControlAck { result: ControlResult::ProtocolError(res, body) }
    }

    /// Fail error handling and send custom response
    pub fn fail_with(self, res: Response<Body>) -> (r: ControlAck)
        ensures
            r.result matches ControlResult::ProtocolError(head, body) && parts_of(head, body, res),
    {
        let (res, body) = split(res);
        ControlAck { result: ControlResult::ProtocolError(res, body) }
    }
}

/// The peer is gone
#[derive(Debug)]
pub struct PeerGone {
    pub err: Option<IoError>,
}

impl PeerGone {
    /// Returns error reference
    pub fn get_ref(&self) -> (r: Option<&IoError>)
        ensures
            match self.err {
                Some(e) => r == Some(&e),
                None => r is None,
            },
    {
        match &self.err {
            Some(e) => Some(e),
            None => None,
        }
    }

    /// Returns mutable error reference
    pub fn get_mut(&mut self) -> (r: Option<&mut IoError>)
        ensures
            match r {
                Some(e) => old(self).err == Some(*e) && final(self).err == Some(*final(e)),
                None => old(self).err is None && final(self).err is None,
            },
    {
        match &mut self.err {
            Some(e) => Some(e),
            None => None,
        }
    }

    /// Take error
    pub fn take(&mut self) -> (r: Option<IoError>)
        ensures
            r == old(self).err,
            final(self).err is None,
    {
        self.err.take()
    }

    /// Ack PeerGone message
    pub fn ack(self) -> (r: ControlAck)
        ensures
            r.result is Stop,
    {
        ControlAck { result: ControlResult::Stop }
    }
}

/// Request expects `100 Continue`
#[derive(Debug)]
pub struct Expect {
    pub req: Request,
}

impl Expect {
    /// Returns reference to http request
    pub fn get_ref(&self) -> (r: &Request)
        ensures
            *r == self.req,
    {
        &self.req
    }

    /// Returns mut reference to http request
    pub fn get_mut(&mut self) -> (r: &mut Request)
        ensures
            *r == old(self).req,
            final(self).req == *final(r),
    {
        &mut self.req
    }

    /// Ack expect request
    pub fn ack(self) -> (r: ControlAck)
        ensures
            r.result == ControlResult::Continue(self.req),
    {
        ControlAck { result: ControlResult::Continue(self.req) }
    }

    /// Fail request handling
    pub fn fail<E: ResponseError>(self, err: E) -> (r: ControlAck)
        ensures
            exists|whole: Response<Body>| #[trigger]
                err.answered_with(whole) && (r.result matches ControlResult::ExpectFailed(
                    res,
                    body,
                ) && parts_of(res, body, whole)),
    {
        let (res, body) = split(err.error_response());
        ControlAck { result: ControlResult::ExpectFailed(res, body) }
    }

    /// Fail request and send custom response
    pub fn fail_with(self, res: Response<Body>) -> (r: ControlAck)
        ensures
            r.result matches ControlResult::ExpectFailed(head, body) && parts_of(head, body, res),
    {
        let (res, body) = split(res);
        ControlAck { result: ControlResult::ExpectFailed(res, body) }
    }
}

/// Default control service: acknowledges every message.
#[derive(Debug, Copy, Clone)]
pub struct DefaultControlService;

impl DefaultControlService {
    /// Acknowledges a message.
    pub fn call<Fault: ResponseError>(&self, msg: Control<Fault>) -> (r: ControlAck)
        ensures
            match msg {
                Control::Connect(_) => r.result is Connect,
                Control::Request(m) => r.result == request_ack(m.req),
                Control::Upgrade(m) => r.result == ControlResult::UpgradeAck(m.req),
                Control::Expect(m) => r.result == ControlResult::Continue(m.req),
                Control::Disconnect(m) => reason_ack(m, r.result),
            },
    {
        msg.ack()
    }
}

/// Expectation handler that accepts every request.
#[derive(Debug, Copy, Clone)]
pub struct ExpectHandler;

impl ExpectHandler {
    /// Accepts the request.
    pub fn call(&self, req: Request) -> (r: Request)
        ensures
            r == req,
    {
        req
    }
}

} // verus!
