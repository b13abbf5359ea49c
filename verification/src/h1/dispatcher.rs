//! Decisions of the connection dispatcher.
//!
//! The dispatcher is a state machine: whoever drives the connection performs
//! what it asks for and hands back what happened.

use vstd::prelude::*;

use crate::config::{FrameReadRate, HttpServiceConfig};
use crate::error::{DecodeError, IoError, IoErrorKind, PayloadError};
use crate::h1::codec::Codec;
use crate::h1::control::{
    Control, KeepAlive, PeerGone, Reason, ServiceDisconnect, ServiceDisconnectReason,
};
use crate::h1::decoder::{ready, PayloadDecoder};
use crate::h1::timer::{
    done_ops, done_with_payload, first_period, next_budget, next_period, no_progress, not_writing,
    paused, started, writing, ReadProgress, Timer, TimerOp, Timers,
};
use crate::h1::ProtocolError;
use crate::message::ConnectionType;
use crate::request::Request;
use crate::response::ResponseError;
use crate::time::Seconds;

verus! {

/// Control service disconnect state
#[derive(Copy, Clone, Debug, PartialEq, Eq, Structural)]
pub enum Disconnect {
    /// No disconnect
    Open,
    /// Disconnect reason to send once the current response is written
    Pending(ServiceDisconnectReason),
    /// Disconnect control message has been sent
    Sent,
}

/// Why a request payload failed.
#[derive(Clone, Debug, PartialEq, Eq)]
pub enum PayloadFault {
    /// The protocol was violated.
    Protocol(ProtocolError),
    /// The peer is gone.
    Peer(Option<IoError>),
}

/// An order to the stream of a request payload.
#[derive(Clone, Debug, PartialEq, Eq)]
pub enum PayloadOp {
    /// Hands on bytes.
    Data(Vec<u8>),
    /// Ends the stream.
    Eof,
    /// Fails the stream.
    Error(PayloadError),
}

/// Orders that the dispatcher gave and that are still to be carried out.
#[derive(Debug)]
pub struct Effects {
    /// Orders to the timer of the transport.
    pub timer: Vec<TimerOp>,
    /// Orders to the stream of the request payload.
    pub payload: Vec<PayloadOp>,
    /// The transport is to be closed.
    pub close: bool,
}

impl Effects {
    /// No orders.
    pub fn new() -> (r: Effects)
        ensures
            r.timer@.len() == 0,
            r.payload@.len() == 0,
            !r.close,
    {
        Effects { timer: Vec::new(), payload: Vec::new(), close: false }
    }
}

/// What the dispatcher does next.
#[derive(Debug)]
pub enum Next<E> {
    /// Calls the service with a request.
    Publish(Request),
    /// Calls the control service.
    Control(Control<E>),
    /// Writes `100 Continue` for a request.
    WriteContinue(Request),
    /// Reads a request.
    ReadRequest,
    /// Reads the rest of a request payload.
    ReadPayload,
    /// Sends the body of a response.
    SendPayload,
    /// Shuts the transport down.
    Stop,
}

/// What an attempt to receive gives.
#[derive(Debug)]
pub enum Received<T> {
    /// Decoding went well: an item, or none yet; the bytes that it took, and
    /// the bytes that are left in the read buffer.
    Decoded(Option<T>, u32, u32),
    /// The timer of the transport fired.
    KeepAlive,
    /// Output has to be flushed first.
    WriteBackpressure,
    /// The bytes do not decode.
    Decoder(DecodeError),
    /// The peer is gone.
    PeerGone(Option<IoError>),
}

/// State of the transport while a service call runs.
#[derive(Debug)]
pub enum IoStatus {
    /// Nothing changed.
    Pending,
    /// The timer fired.
    KeepAlive,
    /// Output has to be flushed.
    WriteBackpressure,
    /// The peer is gone.
    PeerGone(Option<IoError>),
}

/// Readiness of the stream of a request payload.
#[derive(Copy, Clone, Debug, PartialEq, Eq, Structural)]
pub enum StreamStatus {
    /// The stream takes more data.
    Ready,
    /// The stream is full.
    Pending,
    /// Nobody reads the stream.
    Dropped,
}

/// What follows an attempt to read a request.
#[derive(Debug)]
pub enum ReadStep<E> {
    /// Waits for more bytes.
    Pending,
    /// Tries again.
    Again,
    /// Flushes output, and tries again.
    Flush,
    /// Goes on to something else.
    Goto(Next<E>),
}

/// What follows an attempt to read a piece of a request payload.
#[derive(Debug)]
pub enum PayloadStep {
    /// Tries again; an item came.
    Item,
    /// Tries again.
    Again,
    /// Flushes output, and tries again.
    Flush,
    /// Stops for now.
    Wait,
    /// The payload has ended.
    Ended,
    /// The payload failed.
    Fault(PayloadFault),
}

/// Dispatcher for HTTP/1.1 protocol
#[derive(Debug)]
pub struct Dispatcher {
    pub codec: Codec,
    pub timers: Timers,
    pub disconnect: Disconnect,
    pub payload: Option<PayloadDecoder>,
    pub pending_payload_error: Option<PayloadFault>,
}

/// Text of a write timeout.
pub open spec fn is_write_timeout(e: IoError) -> bool {
    e.kind == IoErrorKind::TimedOut && e.text@ == "Write backpressure timeout"@
}

/// The error of output that could not be written in time.
pub fn write_timeout_error() -> (r: IoError)
    ensures
        is_write_timeout(r),
{
    IoError { kind: IoErrorKind::TimedOut, text: "Write backpressure timeout".to_owned() }
}

/// The orders of the timer were extended by others, the rest is as it was.
pub open spec fn timer_orders(fx: Effects, before: Effects, ops: Seq<TimerOp>) -> bool {
    &&& fx.timer@ == before.timer@ + ops
    &&& fx.payload == before.payload
    &&& fx.close == before.close
}

/// No order was given.
pub open spec fn no_orders(fx: Effects, before: Effects) -> bool {
    timer_orders(fx, before, Seq::empty())
}

/// The stream of the payload was failed, where there is one; otherwise no order
/// was given.
pub open spec fn payload_failed(
    fx: Effects,
    before: Effects,
    payload: Option<PayloadDecoder>,
) -> bool {
    &&& fx.timer@ == before.timer@
    &&& fx.close == before.close
    &&& if payload is Some {
        &&& fx.payload@.len() == before.payload@.len() + 1
        &&& fx.payload@.drop_last() == before.payload@
        &&& fx.payload@.last() is Error
    } else {
        fx.payload@ == before.payload@
    }
}

impl Dispatcher {
    /// Configuration.
    pub open spec fn cfg(self) -> HttpServiceConfig {
        self.codec.decoder.cfg
    }

    /// The dispatcher of a new connection.
    pub fn new(id: usize, cfg: HttpServiceConfig, fx: &mut Effects) -> (r: Dispatcher)
        ensures
            ready(r.codec.decoder),
            r.cfg() == cfg,
            r.codec.con_id == id,
            r.timers == (Timers { active: Timer::ClientTimeout, progress: no_progress() }),
            r.disconnect == Disconnect::Open,
            r.payload is None,
            r.pending_payload_error is None,
            timer_orders(
                *final(fx),
                *old(fx),
                match cfg.headers_read_rate {
                    Some(rate) => seq![TimerOp::Stop, TimerOp::Start(rate.timeout)],
                    None => seq![TimerOp::Stop],
                },
            ),
    {
        let codec = Codec::new(id, cfg);
        let timers = Timers::new(&mut fx.timer, cfg.headers_read_rate);
        Dispatcher {
            codec,
            timers,
            disconnect: Disconnect::Open,
            payload: None,
            pending_payload_error: None,
        }
    }

    // -----------------------------------------------------------------------
    // Disconnects
    // -----------------------------------------------------------------------

    /// Stops the dispatcher.
    pub fn stop<E>(&mut self, fx: &mut Effects) -> (r: Next<E>)
        ensures
            r is Stop,
            *final(self) == (Dispatcher {
                timers: Timers { active: Timer::Stopped, ..old(self).timers },
                ..*old(self)
            }),
            timer_orders(*final(fx), *old(fx), seq![TimerOp::Stop]),
    {
        self.timers.stop(&mut fx.timer);
        assert(fx.timer@ =~= old(fx).timer@ + seq![TimerOp::Stop]);
        Next::Stop
    }

    /// Records a disconnect reason, unless a disconnect has been sent.
    pub fn set_disconnect(&mut self, reason: ServiceDisconnectReason)
        ensures
            *final(self) == (Dispatcher {
                disconnect: if old(self).disconnect == Disconnect::Sent {
                    Disconnect::Sent
                } else {
                    Disconnect::Pending(reason)
                },
                ..*old(self)
            }),
    {
        if self.disconnect != Disconnect::Sent {
            self.disconnect = Disconnect::Pending(reason);
        }
    }

    /// Tells the control service that the connection ends. Where it was told
    /// before, the dispatcher stops.
    pub fn ctl_disconnect<E>(&mut self, req: Control<E>, fx: &mut Effects) -> (r: Next<E>)
        ensures
            disconnected(*old(self), *final(self), *old(fx), *final(fx), req, r),
    {
        let was = self.disconnect;
        self.disconnect = Disconnect::Sent;
        if was == Disconnect::Sent {
            self.stop(fx)
        } else {
            assert(fx.timer@ =~= old(fx).timer@ + Seq::<TimerOp>::empty());
            Next::Control(req)
        }
    }

    /// Looks for a disconnect that is due once a response was written.
    pub fn check_disconnect<E: ResponseError>(&mut self, fx: &mut Effects) -> (r: Option<Next<E>>)
        ensures
            due(*old(self), *final(self), *old(fx), *final(fx), r),
    {
        match self.disconnect {
            Disconnect::Open => None,
            Disconnect::Pending(reason) => {
                self.disconnect = Disconnect::Sent;
                assert(fx.timer@ =~= old(fx).timer@ + Seq::<TimerOp>::empty());
                Some(Next::Control(Control::svc_disconnect(reason)))
            },
            Disconnect::Sent => Some(self.stop(fx)),
        }
    }

    /// Keep-alive ended.
    pub fn ctl_keepalive<E: ResponseError>(&mut self, enabled: bool, fx: &mut Effects) -> (r: Next<E>)
        ensures
            disconnected(
                *old(self),
                *final(self),
                *old(fx),
                *final(fx),
                Control::<E>::Disconnect(Reason::KeepAlive(KeepAlive { enabled })),
                r,
            ),
    {
        self.ctl_disconnect(Control::keepalive(enabled), fx)
    }

    /// The service failed.
    pub fn ctl_error<E: ResponseError>(&mut self, err: E, fx: &mut Effects) -> (r: Next<E>)
        ensures
            exists|msg: Control<E>| #[trigger]
                disconnected(*old(self), *final(self), *old(fx), *final(fx), msg, r) && (
                msg matches Control::Disconnect(Reason::Error(e)) && e.err == err
                    && err.answered_with(e.pkt)),
    {
        let msg = Control::err(err);
        self.ctl_disconnect(msg, fx)
    }

    /// The protocol was violated.
    pub fn ctl_proto_err<E: ResponseError>(&mut self, err: ProtocolError, fx: &mut Effects) -> (r: Next<
        E,
    >)
        ensures
            disconnected(
                *old(self),
                *final(self),
                *old(fx),
                *final(fx),
                proto_msg::<E>(err),
                r,
            ),
    {
        self.ctl_disconnect(Control::proto_err(err), fx)
    }

    /// The peer is gone.
    pub fn ctl_peer_gone<E: ResponseError>(
        &mut self,
        err: Option<IoError>,
        fx: &mut Effects,
    ) -> (r: Next<E>)
        ensures
            disconnected(*old(self), *final(self), *old(fx), *final(fx), peer_msg::<E>(err), r),
    {
        self.ctl_disconnect(Control::peer_gone(err), fx)
    }

    /// The service asked for a disconnect.
    pub fn ctl_svc_disconnect<E: ResponseError>(
        &mut self,
        reason: ServiceDisconnectReason,
        fx: &mut Effects,
    ) -> (r: Next<E>)
        ensures
            disconnected(*old(self), *final(self), *old(fx), *final(fx), svc_msg::<E>(reason), r),
    {
        self.ctl_disconnect(Control::svc_disconnect(reason), fx)
    }

    // -----------------------------------------------------------------------
    // Timers
    // -----------------------------------------------------------------------

    /// Stops the write timer if write backpressure has been disabled.
    pub fn release_write_timer(&mut self, backpressure: bool, fx: &mut Effects)
        ensures
            *final(self) == (Dispatcher {
                timers: released(old(self).timers, backpressure),
                ..*old(self)
            }),
            timer_orders(*final(fx), *old(fx), release_ops(old(self).timers, backpressure)),
    {
        if self.timers.active.is_write() && !backpressure {
            self.timers.stop_write(&mut fx.timer);
        }
        assert(fx.timer@ =~= old(fx).timer@ + release_ops(old(self).timers, backpressure));
    }

    /// Starts the write timer. `unused` is what is left on the timer.
    pub fn start_write_timer(&mut self, unused: Seconds, fx: &mut Effects)
        ensures
            *final(self) == (Dispatcher {
                timers: write_started(old(self).timers, old(self).cfg().write_timeout, unused),
                ..*old(self)
            }),
            timer_orders(
                *final(fx),
                *old(fx),
                write_start_ops(old(self).timers, old(self).cfg().write_timeout),
            ),
    {
        self.timers.start_write(&mut fx.timer, self.codec.decoder.cfg.write_timeout, unused);
        assert(fx.timer@ =~= old(fx).timer@ + write_start_ops(
            old(self).timers,
            old(self).cfg().write_timeout,
        ));
    }

    /// Pauses payload timing. `unused` is what is left on the timer.
    pub fn pause_payload_timer(&mut self, unused: Seconds, fx: &mut Effects)
        ensures
            *final(self) == (Dispatcher { timers: paused(old(self).timers, unused), ..*old(self) }),
            timer_orders(*final(fx), *old(fx), pause_ops(old(self).timers)),
    {
        self.timers.pause_payload(&mut fx.timer, unused);
        assert(fx.timer@ =~= old(fx).timer@ + pause_ops(old(self).timers));
    }

    /// Starts payload timing for the current request if it is not started
    /// yet, an expectation can be handled without `100 Continue`.
    pub fn start_payload_timer(&mut self, fx: &mut Effects)
        ensures
            *final(self) == payload_timed(*old(self)),
            timer_orders(*final(fx), *old(fx), payload_timed_ops(*old(self))),
    {
        if self.payload.is_some() && (self.timers.active == Timer::Stopped || self.timers.active
            == Timer::Write) {
            self.timers.start_payload(&mut fx.timer, self.codec.decoder.cfg.payload_read_rate);
        }
        assert(fx.timer@ =~= old(fx).timer@ + payload_timed_ops(*old(self)));
    }

    /// Fails the payload that is being read, if there is one.
    pub(crate) fn set_payload_error(&mut self, err: PayloadError, fx: &mut Effects)
        ensures
            *final(self) == *old(self),
            payload_failed(*final(fx), *old(fx), old(self).payload),
            old(self).payload is Some ==> final(fx).payload@.last() == PayloadOp::Error(err),
    {
        if self.payload.is_some() {
            fx.payload.push(PayloadOp::Error(err));
            assert(fx.payload@.drop_last() =~= old(fx).payload@);
        }
    }

    /// The timer fired while a request or its payload was read: grants another
    /// period where the read rate was kept.
    pub fn handle_timeout(&mut self, fx: &mut Effects) -> (r: Result<(), ProtocolError>)
        ensures
            timed_out(*old(self), *final(self), *old(fx), *final(fx), r),
    {
        let (cfg, payload) = match self.timers.active {
            Timer::Headers => (self.codec.decoder.cfg.headers_read_rate, false),
            Timer::Payload => (self.codec.decoder.cfg.payload_read_rate, true),
            _ => {
                assert(fx.timer@ =~= old(fx).timer@ + Seq::<TimerOp>::empty());
                return Ok(());
            },
        };
        let cfg = match cfg {
            Some(cfg) => cfg,
            None => {
                assert(fx.timer@ =~= old(fx).timer@ + Seq::<TimerOp>::empty());
                return Ok(());
            },
        };
        if self.timers.extend(&mut fx.timer, cfg) {
            let ghost next = next_period(cfg, old(self).timers.progress.max_timeout)->0;
            assert(fx.timer@ =~= old(fx).timer@ + seq![TimerOp::Start(next)]);
            return Ok(());
        }
        assert(fx.timer@ =~= old(fx).timer@ + Seq::<TimerOp>::empty());
        if payload {
            self.set_payload_error(
                PayloadError::Io(
                    IoError {
                        kind: IoErrorKind::TimedOut,
                        text: "Payload read timeout".to_owned(),
                    },
                ),
                fx,
            );
            Err(ProtocolError::SlowPayloadTimeout)
        } else {
            Err(ProtocolError::SlowRequestTimeout)
        }
    }

    fn start_headers_timer(&mut self, consumed: u32, remains: u32, fx: &mut Effects)
        ensures
            *final(self) == (Dispatcher {
                timers: head_timed(
                    old(self).timers,
                    old(self).cfg().headers_read_rate,
                    consumed,
                    remains,
                ),
                ..*old(self)
            }),
            timer_orders(
                *final(fx),
                *old(fx),
                head_timed_ops(old(self).cfg().headers_read_rate),
            ),
    {
        self.timers.start_headers(
            &mut fx.timer,
            self.codec.decoder.cfg.headers_read_rate,
            consumed,
            remains,
        );
        assert(fx.timer@ =~= old(fx).timer@ + head_timed_ops(old(self).cfg().headers_read_rate));
    }

    fn start_keepalive_timer(&mut self, fx: &mut Effects)
        ensures
            *final(self) == (Dispatcher {
                timers: Timers { active: Timer::KeepAlive, ..old(self).timers },
                ..*old(self)
            }),
            timer_orders(*final(fx), *old(fx), keepalive_ops(*old(self))),
    {
        self.timers.start_keepalive(&mut fx.timer, self.codec.decoder.cfg.keep_alive);
        assert(fx.timer@ =~= old(fx).timer@ + keepalive_ops(*old(self)));
    }

    /// An attempt to decode a request head went well: adjusts the timers.
    /// `got` says whether a request came out.
    pub fn update_hdrs_timer<E: ResponseError>(
        &mut self,
        got: bool,
        consumed: u32,
        remains: u32,
        fx: &mut Effects,
    ) -> (r: Option<Next<E>>)
        ensures
            head_attempt(
                *old(self),
                *final(self),
                *old(fx),
                *final(fx),
                got,
                consumed,
                remains,
                r,
            ),
    {
        if got {
            self.timers.reset(&mut fx.timer);
        } else if self.timers.active == Timer::Headers {
            // received new data but not enough for parsing complete frame
            self.timers.progress.remains = remains;
            assert(fx.timer@ =~= old(fx).timer@ + Seq::<TimerOp>::empty());
        } else if self.timers.active == Timer::ClientTimeout {
            // only the headers read rate bounds the first request, it starts
            // with the first received byte
            if (self.codec.is_reading_hdrs() || remains != 0)
                && self.codec.decoder.cfg.headers_read_rate.is_some() {
                self.start_headers_timer(consumed.saturating_add(remains), remains, fx);
            } else {
                assert(fx.timer@ =~= old(fx).timer@ + Seq::<TimerOp>::empty());
            }
        } else if self.codec.is_reading_hdrs() || remains != 0 {
            // partial request head, without a headers read rate the
            // keep-alive timer bounds it
            if self.codec.decoder.cfg.headers_read_rate.is_some() {
                self.start_headers_timer(consumed.saturating_add(remains), remains, fx);
            } else if self.codec.decoder.cfg.ka_enabled {
                self.start_keepalive_timer(fx);
            } else {
                assert(fx.timer@ =~= old(fx).timer@ + Seq::<TimerOp>::empty());
            }
        } else if self.codec.keepalive() {
            // no new data, start keep-alive timer
            if self.codec.decoder.cfg.ka_enabled {
                self.start_keepalive_timer(fx);
            } else {
                assert(fx.timer@ =~= old(fx).timer@ + Seq::<TimerOp>::empty());
            }
        } else {
            fx.close = true;
            return Some(self.ctl_keepalive(false, fx));
        }
        None
    }

}

// ---------------------------------------------------------------------------
// What the decisions are
// ---------------------------------------------------------------------------

/// Message that the protocol was violated.
pub open spec fn proto_msg<E>(err: ProtocolError) -> Control<E> {
    Control::Disconnect(Reason::ProtocolError(crate::h1::control::ProtocolError { err }))
}

/// Message that the peer is gone.
pub open spec fn peer_msg<E>(err: Option<IoError>) -> Control<E> {
    Control::Disconnect(Reason::PeerGone(PeerGone { err }))
}

/// Message that the service asked for a disconnect.
pub open spec fn svc_msg<E>(reason: ServiceDisconnectReason) -> Control<E> {
    Control::Disconnect(Reason::Service(ServiceDisconnect { reason }))
}

/// The control service is told of the end of the connection once. A second end
/// stops the dispatcher.
pub open spec fn disconnected<E>(
    d: Dispatcher,
    after: Dispatcher,
    fx: Effects,
    fx_after: Effects,
    msg: Control<E>,
    r: Next<E>,
) -> bool {
    if d.disconnect == Disconnect::Sent {
        &&& r is Stop
        &&& after == (Dispatcher {
            timers: Timers { active: Timer::Stopped, ..d.timers },
            ..d
        })
        &&& timer_orders(fx_after, fx, seq![TimerOp::Stop])
    } else {
        &&& r == Next::Control(msg)
        &&& after == (Dispatcher { disconnect: Disconnect::Sent, ..d })
        &&& no_orders(fx_after, fx)
    }
}

/// A disconnect that is due once a response was written: a pending reason is
/// sent, after a message was sent the dispatcher stops.
pub open spec fn due<E>(
    d: Dispatcher,
    after: Dispatcher,
    fx: Effects,
    fx_after: Effects,
    r: Option<Next<E>>,
) -> bool {
    match d.disconnect {
        Disconnect::Open => r is None && after == d && fx_after == fx,
        Disconnect::Pending(reason) => {
            &&& r == Some(Next::Control(svc_msg::<E>(reason)))
            &&& after == (Dispatcher { disconnect: Disconnect::Sent, ..d })
            &&& no_orders(fx_after, fx)
        },
        Disconnect::Sent => {
            &&& r matches Some(n)
            &&& n is Stop
            &&& after == (Dispatcher {
                timers: Timers { active: Timer::Stopped, ..d.timers },
                ..d
            })
            &&& timer_orders(fx_after, fx, seq![TimerOp::Stop])
        },
    }
}

/// The timers once write backpressure was looked at.
pub open spec fn released(t: Timers, backpressure: bool) -> Timers {
    if backpressure {
        t
    } else {
        not_writing(t)
    }
}

/// The orders once write backpressure was looked at.
pub open spec fn release_ops(t: Timers, backpressure: bool) -> Seq<TimerOp> {
    if t.active.for_write() && !backpressure {
        seq![TimerOp::Stop]
    } else {
        Seq::empty()
    }
}

/// The timers with the write timer started, where there is a write timeout.
pub open spec fn write_started(t: Timers, timeout: Seconds, unused: Seconds) -> Timers {
    if timeout.0 == 0 || t.active.for_write() {
        t
    } else {
        writing(t, unused)
    }
}

/// The orders that start the write timer.
pub open spec fn write_start_ops(t: Timers, timeout: Seconds) -> Seq<TimerOp> {
    if timeout.0 == 0 || t.active.for_write() {
        Seq::empty()
    } else if t.active == Timer::Payload {
        seq![TimerOp::Stop, TimerOp::Stop, TimerOp::Start(timeout)]
    } else {
        seq![TimerOp::Stop, TimerOp::Start(timeout)]
    }
}

/// The orders that pause payload timing.
pub open spec fn pause_ops(t: Timers) -> Seq<TimerOp> {
    if t.active == Timer::Payload {
        seq![TimerOp::Stop]
    } else {
        Seq::empty()
    }
}

/// Payload timing starts: there is a payload, a rate, and no read timer runs.
pub open spec fn starts_payload(d: Dispatcher) -> bool {
    d.payload is Some && (d.timers.active == Timer::Stopped || d.timers.active == Timer::Write)
        && d.cfg().payload_read_rate is Some
}

/// The dispatcher with payload timing started.
pub open spec fn payload_timed(d: Dispatcher) -> Dispatcher {
    if starts_payload(d) {
        let cfg = d.cfg().payload_read_rate->0;
        let t = Timers { progress: ReadProgress { consumed: 0, ..d.timers.progress }, ..d.timers };
        let (period, max_timeout) = first_period(cfg.timeout, cfg.max_timeout);
        Dispatcher {
            timers: if d.timers.active == Timer::Write {
                Timers {
                    active: Timer::WriteWithPayload,
                    progress: ReadProgress { period, max_timeout, ..t.progress },
                }
            } else {
                started(t, Timer::Payload, cfg, cfg.max_timeout)
            },
            ..d
        }
    } else {
        d
    }
}

/// The orders that start payload timing.
pub open spec fn payload_timed_ops(d: Dispatcher) -> Seq<TimerOp> {
    if starts_payload(d) && d.timers.active == Timer::Stopped {
        let cfg = d.cfg().payload_read_rate->0;
        seq![TimerOp::Start(first_period(cfg.timeout, cfg.max_timeout).0)]
    } else {
        Seq::empty()
    }
}

/// The read rate that the armed timer stands for.
pub open spec fn timed_rate(d: Dispatcher) -> Option<FrameReadRate> {
    match d.timers.active {
        Timer::Headers => d.cfg().headers_read_rate,
        Timer::Payload => d.cfg().payload_read_rate,
        _ => None,
    }
}

/// The timer fired. Where the read rate was kept and the budget allows it,
/// another period starts; otherwise the request, or its payload, is too slow.
pub open spec fn timed_out(
    d: Dispatcher,
    after: Dispatcher,
    fx: Effects,
    fx_after: Effects,
    r: Result<(), ProtocolError>,
) -> bool {
    match timed_rate(d) {
        None => r is Ok && after == d && no_orders(fx_after, fx),
        Some(cfg) => {
            let p = d.timers.progress;
            let next = next_period(cfg, p.max_timeout);
            let kept = p.consumed > cfg.rate && next is Some;
            &&& after == (Dispatcher {
                timers: Timers {
                    progress: ReadProgress {
                        consumed: 0,
                        max_timeout: if kept {
                            next_budget(cfg, p.max_timeout)
                        } else {
                            p.max_timeout
                        },
                        ..p
                    },
                    ..d.timers
                },
                ..d
            })
            &&& if kept {
                r is Ok && timer_orders(fx_after, fx, seq![TimerOp::Start(next->0)])
            } else if d.timers.active == Timer::Payload {
                &&& r == Err::<(), ProtocolError>(ProtocolError::SlowPayloadTimeout)
                &&& payload_failed(fx_after, fx, d.payload)
                &&& d.payload is Some ==> (fx_after.payload@.last() matches PayloadOp::Error(
                    PayloadError::Io(e),
                ) && e.kind == IoErrorKind::TimedOut && e.text@ == "Payload read timeout"@)
            } else {
                r == Err::<(), ProtocolError>(ProtocolError::SlowRequestTimeout) && no_orders(
                    fx_after,
                    fx,
                )
            }
        },
    }
}

/// The timers with request-head timing started, or stopped without a rate.
pub open spec fn head_timed(
    t: Timers,
    rate: Option<FrameReadRate>,
    consumed: u32,
    remains: u32,
) -> Timers {
    let t = Timers { progress: ReadProgress { remains, consumed, ..t.progress }, ..t };
    match rate {
        Some(cfg) => started(t, Timer::Headers, cfg, cfg.max_timeout),
        None => Timers { active: Timer::Stopped, ..t },
    }
}

/// The orders that start request-head timing.
pub open spec fn head_timed_ops(rate: Option<FrameReadRate>) -> Seq<TimerOp> {
    match rate {
        Some(cfg) => seq![TimerOp::Start(first_period(cfg.timeout, cfg.max_timeout).0)],
        None => seq![TimerOp::Stop],
    }
}

/// The orders that start the keep-alive timer, unless it runs.
pub open spec fn keepalive_ops(d: Dispatcher) -> Seq<TimerOp> {
    if d.timers.active == Timer::KeepAlive {
        Seq::empty()
    } else {
        seq![TimerOp::Start(d.cfg().keep_alive)]
    }
}

/// What an attempt to decode a request head does to the timers.
pub enum HeadTiming {
    /// The head is complete.
    Reset,
    /// The head makes progress.
    Progress,
    /// The head began.
    StartHead,
    /// The connection is idle, or a head without a rate of its own began.
    StartKeepAlive,
    /// Nothing.
    Keep,
    /// The connection is not kept alive.
    Close,
}

/// What an attempt to decode a request head does to the timers.
pub open spec fn head_timing(d: Dispatcher, got: bool, remains: u32) -> HeadTiming {
    let partial = d.codec.decoder.hdrs || remains != 0;
    let rated = d.cfg().headers_read_rate is Some;
    if got {
        HeadTiming::Reset
    } else if d.timers.active == Timer::Headers {
        HeadTiming::Progress
    } else if d.timers.active == Timer::ClientTimeout {
        if partial && rated {
            HeadTiming::StartHead
        } else {
            HeadTiming::Keep
        }
    } else if partial {
        if rated {
            HeadTiming::StartHead
        } else if d.cfg().ka_enabled {
            HeadTiming::StartKeepAlive
        } else {
            HeadTiming::Keep
        }
    } else if d.codec.ctype == ConnectionType::KeepAlive {
        if d.cfg().ka_enabled {
            HeadTiming::StartKeepAlive
        } else {
            HeadTiming::Keep
        }
    } else {
        HeadTiming::Close
    }
}

/// What follows an attempt to decode a request head.
pub open spec fn head_attempt<E>(
    d: Dispatcher,
    after: Dispatcher,
    fx: Effects,
    fx_after: Effects,
    got: bool,
    consumed: u32,
    remains: u32,
    r: Option<Next<E>>,
) -> bool {
    match head_timing(d, got, remains) {
        HeadTiming::Reset => {
            &&& r is None
            &&& after == (Dispatcher {
                timers: done_with_payload(Timers { progress: no_progress(), ..d.timers }),
                ..d
            })
            &&& timer_orders(fx_after, fx, done_ops(d.timers))
        },
        HeadTiming::Progress => {
            &&& r is None
            &&& after == (Dispatcher {
                timers: Timers {
                    progress: ReadProgress { remains, ..d.timers.progress },
                    ..d.timers
                },
                ..d
            })
            &&& no_orders(fx_after, fx)
        },
        HeadTiming::StartHead => {
            &&& r is None
            &&& after == (Dispatcher {
                timers: head_timed(
                    d.timers,
                    d.cfg().headers_read_rate,
                    crate::h1::timer::saturated(consumed + remains),
                    remains,
                ),
                ..d
            })
            &&& timer_orders(fx_after, fx, head_timed_ops(d.cfg().headers_read_rate))
        },
        HeadTiming::StartKeepAlive => {
            &&& r is None
            &&& after == (Dispatcher {
                timers: Timers { active: Timer::KeepAlive, ..d.timers },
                ..d
            })
            &&& timer_orders(fx_after, fx, keepalive_ops(d))
        },
        HeadTiming::Keep => r is None && after == d && no_orders(fx_after, fx),
        HeadTiming::Close => r matches Some(n) && disconnected(
            d,
            after,
            Effects { close: true, ..fx },
            fx_after,
            Control::<E>::Disconnect(Reason::KeepAlive(KeepAlive { enabled: false })),
            n,
        ),
    }
}

/// Once the control service was told of the end of a connection, it is not told
/// again: whatever end follows, the dispatcher stops.
pub proof fn told_once<E>(
    d: Dispatcher,
    after: Dispatcher,
    fx: Effects,
    fx_after: Effects,
    msg: Control<E>,
    r: Next<E>,
)
    requires
        disconnected(d, after, fx, fx_after, msg, r),
    ensures
        after.disconnect == Disconnect::Sent,
        d.disconnect == Disconnect::Sent ==> r is Stop,
        r is Control ==> d.disconnect != Disconnect::Sent,
{
}

} // verus!
