//! Decisions of the connection dispatcher on requests, payloads and responses.

use vstd::prelude::*;

use crate::body::{Body, BodySize, MessageBody, StreamPoll};
use crate::config::{DateService, DATE_LIMIT};
use crate::error::{
    copy_decode_error, copy_io_error, EncodeError, IoError, IoErrorKind, PayloadError,
};
use crate::h1::codec::{connection_with, Codec};
use crate::h1::control::{
    Control, ControlResult, KeepAlive, NewRequest, Reason, ServiceDisconnectReason,
};
use crate::h1::decoder::{ready, PayloadDecoder, PayloadItem, PayloadType};
use crate::h1::dispatcher::{
    disconnected, due, head_attempt, head_timed, head_timed_ops, is_write_timeout, no_orders,
    pause_ops, payload_failed, payload_timed, payload_timed_ops, peer_msg, proto_msg, release_ops,
    released, svc_msg, timed_out, timer_orders, write_start_ops, write_started,
    write_timeout_error, Disconnect, Dispatcher, Effects, IoStatus, Next, PayloadFault, PayloadOp,
    PayloadStep, ReadStep, Received, StreamStatus,
};
use crate::h1::encoder::{
    body_coding, encoded, encoder_after, eof_encoded, is_head_of, may_end, TransferEncodingKind,
};
use crate::h1::timer::{
    done_ops, done_with_payload, not_writing, paused, payload_ops, payload_progress, saturated,
    ReadProgress, Timer, TimerOp, Timers,
};
use crate::h1::{Message, ProtocolError};
use crate::message::{flags_with, ConnectionType, ResponseHead};
use crate::payload::Payload;
use crate::request::Request;
use crate::response::{Response, ResponseError};
use crate::time::Seconds;

verus! {

// ---------------------------------------------------------------------------
// Reading requests
// ---------------------------------------------------------------------------

/// The timers once the length of the read buffer was looked at.
pub open spec fn buffered_timers(t: Timers, buffered: u32) -> Timers {
    if t.active == Timer::Headers {
        Timers {
            progress: ReadProgress {
                consumed: saturated(
                    t.progress.consumed + saturated(buffered - t.progress.remains),
                ),
                remains: buffered,
                ..t.progress
            },
            ..t
        }
    } else {
        t
    }
}

/// A request that was decoded is handed to the control service. Its payload, if
/// it has one, is timed from now on, unless the client waits for `100
/// Continue` before it sends it.
pub open spec fn request_taken<E>(
    d: Dispatcher,
    after: Dispatcher,
    fx: Effects,
    fx_after: Effects,
    req: Request,
    payload: PayloadType,
    r: Next<E>,
) -> bool {
    match payload {
        PayloadType::NoPayload => {
            &&& r == Next::Control(Control::<E>::Request(NewRequest { req }))
            &&& after == d
            &&& no_orders(fx_after, fx)
        },
        PayloadType::Payload(decoder) | PayloadType::Stream(decoder) => {
            let with = Dispatcher { payload: Some(decoder), ..d };
            &&& r == Next::Control(
                Control::<E>::Request(NewRequest { req: Request { payload: Payload::H1, ..req } }),
            )
            &&& if req.head.flags.expect {
                after == with && no_orders(fx_after, fx)
            } else {
                after == payload_timed(with) && timer_orders(
                    fx_after,
                    fx,
                    payload_timed_ops(with),
                )
            }
        },
    }
}

/// What follows when the timer fires while a request is awaited.
pub open spec fn read_timed_out<E>(
    d: Dispatcher,
    after: Dispatcher,
    fx: Effects,
    fx_after: Effects,
    buffered: u32,
    remains: u32,
    backpressure: bool,
    r: ReadStep<E>,
) -> bool {
    if d.timers.active.for_write() {
        if backpressure {
            r matches ReadStep::Goto(next) && exists|e: IoError| #[trigger]
                is_write_timeout(e) && disconnected(
                    d,
                    after,
                    fx,
                    fx_after,
                    peer_msg::<E>(Some(e)),
                    next,
                )
        } else {
            &&& r is Again
            &&& after == (Dispatcher { timers: not_writing(d.timers), ..d })
            &&& timer_orders(fx_after, fx, seq![TimerOp::Stop])
        }
    } else if d.timers.active == Timer::Headers {
        exists|mid: Dispatcher, mid_fx: Effects, t: Result<(), ProtocolError>| #[trigger]
            timed_out(d, mid, fx, mid_fx, t) && match t {
                Ok(_) => r is Again && after == mid && fx_after == mid_fx,
                Err(e) => r matches ReadStep::Goto(next) && disconnected(
                    mid,
                    after,
                    mid_fx,
                    fx_after,
                    proto_msg::<E>(e),
                    next,
                ),
            }
    } else if d.codec.decoder.hdrs && d.cfg().headers_read_rate is Some {
        &&& r is Again
        &&& after == (Dispatcher {
            timers: head_timed(d.timers, d.cfg().headers_read_rate, buffered, remains),
            ..d
        })
        &&& timer_orders(fx_after, fx, head_timed_ops(d.cfg().headers_read_rate))
    } else if d.timers.active == Timer::ClientTimeout {
        r matches ReadStep::Goto(next) && disconnected(
            d,
            after,
            fx,
            fx_after,
            proto_msg::<E>(ProtocolError::SlowRequestTimeout),
            next,
        )
    } else {
        r matches ReadStep::Goto(next) && disconnected(
            d,
            after,
            fx,
            fx_after,
            Control::<E>::Disconnect(Reason::KeepAlive(KeepAlive { enabled: true })),
            next,
        )
    }
}

/// What follows an attempt to receive a request.
pub open spec fn request_event<E>(
    d: Dispatcher,
    after: Dispatcher,
    fx: Effects,
    fx_after: Effects,
    ev: Received<(Request, PayloadType)>,
    buffered: u32,
    remains: u32,
    backpressure: bool,
    r: ReadStep<E>,
) -> bool {
    match ev {
        Received::Decoded(item, consumed, left) => exists|
            mid: Dispatcher,
            mid_fx: Effects,
            timing: Option<Next<E>>,
        | #[trigger]
            head_attempt(
                d,
                mid,
                fx,
                mid_fx,
                item is Some,
                consumed,
                left,
                timing,
            ) && match (timing, item) {
                (Some(next), _) => r == ReadStep::Goto(next) && after == mid
                    && fx_after == mid_fx,
                (None, Some((req, pl))) => r matches ReadStep::Goto(next) && request_taken(
                    mid,
                    after,
                    mid_fx,
                    fx_after,
                    req,
                    pl,
                    next,
                ),
                (None, None) => r is Pending && after == mid && fx_after == mid_fx,
            },
        Received::WriteBackpressure => r is Flush && after == d
            && fx_after == fx,
        Received::Decoder(e) => r matches ReadStep::Goto(next) && disconnected(
            d,
            after,
            fx,
            fx_after,
            proto_msg::<E>(ProtocolError::Decode(e)),
            next,
        ),
        Received::PeerGone(e) => r matches ReadStep::Goto(next) && disconnected(
            d,
            after,
            fx,
            fx_after,
            peer_msg::<E>(e),
            next,
        ),
        Received::KeepAlive => read_timed_out(
            d,
            after,
            fx,
            fx_after,
            buffered,
            remains,
            backpressure,
            r,
        ),
    }
}

impl Dispatcher {
    /// Prepares an attempt to read a request. A service that shuts down reads
    /// none.
    pub fn begin_read_request<E: ResponseError>(
        &mut self,
        shutdown: bool,
        backpressure: bool,
        buffered: u32,
        fx: &mut Effects,
    ) -> (r: Option<Next<E>>)
        ensures
            shutdown ==> (r matches Some(next) && disconnected(
                *old(self),
                *final(self),
                *old(fx),
                *final(fx),
                svc_msg::<E>(ServiceDisconnectReason::Shutdown),
                next,
            )),
            !shutdown ==> {
                &&& r is None
                &&& *final(self) == (Dispatcher {
                    timers: buffered_timers(released(old(self).timers, backpressure), buffered),
                    ..*old(self)
                })
                &&& timer_orders(*final(fx), *old(fx), release_ops(old(self).timers, backpressure))
            },
    {
        if shutdown {
            return Some(self.ctl_svc_disconnect(ServiceDisconnectReason::Shutdown, fx));
        }
        self.release_write_timer(backpressure, fx);
        self.timers.headers_buffered(buffered);
        None
    }

    /// Takes a request that was decoded.
    pub fn take_request<E: ResponseError>(
        &mut self,
        req: Request,
        payload: PayloadType,
        fx: &mut Effects,
    ) -> (r: Next<E>)
        ensures
            request_taken(*old(self), *final(self), *old(fx), *final(fx), req, payload, r),
    {
        let mut req = req;
        match payload {
            PayloadType::NoPayload => {
                assert(fx.timer@ =~= old(fx).timer@ + Seq::<TimerOp>::empty());
            },
            PayloadType::Payload(decoder) | PayloadType::Stream(decoder) => {
                let _ = req.replace_payload(Payload::H1);
                self.payload = Some(decoder);
                // the client does not send the body before `100 Continue`
                if !req.head.expect() {
                    self.start_payload_timer(fx);
                } else {
                    assert(fx.timer@ =~= old(fx).timer@ + Seq::<TimerOp>::empty());
                }
            },
        }
        Next::Control(Control::request(req))
    }

    /// The timer fired while a request was awaited. `buffered` is the length of
    /// the read buffer before the attempt to decode, `remains` the length after
    /// it.
    pub fn on_read_timeout<E: ResponseError>(
        &mut self,
        buffered: u32,
        remains: u32,
        backpressure: bool,
        fx: &mut Effects,
    ) -> (r: ReadStep<E>)
        ensures
            read_timed_out(
                *old(self),
                *final(self),
                *old(fx),
                *final(fx),
                buffered,
                remains,
                backpressure,
                r,
            ),
    {
        if self.timers.active.is_write() {
            if backpressure {
                let e = write_timeout_error();
                assert(is_write_timeout(e));
                ReadStep::Goto(self.ctl_peer_gone(Some(e), fx))
            } else {
                self.timers.stop_write(&mut fx.timer);
                assert(fx.timer@ =~= old(fx).timer@ + seq![TimerOp::Stop]);
                ReadStep::Again
            }
        } else if self.timers.active == Timer::Headers {
            let t = self.handle_timeout(fx);
            let ghost mid = *self;
            let ghost mid_fx = *fx;
            assert(timed_out(*old(self), mid, *old(fx), mid_fx, t));
            match t {
                Err(err) => ReadStep::Goto(self.ctl_proto_err(err, fx)),
                Ok(()) => ReadStep::Again,
            }
        } else if self.codec.is_reading_hdrs()
            && self.codec.decoder.cfg.headers_read_rate.is_some() {
            // a partial request head wins over keep-alive or client timeout
            self.timers.start_headers(
                &mut fx.timer,
                self.codec.decoder.cfg.headers_read_rate,
                buffered,
                remains,
            );
            assert(fx.timer@ =~= old(fx).timer@ + head_timed_ops(
                old(self).cfg().headers_read_rate,
            ));
            ReadStep::Again
        } else if self.timers.active == Timer::ClientTimeout {
            ReadStep::Goto(self.ctl_proto_err(ProtocolError::SlowRequestTimeout, fx))
        } else {
            ReadStep::Goto(self.ctl_keepalive(true, fx))
        }
    }

    /// An attempt to receive a request gave something.
    pub fn on_request<E: ResponseError>(
        &mut self,
        ev: Received<(Request, PayloadType)>,
        buffered: u32,
        remains: u32,
        backpressure: bool,
        fx: &mut Effects,
    ) -> (r: ReadStep<E>)
        ensures
            request_event(
                *old(self),
                *final(self),
                *old(fx),
                *final(fx),
                ev,
                buffered,
                remains,
                backpressure,
                r,
            ),
    {
        match ev {
            Received::Decoded(item, consumed, left) => {
                let timing = self.update_hdrs_timer::<E>(item.is_some(), consumed, left, fx);
                let ghost mid = *self;
                let ghost mid_fx = *fx;
                assert(head_attempt(
                    *old(self),
                    mid,
                    *old(fx),
                    mid_fx,
                    item is Some,
                    consumed,
                    left,
                    timing,
                ));
                match timing {
                    Some(next) => ReadStep::Goto(next),
                    None => match item {
                        Some((req, pl)) => ReadStep::Goto(self.take_request(req, pl, fx)),
                        None => ReadStep::Pending,
                    },
                }
            },
            Received::WriteBackpressure => ReadStep::Flush,
            Received::Decoder(err) => {
                // malformed request
                ReadStep::Goto(self.ctl_proto_err(ProtocolError::Decode(err), fx))
            },
            Received::PeerGone(err) => ReadStep::Goto(self.ctl_peer_gone(err, fx)),
            Received::KeepAlive => self.on_read_timeout(buffered, remains, backpressure, fx),
        }
    }

    /// Output was flushed while a request was awaited.
    pub fn on_read_flushed<E: ResponseError>(
        &mut self,
        res: Result<(), IoError>,
        fx: &mut Effects,
    ) -> (r: ReadStep<E>)
        ensures
            match res {
                Ok(_) => r is Again && *final(self) == *old(self) && *final(fx) == *old(fx),
                Err(e) => r matches ReadStep::Goto(next) && disconnected(
                    *old(self),
                    *final(self),
                    *old(fx),
                    *final(fx),
                    peer_msg::<E>(Some(e)),
                    next,
                ),
            },
    {
        match res {
            Ok(()) => ReadStep::Again,
            Err(err) => ReadStep::Goto(self.ctl_peer_gone(Some(err), fx)),
        }
    }
}

// ---------------------------------------------------------------------------
// Request payloads
// ---------------------------------------------------------------------------

/// What becomes of a failed request payload: the control service is told.
pub open spec fn fault_told<E>(
    d: Dispatcher,
    after: Dispatcher,
    fx: Effects,
    fx_after: Effects,
    fault: PayloadFault,
    r: Next<E>,
) -> bool {
    disconnected(
        d,
        after,
        fx,
        fx_after,
        match fault {
            PayloadFault::Protocol(e) => proto_msg::<E>(e),
            PayloadFault::Peer(e) => peer_msg::<E>(e),
        },
        r,
    )
}

/// The stream of the payload is failed with a write timeout.
pub open spec fn write_timeout_told(
    fx: Effects,
    before: Effects,
    payload: Option<PayloadDecoder>,
) -> bool {
    &&& payload_failed(fx, before, payload)
    &&& payload is Some ==> (fx.payload@.last() matches PayloadOp::Error(PayloadError::Io(e))
        && is_write_timeout(e))
}

/// The dispatcher with the bytes counted that a decode attempt took before the
/// timer fired.
pub open spec fn payload_counted(d: Dispatcher, buffered: Option<u32>, remains: u32) -> Dispatcher {
    match buffered {
        Some(b) => Dispatcher {
            timers: Timers {
                progress: ReadProgress {
                    consumed: saturated(d.timers.progress.consumed + saturated(b - remains)),
                    ..d.timers.progress
                },
                ..d.timers
            },
            ..d
        },
        None => d,
    }
}

/// What follows when the timer fires while a payload is read.
pub open spec fn payload_timed_out(
    d: Dispatcher,
    after: Dispatcher,
    fx: Effects,
    fx_after: Effects,
    buffered: Option<u32>,
    remains: u32,
    backpressure: bool,
    r: PayloadStep,
) -> bool {
    if d.timers.active.for_write() {
        if backpressure {
            &&& r matches PayloadStep::Fault(PayloadFault::Peer(Some(e)))
            &&& is_write_timeout(e)
            &&& after == d
            &&& write_timeout_told(fx_after, fx, d.payload)
        } else {
            &&& r is Again
            &&& after == (Dispatcher { timers: not_writing(d.timers), ..d })
            &&& timer_orders(fx_after, fx, seq![TimerOp::Stop])
        }
    } else {
        exists|t: Result<(), ProtocolError>| #[trigger]
            timed_out(payload_counted(d, buffered, remains), after, fx, fx_after, t) && match t {
                Ok(_) => r is Again,
                Err(e) => r == PayloadStep::Fault(PayloadFault::Protocol(e)),
            }
    }
}

/// The bytes that a decode attempt took count as progress of the payload.
pub open spec fn payload_counted_by(d: Dispatcher, consumed: u32) -> Dispatcher {
    Dispatcher { timers: payload_progress(d.timers, consumed), ..d }
}

/// What follows a look at the stream of the payload.
pub open spec fn stream_event(
    d: Dispatcher,
    after: Dispatcher,
    fx: Effects,
    fx_after: Effects,
    status: StreamStatus,
    backpressure: bool,
    unused: Seconds,
) -> bool {
    match status {
        StreamStatus::Ready => {
            &&& after == (Dispatcher {
                timers: released(d.timers, backpressure),
                ..d
            })
            &&& timer_orders(
                fx_after,
                fx,
                release_ops(d.timers, backpressure),
            )
        },
        StreamStatus::Pending => {
            &&& after == (Dispatcher {
                timers: paused(d.timers, unused),
                ..d
            })
            &&& timer_orders(fx_after, fx, pause_ops(d.timers))
        },
        StreamStatus::Dropped => {
            &&& after == (Dispatcher {
                payload: None,
                disconnect: if d.disconnect == Disconnect::Sent {
                    Disconnect::Sent
                } else {
                    Disconnect::Pending(ServiceDisconnectReason::PayloadDropped)
                },
                ..d
            })
            &&& fx_after == fx
        },
    }
}

/// What follows an attempt to receive a piece of the payload.
pub open spec fn payload_event(
    d: Dispatcher,
    after: Dispatcher,
    fx: Effects,
    fx_after: Effects,
    ev: Received<PayloadItem>,
    buffered: Option<u32>,
    remains: u32,
    backpressure: bool,
    r: PayloadStep,
) -> bool {
    match ev {
        Received::Decoded(item, consumed, _) => {
            let counted = payload_counted_by(d, consumed);
            let ops = payload_ops(d.timers);
            match item {
                None => r is Wait && after == counted && timer_orders(
                    fx_after,
                    fx,
                    ops,
                ),
                Some(PayloadItem::Chunk(chunk)) => {
                    &&& r is Item
                    &&& after == counted
                    &&& fx_after.timer@ == fx.timer@ + ops
                    &&& fx_after.close == fx.close
                    &&& fx_after.payload@ == fx.payload@.push(PayloadOp::Data(chunk))
                },
                Some(PayloadItem::Eof) => {
                    &&& r is Ended
                    &&& after == (Dispatcher {
                        payload: None,
                        timers: done_with_payload(counted.timers),
                        ..counted
                    })
                    &&& fx_after.timer@ == fx.timer@ + ops + done_ops(counted.timers)
                    &&& fx_after.close == fx.close
                    &&& fx_after.payload@ == fx.payload@.push(PayloadOp::Eof)
                },
            }
        },
        Received::WriteBackpressure => r is Flush && after == d
            && fx_after == fx,
        Received::KeepAlive => payload_timed_out(
            d,
            after,
            fx,
            fx_after,
            buffered,
            remains,
            backpressure,
            r,
        ),
        Received::PeerGone(e) => {
            &&& r == PayloadStep::Fault(PayloadFault::Peer(e))
            &&& after == d
            &&& payload_failed(fx_after, fx, d.payload)
            &&& d.payload is Some ==> fx_after.payload@.last()
                == PayloadOp::Error(PayloadError::Incomplete(e))
        },
        Received::Decoder(e) => {
            &&& r == PayloadStep::Fault(PayloadFault::Protocol(ProtocolError::Decode(e)))
            &&& after == d
            &&& payload_failed(fx_after, fx, d.payload)
            &&& d.payload is Some ==> fx_after.payload@.last()
                == PayloadOp::Error(PayloadError::Decode(e))
        },
    }
}

impl Dispatcher {
    /// Takes a payload failure that came while the control service was called.
    pub fn take_payload_error<E: ResponseError>(&mut self, fx: &mut Effects) -> (r: Option<Next<E>>)
        ensures
            match old(self).pending_payload_error {
                None => r is None && *final(self) == *old(self) && *final(fx) == *old(fx),
                Some(fault) => r matches Some(next) && fault_told(
                    Dispatcher { pending_payload_error: None, ..*old(self) },
                    *final(self),
                    *old(fx),
                    *final(fx),
                    fault,
                    next,
                ),
            },
    {
        match self.pending_payload_error.take() {
            Some(fault) => Some(self.on_payload_fault(fault, fx)),
            None => None,
        }
    }

    /// A request payload failed.
    pub fn on_payload_fault<E: ResponseError>(
        &mut self,
        fault: PayloadFault,
        fx: &mut Effects,
    ) -> (r: Next<E>)
        ensures
            fault_told(*old(self), *final(self), *old(fx), *final(fx), fault, r),
    {
        match fault {
            PayloadFault::Protocol(e) => self.ctl_proto_err(e, fx),
            PayloadFault::Peer(e) => self.ctl_peer_gone(e, fx),
        }
    }

    /// A request payload failed while the control service was called: the
    /// first failure is kept until the call is done.
    pub fn keep_payload_error(&mut self, fault: PayloadFault)
        ensures
            *final(self) == (Dispatcher {
                pending_payload_error: match old(self).pending_payload_error {
                    Some(first) => Some(first),
                    None => Some(fault),
                },
                ..*old(self)
            }),
    {
        if self.pending_payload_error.is_none() {
            self.pending_payload_error = Some(fault);
        }
    }

    /// Looks at the stream of the payload. Returns whether a piece of the
    /// payload is read now. `unused` is what is left on the timer.
    pub fn begin_payload(
        &mut self,
        status: StreamStatus,
        backpressure: bool,
        unused: Seconds,
        fx: &mut Effects,
    ) -> (r: bool)
        requires
            old(self).payload is Some,
        ensures
            r == (status == StreamStatus::Ready),
            stream_event(
                *old(self),
                *final(self),
                *old(fx),
                *final(fx),
                status,
                backpressure,
                unused,
            ),
    {
        match status {
            StreamStatus::Ready => {
                self.release_write_timer(backpressure, fx);
                true
            },
            StreamStatus::Pending => {
                self.pause_payload_timer(unused, fx);
                false
            },
            StreamStatus::Dropped => {
                // nobody reads the payload: the connection is closed once the
                // service call is done
                self.payload = None;
                self.set_disconnect(ServiceDisconnectReason::PayloadDropped);
                false
            },
        }
    }

    /// The timer fired while a payload was read. `buffered` is the length of
    /// the read buffer before the attempt to decode, where payload timing runs;
    /// `remains` is the length after it.
    pub fn on_payload_timeout(
        &mut self,
        buffered: Option<u32>,
        remains: u32,
        backpressure: bool,
        fx: &mut Effects,
    ) -> (r: PayloadStep)
        ensures
            payload_timed_out(
                *old(self),
                *final(self),
                *old(fx),
                *final(fx),
                buffered,
                remains,
                backpressure,
                r,
            ),
    {
        if self.timers.active.is_write() {
            if backpressure {
                self.set_payload_error(PayloadError::Io(write_timeout_error()), fx);
                PayloadStep::Fault(PayloadFault::Peer(Some(write_timeout_error())))
            } else {
                self.timers.stop_write(&mut fx.timer);
                assert(fx.timer@ =~= old(fx).timer@ + seq![TimerOp::Stop]);
                PayloadStep::Again
            }
        } else {
            if let Some(b) = buffered {
                let more: u32 = b.saturating_sub(remains);
                self.timers.progress.consumed = self.timers.progress.consumed.saturating_add(more);
            }
            assert(*self == payload_counted(*old(self), buffered, remains));
            let t = self.handle_timeout(fx);
            assert(timed_out(
                payload_counted(*old(self), buffered, remains),
                *self,
                *old(fx),
                *fx,
                t,
            ));
            match t {
                Err(err) => PayloadStep::Fault(PayloadFault::Protocol(err)),
                Ok(()) => PayloadStep::Again,
            }
        }
    }

    /// An attempt to receive a piece of the payload gave something.
    pub fn on_payload(
        &mut self,
        ev: Received<PayloadItem>,
        buffered: Option<u32>,
        remains: u32,
        backpressure: bool,
        fx: &mut Effects,
    ) -> (r: PayloadStep)
        ensures
            payload_event(
                *old(self),
                *final(self),
                *old(fx),
                *final(fx),
                ev,
                buffered,
                remains,
                backpressure,
                r,
            ),
    {
        match ev {
            Received::Decoded(item, consumed, _) => {
                self.timers.payload_decoded(&mut fx.timer, consumed);
                assert(fx.timer@ =~= old(fx).timer@ + payload_ops(old(self).timers));
                let ghost counted = self.timers;
                match item {
                    None => PayloadStep::Wait,
                    Some(PayloadItem::Chunk(chunk)) => {
                        fx.payload.push(PayloadOp::Data(chunk));
                        PayloadStep::Item
                    },
                    Some(PayloadItem::Eof) => {
                        self.timers.payload_done(&mut fx.timer);
                        assert(fx.timer@ =~= old(fx).timer@ + payload_ops(old(self).timers)
                            + done_ops(counted));
                        fx.payload.push(PayloadOp::Eof);
                        self.payload = None;
                        PayloadStep::Ended
                    },
                }
            },
            Received::WriteBackpressure => PayloadStep::Flush,
            Received::KeepAlive => self.on_payload_timeout(buffered, remains, backpressure, fx),
            Received::PeerGone(err) => {
                let copy = match &err {
                    Some(e) => Some(copy_io_error(e)),
                    None => None,
                };
                self.set_payload_error(PayloadError::Incomplete(copy), fx);
                PayloadStep::Fault(PayloadFault::Peer(err))
            },
            Received::Decoder(err) => {
                self.set_payload_error(PayloadError::Decode(copy_decode_error(&err)), fx);
                PayloadStep::Fault(PayloadFault::Protocol(ProtocolError::Decode(err)))
            },
        }
    }

    /// Output was flushed, or not, while a payload was read. `unused` is what
    /// is left on the timer.
    pub fn on_payload_flushed(
        &mut self,
        res: Option<Result<(), IoError>>,
        unused: Seconds,
        fx: &mut Effects,
    ) -> (r: PayloadStep)
        ensures
            match res {
                Some(Ok(_)) => r is Again && *final(self) == *old(self) && *final(fx) == *old(fx),
                Some(Err(e)) => {
                    &&& r == PayloadStep::Fault(PayloadFault::Peer(Some(e)))
                    &&& *final(self) == *old(self)
                    &&& if e.kind == IoErrorKind::TimedOut {
                        write_timeout_told(*final(fx), *old(fx), old(self).payload)
                    } else {
                        *final(fx) == *old(fx)
                    }
                },
                None => {
                    &&& r is Wait
                    &&& *final(self) == (Dispatcher {
                        timers: paused(old(self).timers, unused),
                        ..*old(self)
                    })
                    &&& timer_orders(*final(fx), *old(fx), pause_ops(old(self).timers))
                },
            },
    {
        match res {
            Some(Ok(())) => PayloadStep::Again,
            Some(Err(err)) => {
                if err.kind == IoErrorKind::TimedOut {
                    self.set_payload_error(PayloadError::Io(write_timeout_error()), fx);
                }
                PayloadStep::Fault(PayloadFault::Peer(Some(err)))
            },
            None => {
                self.pause_payload_timer(unused, fx);
                PayloadStep::Wait
            },
        }
    }
}

// ---------------------------------------------------------------------------
// Responses
// ---------------------------------------------------------------------------

/// What follows a response that was written: a disconnect that is due, the rest
/// of the request payload, or the next request.
pub open spec fn response_done<E>(
    d: Dispatcher,
    after: Dispatcher,
    fx: Effects,
    fx_after: Effects,
    r: Next<E>,
) -> bool {
    if d.disconnect != Disconnect::Open {
        due(d, after, fx, fx_after, Some(r))
    } else if d.payload is Some {
        &&& r is ReadPayload
        &&& after == payload_timed(d)
        &&& timer_orders(fx_after, fx, payload_timed_ops(d))
    } else {
        r is ReadRequest && after == d && no_orders(fx_after, fx)
    }
}

/// The head that is sent: the connection is closed after it where nobody reads
/// the rest of the request payload.
pub open spec fn sent_head(d: Dispatcher, head: ResponseHead, payload_closed: bool) -> ResponseHead {
    if d.payload is Some && payload_closed {
        ResponseHead { flags: flags_with(head.flags, ConnectionType::Close), ..head }
    } else {
        head
    }
}

/// The bytes that sending a response head adds to the output.
pub open spec fn head_sent(
    codec: Codec,
    after: Codec,
    head: ResponseHead,
    size: BodySize,
    dst: Seq<u8>,
    out: Seq<u8>,
    date: Seq<u8>,
) -> bool {
    let ctype = connection_with(codec.ctype, head);
    let n = dst.len() as int;
    &&& after == (Codec { ctype, encoder: after.encoder, ..codec })
    &&& after.encoder.te.kind == body_coding(
        codec.head,
        codec.stream,
        size,
        !head.flags.no_chunking,
    )
    &&& out.len() >= n
    &&& out.subrange(0, n) == dst
    &&& is_head_of(
        out.subrange(n, out.len() as int),
        ResponseHead { version: codec.version, ..head },
        codec.version,
        size,
        ctype,
        None,
        date,
    )
}

/// How sending the body of a response starts.
#[derive(Debug)]
pub enum SendStart<E> {
    /// The request payload failed before.
    Fault(PayloadFault),
    /// The request payload is read meanwhile.
    PollPayload,
    /// The body is sent.
    Send,
    /// Goes on to something else.
    Goto(Next<E>),
}

/// What follows a piece of the body of a response.
#[derive(Debug)]
pub enum BodyStep<E> {
    /// Sends the next piece.
    Again,
    /// Waits for the next piece.
    Pending,
    /// Goes on to something else.
    Goto(Next<E>),
}

/// What to look at while a service call runs.
#[derive(Debug)]
pub enum ServiceStep<E> {
    /// The request payload.
    PollPayload,
    /// The state of the transport.
    PollStatus,
    /// Goes on to something else.
    Goto(Next<E>),
}

/// What follows output that could not be flushed at once.
#[derive(Copy, Clone, Debug, PartialEq, Eq, Structural)]
pub enum FlushStep {
    /// Flushes again.
    Again,
    /// Waits.
    Pending,
    /// Output could not be written in time.
    TimedOut,
}

/// What follows a response: its head is written, unless the transport is not
/// connected any more.
pub open spec fn response_sent<E>(
    d: Dispatcher,
    after: Dispatcher,
    fx: Effects,
    fx_after: Effects,
    head: ResponseHead,
    size: BodySize,
    active: bool,
    payload_closed: bool,
    dst: Seq<u8>,
    out: Seq<u8>,
    date: Seq<u8>,
    r: Next<E>,
) -> bool {
    if active {
        &&& head_sent(
            d.codec,
            after.codec,
            sent_head(d, head, payload_closed),
            size,
            dst,
            out,
            date,
        )
        &&& if size is NoBody || size is Empty {
            response_done(Dispatcher { codec: after.codec, ..d }, after, fx, fx_after, r)
        } else {
            &&& r is SendPayload
            &&& after == (Dispatcher { codec: after.codec, ..d })
            &&& fx_after == fx
        }
    } else {
        out == dst && disconnected(d, after, fx, fx_after, peer_msg::<E>(None), r)
    }
}

/// What follows when the body of a response gave something.
pub open spec fn body_event<E>(
    d: Dispatcher,
    after: Dispatcher,
    fx: Effects,
    fx_after: Effects,
    item: StreamPoll,
    dst: Seq<u8>,
    out: Seq<u8>,
    r: BodyStep<E>,
) -> bool {
    match item {
        StreamPoll::Pending => r is Pending && after == d && fx_after
            == fx && out == dst,
        StreamPoll::Chunk(bytes) => {
            let kind = d.codec.encoder.te.kind;
            &&& r is Again
            &&& after.codec.encoder.te.kind == encoder_after(kind, bytes@)
            &&& after == (Dispatcher {
                codec: Codec {
                    encoder: after.codec.encoder,
                    ..d.codec
                },
                ..d
            })
            &&& fx_after == fx
            &&& out == dst + encoded(kind, bytes@)
        },
        StreamPoll::Done => {
            let kind = d.codec.encoder.te.kind;
            let mid = Dispatcher {
                codec: Codec {
                    encoder: after.codec.encoder,
                    ..d.codec
                },
                ..d
            };
            &&& r matches BodyStep::Goto(next)
            &&& out == dst + eof_encoded(kind)
            &&& after.codec.encoder.te.kind == match kind {
                TransferEncodingKind::Chunked(_) => TransferEncodingKind::Chunked(true),
                k => k,
            }
            &&& if may_end(kind) {
                response_done(mid, after, fx, fx_after, next)
            } else {
                disconnected(
                    mid,
                    after,
                    fx,
                    fx_after,
                    proto_msg::<E>(ProtocolError::Encode(EncodeError::UnexpectedEof)),
                    next,
                )
            }
        },
        StreamPoll::Failed(text) => {
            &&& r matches BodyStep::Goto(next)
            &&& out == dst
            &&& disconnected(
                d,
                after,
                fx,
                fx_after,
                proto_msg::<E>(ProtocolError::ResponsePayload(text)),
                next,
            )
        },
    }
}

impl Dispatcher {
    /// Goes on after a response was written.
    pub fn after_response<E: ResponseError>(&mut self, fx: &mut Effects) -> (r: Next<E>)
        ensures
            response_done(*old(self), *final(self), *old(fx), *final(fx), r),
    {
        match self.check_disconnect(fx) {
            Some(st) => st,
            None => {
                if self.payload.is_some() {
                    self.start_payload_timer(fx);
                    Next::ReadPayload
                } else {
                    assert(fx.timer@ =~= old(fx).timer@ + Seq::<TimerOp>::empty());
                    Next::ReadRequest
                }
            },
        }
    }

    /// Sends the head of a response. `active` says whether the transport is
    /// still connected, `payload_closed` whether nobody reads the request
    /// payload.
    pub fn send_response<E: ResponseError>(
        &mut self,
        head: ResponseHead,
        size: BodySize,
        active: bool,
        payload_closed: bool,
        dst: &mut Vec<u8>,
        date: &mut DateService,
        now: u64,
        fx: &mut Effects,
    ) -> (r: Next<E>)
        requires
            head.status.0 <= 9999,
            old(date).wf(),
            now < DATE_LIMIT,
        ensures
            final(date).wf(),
            response_sent(
                *old(self),
                *final(self),
                *old(fx),
                *final(fx),
                head,
                size,
                active,
                payload_closed,
                old(dst)@,
                final(dst)@,
                old(date).date_at(now),
                r,
            ),
    {
        let mut head = head;
        // close connection if payload stream is dropped and not consumed
        if self.payload.is_some() && payload_closed {
            head.set_connection_type(ConnectionType::Close);
        }
        if active {
            match self.codec.encodev(Message::Item((head, size)), dst, date, now) {
                Ok(()) => match size {
                    BodySize::NoBody | BodySize::Empty => self.after_response(fx),
                    _ => Next::SendPayload,
                },
                Err(err) => self.ctl_proto_err(ProtocolError::Encode(err), fx),
            }
        } else {
            self.ctl_peer_gone(None, fx)
        }
    }

    /// Starts sending the body of a response.
    pub fn begin_send_payload<E: ResponseError>(
        &mut self,
        active: bool,
        fx: &mut Effects,
    ) -> (r: SendStart<E>)
        ensures
            match old(self).pending_payload_error {
                Some(fault) => r == SendStart::<E>::Fault(fault) && *final(self) == (Dispatcher {
                    pending_payload_error: None,
                    ..*old(self)
                }) && *final(fx) == *old(fx),
                None => if !active {
                    r matches SendStart::Goto(next) && disconnected(
                        *old(self),
                        *final(self),
                        *old(fx),
                        *final(fx),
                        peer_msg::<E>(None),
                        next,
                    )
                } else {
                    &&& *final(self) == *old(self)
                    &&& *final(fx) == *old(fx)
                    &&& if old(self).disconnect is Pending {
                        r is Send
                    } else {
                        r is PollPayload
                    }
                },
            },
    {
        if let Some(fault) = self.pending_payload_error.take() {
            SendStart::Fault(fault)
        } else if !active {
            SendStart::Goto(self.ctl_peer_gone(None, fx))
        } else if let Disconnect::Pending(_) = self.disconnect {
            SendStart::Send
        } else {
            SendStart::PollPayload
        }
    }

    /// The request payload failed while a response is sent. Where the peer is
    /// gone the response cannot be completed; otherwise it is finished, and the
    /// dispatcher stops after it.
    pub fn on_send_fault<E: ResponseError>(
        &mut self,
        fault: PayloadFault,
        fx: &mut Effects,
    ) -> (r: Option<Next<E>>)
        ensures
            match fault {
                PayloadFault::Peer(e) => r matches Some(next) && disconnected(
                    *old(self),
                    *final(self),
                    *old(fx),
                    *final(fx),
                    peer_msg::<E>(e),
                    next,
                ),
                PayloadFault::Protocol(_) => r is None && *final(self) == (Dispatcher {
                    disconnect: Disconnect::Sent,
                    ..*old(self)
                }) && *final(fx) == *old(fx),
            },
    {
        match fault {
            PayloadFault::Peer(err) => Some(self.ctl_peer_gone(err, fx)),
            PayloadFault::Protocol(_) => {
                self.disconnect = Disconnect::Sent;
                None
            },
        }
    }

    /// Output was flushed while a response is sent. Only a timeout ends it.
    pub fn on_send_flushed<E: ResponseError>(
        &mut self,
        res: Result<(), IoError>,
        fx: &mut Effects,
    ) -> (r: Option<Next<E>>)
        ensures
            match res {
                Err(e) => if e.kind == IoErrorKind::TimedOut {
                    exists|mid_fx: Effects| #[trigger]
                        write_timeout_told(mid_fx, *old(fx), old(self).payload) && (
                        r matches Some(next) && disconnected(
                            *old(self),
                            *final(self),
                            mid_fx,
                            *final(fx),
                            peer_msg::<E>(Some(e)),
                            next,
                        ))
                } else {
                    r is None && *final(self) == *old(self) && *final(fx) == *old(fx)
                },
                Ok(_) => r is None && *final(self) == *old(self) && *final(fx) == *old(fx),
            },
    {
        match res {
            Err(err) => {
                if err.kind == IoErrorKind::TimedOut {
                    self.set_payload_error(PayloadError::Io(write_timeout_error()), fx);
                    let ghost mid_fx = *fx;
                    assert(write_timeout_told(mid_fx, *old(fx), old(self).payload));
                    Some(self.ctl_peer_gone(Some(err), fx))
                } else {
                    None
                }
            },
            Ok(()) => None,
        }
    }

    /// The body of a response gave something.
    pub fn on_body<E: ResponseError>(
        &mut self,
        item: StreamPoll,
        dst: &mut Vec<u8>,
        date: &mut DateService,
        now: u64,
        fx: &mut Effects,
    ) -> (r: BodyStep<E>)
        requires
            old(date).wf(),
            now < DATE_LIMIT,
        ensures
            final(date).wf(),
            body_event(
                *old(self),
                *final(self),
                *old(fx),
                *final(fx),
                item,
                old(dst)@,
                final(dst)@,
                r,
            ),
    {
        match item {
            StreamPoll::Pending => BodyStep::Pending,
            StreamPoll::Chunk(bytes) => {
                match self.codec.encodev(Message::Chunk(Some(bytes)), dst, date, now) {
                    Ok(()) => BodyStep::Again,
                    Err(err) => BodyStep::Goto(
                        self.ctl_proto_err(ProtocolError::Encode(err), fx),
                    ),
                }
            },
            StreamPoll::Done => {
                match self.codec.encodev(Message::Chunk(None), dst, date, now) {
                    Ok(()) => BodyStep::Goto(self.after_response(fx)),
                    Err(err) => BodyStep::Goto(
                        self.ctl_proto_err(ProtocolError::Encode(err), fx),
                    ),
                }
            },
            StreamPoll::Failed(text) => BodyStep::Goto(
                self.ctl_proto_err(ProtocolError::ResponsePayload(text), fx),
            ),
        }
    }

    /// Output could not be flushed at once: starts the write timer. Returns
    /// whether the state of the transport is looked at, which reports the timer.
    pub fn flush_pending(&mut self, unused: Seconds, fx: &mut Effects) -> (r: bool)
        ensures
            *final(self) == (Dispatcher {
                timers: write_started(old(self).timers, old(self).cfg().write_timeout, unused),
                ..*old(self)
            }),
            timer_orders(
                *final(fx),
                *old(fx),
                write_start_ops(old(self).timers, old(self).cfg().write_timeout),
            ),
            r == final(self).timers.active.for_write(),
    {
        self.start_write_timer(unused, fx);
        self.timers.active.is_write()
    }

    /// What follows output that could not be flushed at once.
    pub fn flush_status(status: &IoStatus, backpressure: bool) -> (r: FlushStep)
        ensures
            r == (if status is KeepAlive {
                FlushStep::TimedOut
            } else if status is Pending && !backpressure {
                FlushStep::Again
            } else {
                FlushStep::Pending
            }),
    {
        match status {
            IoStatus::KeepAlive => FlushStep::TimedOut,
            IoStatus::Pending => {
                if !backpressure {
                    FlushStep::Again
                } else {
                    FlushStep::Pending
                }
            },
            _ => FlushStep::Pending,
        }
    }

    /// Output was flushed: the write timer is stopped.
    pub fn flush_done(&mut self, fx: &mut Effects)
        ensures
            *final(self) == (Dispatcher { timers: not_writing(old(self).timers), ..*old(self) }),
            timer_orders(*final(fx), *old(fx), release_ops(old(self).timers, false)),
    {
        self.timers.stop_write(&mut fx.timer);
        assert(fx.timer@ =~= old(fx).timer@ + release_ops(old(self).timers, false));
    }
}

// ---------------------------------------------------------------------------
// Service calls
// ---------------------------------------------------------------------------

/// What follows a look at the transport while a service call runs.
pub open spec fn status_event<E>(
    d: Dispatcher,
    after: Dispatcher,
    fx: Effects,
    fx_after: Effects,
    status: IoStatus,
    backpressure: bool,
    unused: Seconds,
    r: Option<Next<E>>,
) -> bool {
    match status {
        IoStatus::Pending => {
            &&& r is None
            &&& after == (Dispatcher {
                timers: released(d.timers, backpressure),
                ..d
            })
            &&& timer_orders(
                fx_after,
                fx,
                release_ops(d.timers, backpressure),
            )
        },
        IoStatus::KeepAlive => if d.timers.active.for_write() && backpressure {
            r matches Some(next) && exists|e: IoError| #[trigger]
                is_write_timeout(e) && disconnected(
                    d,
                    after,
                    fx,
                    fx_after,
                    peer_msg::<E>(Some(e)),
                    next,
                )
        } else {
            &&& r is None
            &&& after == (Dispatcher {
                timers: not_writing(d.timers),
                ..d
            })
            &&& timer_orders(fx_after, fx, release_ops(d.timers, false))
        },
        IoStatus::WriteBackpressure => {
            &&& r is None
            &&& after == (Dispatcher {
                timers: write_started(
                    d.timers,
                    d.cfg().write_timeout,
                    unused,
                ),
                ..d
            })
            &&& timer_orders(
                fx_after,
                fx,
                write_start_ops(d.timers, d.cfg().write_timeout),
            )
        },
        IoStatus::PeerGone(e) => r matches Some(next) && disconnected(
            d,
            after,
            fx,
            fx_after,
            peer_msg::<E>(e),
            next,
        ),
    }
}

/// What follows when `100 Continue` was written, or not.
pub open spec fn continue_event<E>(
    d: Dispatcher,
    after: Dispatcher,
    fx: Effects,
    fx_after: Effects,
    req: Request,
    err: Option<IoError>,
    r: Next<E>,
) -> bool {
    match err {
        Some(e) => disconnected(
            d,
            after,
            fx,
            fx_after,
            peer_msg::<E>(Some(e)),
            r,
        ),
        None => {
            let mid = payload_timed(d);
            exists|mid_fx: Effects| #[trigger]
                timer_orders(mid_fx, fx, payload_timed_ops(d)) && (
                if req.head.flags.upgrade || req.head.method is CONNECT {
                    upgrade_asked(mid, after, req, r) && fx_after == mid_fx
                } else {
                    published(mid, after, mid_fx, fx_after, req, r)
                })
        },
    }
}

/// What follows an answer of the control service.
pub open spec fn control_event<E>(
    d: Dispatcher,
    after: Dispatcher,
    fx: Effects,
    fx_after: Effects,
    result: ControlResult,
    active: bool,
    payload_closed: bool,
    dst: Seq<u8>,
    out: Seq<u8>,
    date: Seq<u8>,
    r: Next<E>,
) -> bool {
    match answer_of(result) {
        Some((head, body)) => response_sent(
            Dispatcher {
                disconnect: match refusal_of(result) {
                    Some(reason) => if d.disconnect == Disconnect::Sent {
                        Disconnect::Sent
                    } else {
                        Disconnect::Pending(reason)
                    },
                    None => d.disconnect,
                },
                ..d
            },
            after,
            fx,
            fx_after,
            head,
            body.size_spec(),
            active,
            payload_closed,
            dst,
            out,
            date,
            r,
        ),
        None => out == dst && control_next(d, after, fx, fx_after, result, r),
    }
}

impl Dispatcher {
    /// A service call has not ended: says what to look at meanwhile.
    pub fn while_service<E: ResponseError>(&mut self, fx: &mut Effects) -> (r: ServiceStep<E>)
        ensures
            if old(self).payload is Some {
                r is PollPayload && *final(self) == *old(self) && *final(fx) == *old(fx)
            } else {
                match old(self).pending_payload_error {
                    Some(fault) => r matches ServiceStep::Goto(next) && fault_told(
                        Dispatcher { pending_payload_error: None, ..*old(self) },
                        *final(self),
                        *old(fx),
                        *final(fx),
                        fault,
                        next,
                    ),
                    None => r is PollStatus && *final(self) == *old(self) && *final(fx) == *old(
                        fx,
                    ),
                }
            },
    {
        if self.payload.is_some() {
            return ServiceStep::PollPayload;
        }
        match self.take_payload_error(fx) {
            Some(st) => ServiceStep::Goto(st),
            None => ServiceStep::PollStatus,
        }
    }

    /// The state of the transport changed while a service call runs.
    pub fn on_status<E: ResponseError>(
        &mut self,
        status: IoStatus,
        backpressure: bool,
        unused: Seconds,
        fx: &mut Effects,
    ) -> (r: Option<Next<E>>)
        ensures
            status_event(
                *old(self),
                *final(self),
                *old(fx),
                *final(fx),
                status,
                backpressure,
                unused,
                r,
            ),
    {
        match status {
            IoStatus::Pending => {
                // write backpressure can be disabled by the status update
                self.release_write_timer(backpressure, fx);
                None
            },
            IoStatus::KeepAlive => {
                if self.timers.active.is_write() && backpressure {
                    let e = write_timeout_error();
                    assert(is_write_timeout(e));
                    Some(self.ctl_peer_gone(Some(e), fx))
                } else {
                    self.flush_done(fx);
                    None
                }
            },
            IoStatus::WriteBackpressure => {
                self.start_write_timer(unused, fx);
                None
            },
            IoStatus::PeerGone(e) => Some(self.ctl_peer_gone(e, fx)),
        }
    }

    /// Hands a request to the service. Where its payload failed meanwhile, the
    /// control service is told instead.
    pub fn publish<E: ResponseError>(&mut self, req: Request, fx: &mut Effects) -> (r: Next<E>)
        ensures
            published(*old(self), *final(self), *old(fx), *final(fx), req, r),
    {
        if let Some(st) = self.take_payload_error(fx) {
            return st;
        }
        self.start_payload_timer(fx);
        Next::Publish(req)
    }

    /// Hands a request that asks for an upgrade to the control service.
    pub fn ctl_upgrade<E: ResponseError>(&mut self, req: Request) -> (r: Next<E>)
        ensures
            upgrade_asked(*old(self), *final(self), req, r),
    {
        self.codec.reset_upgrade();
        Next::Control(Control::upgrade(req, self.codec.duplicate()))
    }

    /// `100 Continue` was written, or not.
    pub fn on_continue<E: ResponseError>(
        &mut self,
        req: Request,
        err: Option<IoError>,
        fx: &mut Effects,
    ) -> (r: Next<E>)
        ensures
            continue_event(*old(self), *final(self), *old(fx), *final(fx), req, err, r),
    {
        match err {
            Some(e) => self.ctl_peer_gone(Some(e), fx),
            None => {
                self.start_payload_timer(fx);
                let ghost mid_fx = *fx;
                assert(timer_orders(mid_fx, *old(fx), payload_timed_ops(*old(self))));
                if req.upgrade() {
                    self.ctl_upgrade(req)
                } else {
                    self.publish(req, fx)
                }
            },
        }
    }

    /// The control service answered. A body that comes back is the one of the
    /// response that is sent.
    pub fn on_control<E: ResponseError>(
        &mut self,
        result: ControlResult,
        active: bool,
        payload_closed: bool,
        dst: &mut Vec<u8>,
        date: &mut DateService,
        now: u64,
        fx: &mut Effects,
    ) -> (r: (Next<E>, Option<Body>))
        requires
            !(result is Connect),
            answer_of(result) matches Some((head, _)) ==> head.status.0 <= 9999,
            old(date).wf(),
            now < DATE_LIMIT,
        ensures
            final(date).wf(),
            r.1 == match answer_of(result) {
                Some((_, body)) => Some(body),
                None => None,
            },
            control_event(
                *old(self),
                *final(self),
                *old(fx),
                *final(fx),
                result,
                active,
                payload_closed,
                old(dst)@,
                final(dst)@,
                old(date).date_at(now),
                r.0,
            ),
    {
        match result {
            ControlResult::Publish(req) => (self.publish(req, fx), None),
            ControlResult::Response(res, body) | ControlResult::Error(res, body)
            | ControlResult::ProtocolError(res, body) => {
                let st = self.send_response(
                    res.head,
                    body.size(),
                    active,
                    payload_closed,
                    dst,
                    date,
                    now,
                    fx,
                );
                (st, Some(body))
            },
            ControlResult::Continue(req) => (Next::WriteContinue(req), None),
            ControlResult::Expect(req) => (Next::Control(Control::expect(req)), None),
            ControlResult::ExpectFailed(res, body) => {
                self.set_disconnect(ServiceDisconnectReason::ExpectFailed);
                let st = self.send_response(
                    res.head,
                    body.size(),
                    active,
                    payload_closed,
                    dst,
                    date,
                    now,
                    fx,
                );
                (st, Some(body))
            },
            ControlResult::Upgrade(req) => (self.ctl_upgrade(req), None),
            ControlResult::UpgradeAck(req) => {
                self.set_disconnect(ServiceDisconnectReason::UpgradeHandled);
                (self.publish(req, fx), None)
            },
            ControlResult::UpgradeHandled => (
                self.ctl_svc_disconnect(ServiceDisconnectReason::UpgradeHandled, fx),
                None,
            ),
            ControlResult::UpgradeFailed(res, body) => {
                self.set_disconnect(ServiceDisconnectReason::UpgradeFailed);
                let st = self.send_response(
                    res.head,
                    body.size(),
                    active,
                    payload_closed,
                    dst,
                    date,
                    now,
                    fx,
                );
                (st, Some(body))
            },
            ControlResult::Stop | ControlResult::Connect => (self.stop(fx), None),
        }
    }
}

/// A request is handed to the service, or a payload failure is told.
pub open spec fn published<E>(
    d: Dispatcher,
    after: Dispatcher,
    fx: Effects,
    fx_after: Effects,
    req: Request,
    r: Next<E>,
) -> bool {
    match d.pending_payload_error {
        Some(fault) => fault_told(
            Dispatcher { pending_payload_error: None, ..d },
            after,
            fx,
            fx_after,
            fault,
            r,
        ),
        None => {
            &&& r == Next::<E>::Publish(req)
            &&& after == payload_timed(d)
            &&& timer_orders(fx_after, fx, payload_timed_ops(d))
        },
    }
}

/// A request that asks for an upgrade is handed to the control service, with a
/// copy of the codec. The connection is closed unless a handler takes it over.
pub open spec fn upgrade_asked<E>(
    d: Dispatcher,
    after: Dispatcher,
    req: Request,
    r: Next<E>,
) -> bool {
    let codec = Codec { stream: false, ctype: ConnectionType::Close, ..d.codec };
    &&& after == (Dispatcher { codec, ..d })
    &&& r matches Next::Control(Control::Upgrade(m))
    &&& m.req == req
    &&& m.codec == (Codec { decoder: m.codec.decoder, ..codec })
    &&& ready(m.codec.decoder)
    &&& m.codec.decoder.cfg == codec.decoder.cfg
}

/// The response that the control service answered with.
pub open spec fn answer_of(result: ControlResult) -> Option<(ResponseHead, Body)> {
    match result {
        ControlResult::Response(res, body) => Some((res.head, body)),
        ControlResult::Error(res, body) => Some((res.head, body)),
        ControlResult::ProtocolError(res, body) => Some((res.head, body)),
        ControlResult::ExpectFailed(res, body) => Some((res.head, body)),
        ControlResult::UpgradeFailed(res, body) => Some((res.head, body)),
        _ => None,
    }
}

/// The disconnect that a refusal leads to.
pub open spec fn refusal_of(result: ControlResult) -> Option<ServiceDisconnectReason> {
    match result {
        ControlResult::ExpectFailed(_, _) => Some(ServiceDisconnectReason::ExpectFailed),
        ControlResult::UpgradeFailed(_, _) => Some(ServiceDisconnectReason::UpgradeFailed),
        _ => None,
    }
}

/// What follows an answer of the control service that is no response.
pub open spec fn control_next<E>(
    d: Dispatcher,
    after: Dispatcher,
    fx: Effects,
    fx_after: Effects,
    result: ControlResult,
    r: Next<E>,
) -> bool {
    match result {
        ControlResult::Publish(req) => published(d, after, fx, fx_after, req, r),
        ControlResult::Continue(req) => r == Next::<E>::WriteContinue(req) && after == d
            && fx_after == fx,
        ControlResult::Expect(req) => r == Next::Control(
            Control::<E>::Expect(crate::h1::control::Expect { req }),
        ) && after == d && fx_after == fx,
        ControlResult::Upgrade(req) => upgrade_asked(d, after, req, r) && fx_after == fx,
        ControlResult::UpgradeAck(req) => published(
            Dispatcher {
                disconnect: if d.disconnect == Disconnect::Sent {
                    Disconnect::Sent
                } else {
                    Disconnect::Pending(ServiceDisconnectReason::UpgradeHandled)
                },
                ..d
            },
            after,
            fx,
            fx_after,
            req,
            r,
        ),
        ControlResult::UpgradeHandled => disconnected(
            d,
            after,
            fx,
            fx_after,
            svc_msg::<E>(ServiceDisconnectReason::UpgradeHandled),
            r,
        ),
        ControlResult::Stop => {
            &&& r is Stop
            &&& after == (Dispatcher {
                timers: Timers { active: Timer::Stopped, ..d.timers },
                ..d
            })
            &&& timer_orders(fx_after, fx, seq![TimerOp::Stop])
        },
        _ => false,
    }
}

} // verus!
