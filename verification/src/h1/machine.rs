//! The connection dispatcher, one question at a time.
//!
//! The machine asks whoever drives the connection for one thing: to poll a
//! call, to receive, to flush. The answer is an event, and the event leads to
//! the next question.

use vstd::prelude::*;

use crate::body::{Body, BodySize, StreamPoll};
use crate::config::{DateService, HttpServiceConfig, DATE_LIMIT};
use crate::error::{IoError, IoErrorKind};
use crate::h1::control::{Control, ControlResult, ServiceDisconnectReason};
use crate::h1::decoder::{PayloadItem, PayloadType};
use crate::h1::dispatcher::{
    disconnected, due, is_write_timeout, pause_ops, peer_msg, release_ops, released, svc_msg,
    timer_orders, write_start_ops, write_started, write_timeout_error, Disconnect, Dispatcher,
    Effects, IoStatus, Next, PayloadFault, PayloadStep, ReadStep, Received, StreamStatus,
};
use crate::h1::flow::{
    answer_of, body_event, buffered_timers, continue_event, control_event, fault_told,
    payload_event, request_event, response_sent, status_event, stream_event, write_timeout_told,
    BodyStep, FlushStep, SendStart, ServiceStep,
};
use crate::h1::timer::{not_writing, paused, Timer, TimerOp};
use crate::message::ResponseHead;
use crate::request::Request;
use crate::response::ResponseError;
use crate::time::Seconds;

verus! {

/// What the connection is at.
#[derive(Copy, Clone, Debug, PartialEq, Eq, Structural)]
pub enum Stage {
    /// The service handles a request.
    Publish,
    /// The control service handles a message.
    Control,
    /// A request is read.
    ReadRequest,
    /// The rest of a request payload is read.
    ReadPayload,
    /// The body of a response is sent.
    SendPayload,
    /// The transport is shut down.
    Stop,
}

/// On whose behalf a request payload is read.
#[derive(Copy, Clone, Debug, PartialEq, Eq, Structural)]
pub enum Reader {
    /// The service is at work.
    Publish,
    /// The control service is at work.
    Control,
    /// The response was sent, the rest is read.
    Rest,
    /// The response is being sent.
    Send,
}

/// On whose behalf output is flushed.
#[derive(Copy, Clone, Debug, PartialEq, Eq, Structural)]
pub enum Flusher {
    /// A request is read.
    Request,
    /// A payload is read; whether items came.
    Payload(Reader, bool),
    /// A response is sent.
    Send,
}

/// The question that is open.
#[derive(Copy, Clone, Debug, PartialEq, Eq, Structural)]
pub enum Spot {
    /// None: the connection waits for a wake-up.
    Idle,
    /// Whether the service is done.
    Service,
    /// How the transport is while the service is at work.
    Status,
    /// Whether the control service is done.
    Control,
    /// Whether `100 Continue` could be written.
    Continue,
    /// What comes in while a request is read.
    Request,
    /// Whether the stream of the payload takes data.
    Stream(Reader),
    /// What comes in while a payload is read; whether items came.
    Payload(Reader, bool),
    /// Whether output is flushed.
    Flush(Flusher),
    /// How the transport is while output is flushed.
    FlushStatus(Flusher),
    /// The next piece of the body of a response.
    Body,
    /// Whether the transport is shut down.
    Shutdown,
    /// The connection has ended.
    Ended,
}

/// What happened.
#[derive(Debug)]
pub enum Event<E> {
    /// There may be something to do.
    Wake,
    /// The service is done, or `None` while it is at work.
    Service(Option<Result<(ResponseHead, BodySize), E>>),
    /// The state of the transport.
    Status(IoStatus),
    /// The control service is done, or `None` while it is at work.
    Control(Option<ControlResult>),
    /// The control service failed.
    ControlFailed,
    /// `100 Continue` was written for a request, or not.
    Continue(Request, Option<IoError>),
    /// An attempt to receive a request.
    Request(Received<(Request, PayloadType)>),
    /// The state of the stream of the payload.
    Stream(StreamStatus),
    /// An attempt to receive a piece of the payload.
    Payload(Received<PayloadItem>),
    /// Output is flushed, or `None` where that takes time.
    Flush(Option<Result<(), IoError>>),
    /// A piece of the body of the response.
    Body(StreamPoll),
    /// Whether the transport is shut down.
    Shutdown(bool),
}

/// What the driver of the connection is to do.
#[derive(Debug)]
pub enum Ask<E> {
    /// Waits for a wake-up.
    Wait,
    /// Calls the service.
    CallService(Request),
    /// Polls the call of the service.
    PollService,
    /// Calls the control service.
    CallControl(Control<E>),
    /// Polls the call of the control service.
    PollControl,
    /// Writes `100 Continue`.
    Continue(Request),
    /// Looks at the state of the transport.
    Status,
    /// Receives with the codec.
    Request,
    /// Looks at the stream of the payload.
    Stream,
    /// Receives with the payload decoder.
    Payload,
    /// Flushes output.
    Flush,
    /// Polls the body of the response.
    Body,
    /// Shuts the transport down.
    Shutdown,
    /// Is done.
    Done,
}

/// What follows an event.
#[derive(Debug)]
pub struct Step<E> {
    /// What is to be done.
    pub ask: Ask<E>,
    /// The body that is sent from now on.
    pub body: Option<Body>,
    /// The call of the service is left to itself.
    pub detach: bool,
}

/// How the transport looks when an event is handled.
#[derive(Copy, Clone, Debug, PartialEq, Eq, Structural)]
pub struct IoView {
    /// The server shuts down.
    pub shutdown: bool,
    /// The transport is connected.
    pub active: bool,
    /// Output waits to be written.
    pub backpressure: bool,
    /// Nobody reads the request payload.
    pub payload_closed: bool,
    /// Length of the read buffer.
    pub buffered: u32,
    /// What is left on the timer.
    pub unused: Seconds,
    /// Seconds since the epoch.
    pub now: u64,
}

/// The connection dispatcher with the question that is open.
#[derive(Debug)]
pub struct Machine {
    pub d: Dispatcher,
    pub stage: Stage,
    pub spot: Spot,
    /// Length of the read buffer when the question was asked.
    pub buffered: Option<u32>,
}

/// How an attempt to read a payload ended.
#[derive(Debug)]
pub enum PayloadOut {
    /// Items came.
    Done,
    /// No item came.
    Pending,
    /// The payload failed.
    Fault(PayloadFault),
}

// ---------------------------------------------------------------------------
// What the questions are
// ---------------------------------------------------------------------------

/// The stage in which a payload is read on somebody's behalf.
pub open spec fn stage_of(reader: Reader) -> Stage {
    match reader {
        Reader::Publish => Stage::Publish,
        Reader::Control => Stage::Control,
        Reader::Rest => Stage::ReadPayload,
        Reader::Send => Stage::SendPayload,
    }
}

/// The stage in which output is flushed on somebody's behalf.
pub open spec fn flush_stage(flusher: Flusher) -> Stage {
    match flusher {
        Flusher::Request => Stage::ReadRequest,
        Flusher::Payload(reader, _) => stage_of(reader),
        Flusher::Send => Stage::SendPayload,
    }
}

/// The question belongs to the stage.
pub open spec fn spot_in(spot: Spot, stage: Stage) -> bool {
    match spot {
        Spot::Idle | Spot::Ended => true,
        Spot::Service | Spot::Status => stage == Stage::Publish,
        Spot::Control | Spot::Continue => stage == Stage::Control,
        Spot::Request => stage == Stage::ReadRequest,
        Spot::Stream(reader) | Spot::Payload(reader, _) => stage == stage_of(reader),
        Spot::Flush(flusher) | Spot::FlushStatus(flusher) => stage == flush_stage(flusher),
        Spot::Body => stage == Stage::SendPayload,
        Spot::Shutdown => stage == Stage::Stop,
    }
}

/// The question is about a request payload.
pub open spec fn about_payload(spot: Spot) -> bool {
    match spot {
        Spot::Stream(_) | Spot::Payload(_, _) => true,
        Spot::Flush(Flusher::Payload(_, _)) | Spot::FlushStatus(Flusher::Payload(_, _)) => true,
        _ => false,
    }
}

/// The question is part of an attempt to read a request.
pub open spec fn about_request(spot: Spot) -> bool {
    match spot {
        Spot::Request | Spot::Flush(Flusher::Request) | Spot::FlushStatus(Flusher::Request) => true,
        _ => false,
    }
}

/// The event answers the question.
pub open spec fn answers<E>(spot: Spot, ev: Event<E>) -> bool {
    match spot {
        Spot::Idle => ev is Wake,
        Spot::Service => ev is Service,
        Spot::Status => ev is Status,
        Spot::Control => ev is Control || ev is ControlFailed,
        Spot::Continue => ev is Continue,
        Spot::Request => ev is Request,
        Spot::Stream(_) => ev is Stream,
        Spot::Payload(_, _) => ev is Payload,
        Spot::Flush(_) => ev is Flush,
        Spot::FlushStatus(_) => ev is Status,
        Spot::Body => ev is Body,
        Spot::Shutdown => ev is Shutdown,
        Spot::Ended => false,
    }
}

/// What is asked for is the open question.
pub open spec fn asks<E>(spot: Spot, ask: Ask<E>) -> bool {
    match spot {
        Spot::Idle => ask is Wait,
        Spot::Service => ask is CallService || ask is PollService,
        Spot::Status | Spot::FlushStatus(_) => ask is Status,
        Spot::Control => ask is CallControl || ask is PollControl,
        Spot::Continue => ask is Continue,
        Spot::Request => ask is Request,
        Spot::Stream(_) => ask is Stream,
        Spot::Payload(_, _) => ask is Payload,
        Spot::Flush(_) => ask is Flush,
        Spot::Body => ask is Body,
        Spot::Shutdown => ask is Shutdown,
        Spot::Ended => ask is Done,
    }
}

/// The control service is called with the message that the connection ends.
pub open spec fn tells_end<E>(ask: Ask<E>) -> bool {
    ask matches Ask::CallControl(c) && c is Disconnect
}

impl Machine {
    /// The parts fit. While a request is read, no payload is left of the one
    /// before, and no end of the connection is under way.
    pub open spec fn wf(self) -> bool {
        &&& spot_in(self.spot, self.stage)
        &&& self.stage == Stage::ReadRequest ==> self.d.payload is None
        &&& about_payload(self.spot) ==> self.d.payload is Some
        &&& about_request(self.spot) ==> self.d.disconnect == Disconnect::Open
    }
}

// ---------------------------------------------------------------------------
// What follows
// ---------------------------------------------------------------------------

/// The machine waits for a wake-up.
pub open spec fn waits<E>(d: Dispatcher, stage: Stage, after: Machine, ask: Ask<E>) -> bool {
    &&& after == (Machine { d, stage, spot: Spot::Idle, buffered: None })
    &&& ask is Wait
}

/// The machine flushes output.
pub open spec fn flushes<E>(d: Dispatcher, flusher: Flusher, after: Machine, ask: Ask<E>) -> bool {
    &&& after == (Machine {
        d,
        stage: flush_stage(flusher),
        spot: Spot::Flush(flusher),
        buffered: None,
    })
    &&& ask is Flush
}

/// The machine takes up a call, or stops.
pub open spec fn settled<E>(d: Dispatcher, next: Next<E>, after: Machine, ask: Ask<E>) -> bool {
    match next {
        Next::Publish(req) => {
            &&& after == (Machine {
                d,
                stage: Stage::Publish,
                spot: Spot::Service,
                buffered: None,
            })
            &&& ask == Ask::<E>::CallService(req)
        },
        Next::Control(c) => {
            &&& after == (Machine {
                d,
                stage: Stage::Control,
                spot: Spot::Control,
                buffered: None,
            })
            &&& ask == Ask::CallControl(c)
        },
        Next::WriteContinue(req) => {
            &&& after == (Machine {
                d,
                stage: Stage::Control,
                spot: Spot::Continue,
                buffered: None,
            })
            &&& ask == Ask::<E>::Continue(req)
        },
        Next::Stop => {
            &&& after == (Machine {
                d,
                stage: Stage::Stop,
                spot: Spot::Shutdown,
                buffered: None,
            })
            &&& ask is Shutdown
        },
        _ => false,
    }
}

/// The control service is told of the end of the connection, unless it was told
/// before.
pub open spec fn ends<E>(
    d: Dispatcher,
    fx: Effects,
    msg: Control<E>,
    after: Machine,
    fx_after: Effects,
    ask: Ask<E>,
) -> bool {
    exists|next: Next<E>| #[trigger]
        disconnected(d, after.d, fx, fx_after, msg, next) && settled(after.d, next, after, ask)
}

/// A disconnect that is due is carried out.
pub open spec fn ends_due<E>(
    d: Dispatcher,
    fx: Effects,
    after: Machine,
    fx_after: Effects,
    ask: Ask<E>,
) -> bool {
    exists|next: Next<E>| #[trigger]
        due(d, after.d, fx, fx_after, Some(next)) && settled(after.d, next, after, ask)
}

/// An attempt to read a request starts.
pub open spec fn reads_request<E>(
    d: Dispatcher,
    fx: Effects,
    io: IoView,
    after: Machine,
    fx_after: Effects,
    ask: Ask<E>,
) -> bool {
    if io.shutdown {
        ends(d, fx, svc_msg::<E>(ServiceDisconnectReason::Shutdown), after, fx_after, ask)
    } else {
        &&& after == (Machine {
            d: Dispatcher {
                timers: buffered_timers(released(d.timers, io.backpressure), io.buffered),
                ..d
            },
            stage: Stage::ReadRequest,
            spot: Spot::Request,
            buffered: Some(io.buffered),
        })
        &&& timer_orders(fx_after, fx, release_ops(d.timers, io.backpressure))
        &&& ask is Request
    }
}

/// The next request is read, unless the connection ends.
pub open spec fn at_request<E>(
    d: Dispatcher,
    fx: Effects,
    io: IoView,
    after: Machine,
    fx_after: Effects,
    ask: Ask<E>,
) -> bool {
    if d.disconnect == Disconnect::Open {
        reads_request(d, fx, io, after, fx_after, ask)
    } else {
        ends_due(d, fx, after, fx_after, ask)
    }
}

/// A payload failed once the response was sent: nobody is told, the connection
/// ends.
pub open spec fn rest_failed<E>(
    d: Dispatcher,
    fx: Effects,
    fault: PayloadFault,
    after: Machine,
    fx_after: Effects,
    ask: Ask<E>,
) -> bool {
    exists|mid: Dispatcher, mid_fx: Effects, dropped: Next<E>| #[trigger]
        fault_told(d, mid, fx, mid_fx, fault, dropped) && ends_due(mid, mid_fx, after, fx_after, ask)
}

/// The rest of a payload was looked at: the connection ends, the next request
/// is read once nothing is left of the payload, or more of it is awaited.
pub open spec fn rest_read<E>(
    d: Dispatcher,
    fx: Effects,
    io: IoView,
    after: Machine,
    fx_after: Effects,
    ask: Ask<E>,
) -> bool {
    if d.disconnect != Disconnect::Open || d.payload is None {
        at_request(d, fx, io, after, fx_after, ask)
    } else {
        waits(d, Stage::ReadPayload, after, ask) && fx_after == fx
    }
}

/// The rest of a payload is read.
pub open spec fn at_payload<E>(
    d: Dispatcher,
    fx: Effects,
    io: IoView,
    after: Machine,
    fx_after: Effects,
    ask: Ask<E>,
) -> bool {
    match d.pending_payload_error {
        Some(fault) => rest_failed(
            Dispatcher { pending_payload_error: None, ..d },
            fx,
            fault,
            after,
            fx_after,
            ask,
        ),
        None => if d.payload is None {
            rest_read(d, fx, io, after, fx_after, ask)
        } else {
            &&& after == (Machine {
                d,
                stage: Stage::ReadPayload,
                spot: Spot::Stream(Reader::Rest),
                buffered: None,
            })
            &&& fx_after == fx
            &&& ask is Stream
        },
    }
}

/// A payload failed while a response is sent.
pub open spec fn send_failed<E>(
    d: Dispatcher,
    fx: Effects,
    fault: PayloadFault,
    after: Machine,
    fx_after: Effects,
    ask: Ask<E>,
) -> bool {
    match fault {
        PayloadFault::Peer(e) => ends(d, fx, peer_msg::<E>(e), after, fx_after, ask),
        PayloadFault::Protocol(_) => flushes(
            Dispatcher { disconnect: Disconnect::Sent, ..d },
            Flusher::Send,
            after,
            ask,
        ) && fx_after == fx,
    }
}

/// The body of a response is sent.
pub open spec fn at_send<E>(
    d: Dispatcher,
    fx: Effects,
    io: IoView,
    after: Machine,
    fx_after: Effects,
    ask: Ask<E>,
) -> bool {
    match d.pending_payload_error {
        Some(fault) => send_failed(
            Dispatcher { pending_payload_error: None, ..d },
            fx,
            fault,
            after,
            fx_after,
            ask,
        ),
        None => if !io.active {
            ends(d, fx, peer_msg::<E>(None), after, fx_after, ask)
        } else if d.disconnect is Pending || d.payload is None {
            flushes(d, Flusher::Send, after, ask) && fx_after == fx
        } else {
            &&& after == (Machine {
                d,
                stage: Stage::SendPayload,
                spot: Spot::Stream(Reader::Send),
                buffered: None,
            })
            &&& fx_after == fx
            &&& ask is Stream
        },
    }
}

/// The machine goes on to something else.
pub open spec fn went<E>(
    d: Dispatcher,
    fx: Effects,
    next: Next<E>,
    io: IoView,
    after: Machine,
    fx_after: Effects,
    ask: Ask<E>,
) -> bool {
    match next {
        Next::ReadRequest => at_request(d, fx, io, after, fx_after, ask),
        Next::ReadPayload => at_payload(d, fx, io, after, fx_after, ask),
        Next::SendPayload => at_send(d, fx, io, after, fx_after, ask),
        _ => settled(d, next, after, ask) && fx_after == fx,
    }
}

/// A piece of the payload is received. Its bytes count where payload timing
/// runs.
pub open spec fn receives<E>(
    d: Dispatcher,
    reader: Reader,
    updated: bool,
    io: IoView,
    after: Machine,
    ask: Ask<E>,
) -> bool {
    &&& after == (Machine {
        d,
        stage: stage_of(reader),
        spot: Spot::Payload(reader, updated),
        buffered: if d.timers.active == Timer::Payload {
            Some(io.buffered)
        } else {
            None
        },
    })
    &&& ask is Payload
}

/// An attempt to read a payload ended.
pub open spec fn payload_over<E>(
    d: Dispatcher,
    fx: Effects,
    reader: Reader,
    out: PayloadOut,
    io: IoView,
    after: Machine,
    fx_after: Effects,
    ask: Ask<E>,
) -> bool {
    match reader {
        Reader::Control => {
            let kept = match (out, d.pending_payload_error) {
                (PayloadOut::Fault(fault), None) => Dispatcher {
                    pending_payload_error: Some(fault),
                    ..d
                },
                _ => d,
            };
            waits(kept, Stage::Control, after, ask) && fx_after == fx
        },
        Reader::Publish => match out {
            PayloadOut::Fault(fault) => exists|next: Next<E>| #[trigger]
                fault_told(d, after.d, fx, fx_after, fault, next) && settled(
                    after.d,
                    next,
                    after,
                    ask,
                ),
            _ => waits(d, Stage::Publish, after, ask) && fx_after == fx,
        },
        Reader::Rest => match out {
            PayloadOut::Fault(fault) => rest_failed(d, fx, fault, after, fx_after, ask),
            _ => rest_read(d, fx, io, after, fx_after, ask),
        },
        Reader::Send => match out {
            PayloadOut::Fault(fault) => send_failed(d, fx, fault, after, fx_after, ask),
            _ => flushes(d, Flusher::Send, after, ask) && fx_after == fx,
        },
    }
}

/// How an attempt ended that did not fail.
pub open spec fn out_of(updated: bool) -> PayloadOut {
    if updated {
        PayloadOut::Done
    } else {
        PayloadOut::Pending
    }
}

/// Output was flushed, or not.
pub open spec fn flushed<E>(
    d: Dispatcher,
    fx: Effects,
    flusher: Flusher,
    res: Option<Result<(), IoError>>,
    io: IoView,
    after: Machine,
    fx_after: Effects,
    ask: Ask<E>,
) -> bool {
    match flusher {
        Flusher::Request => match res {
            None => waits(d, Stage::ReadRequest, after, ask) && fx_after == fx,
            Some(Ok(_)) => reads_request(d, fx, io, after, fx_after, ask),
            Some(Err(e)) => ends(d, fx, peer_msg::<E>(Some(e)), after, fx_after, ask),
        },
        Flusher::Payload(reader, updated) => match res {
            None => exists|mid_fx: Effects| #[trigger]
                timer_orders(mid_fx, fx, pause_ops(d.timers)) && payload_over(
                    Dispatcher { timers: paused(d.timers, io.unused), ..d },
                    mid_fx,
                    reader,
                    out_of(updated),
                    io,
                    after,
                    fx_after,
                    ask,
                ),
            Some(Ok(_)) => receives(d, reader, updated, io, after, ask) && fx_after == fx,
            Some(Err(e)) => exists|mid_fx: Effects|
                (if e.kind == IoErrorKind::TimedOut {
                    write_timeout_told(mid_fx, fx, d.payload)
                } else {
                    mid_fx == fx
                }) && #[trigger] payload_over(
                    d,
                    mid_fx,
                    reader,
                    PayloadOut::Fault(PayloadFault::Peer(Some(e))),
                    io,
                    after,
                    fx_after,
                    ask,
                ),
        },
        Flusher::Send => match res {
            None => waits(d, Stage::SendPayload, after, ask) && fx_after == fx,
            Some(Err(e)) if e.kind == IoErrorKind::TimedOut => exists|mid_fx: Effects|
                #[trigger]
                write_timeout_told(mid_fx, fx, d.payload) && ends(
                    d,
                    mid_fx,
                    peer_msg::<E>(Some(e)),
                    after,
                    fx_after,
                    ask,
                ),
            Some(_) => {
                &&& after == (Machine {
                    d,
                    stage: Stage::SendPayload,
                    spot: Spot::Body,
                    buffered: None,
                })
                &&& fx_after == fx
                &&& ask is Body
            },
        },
    }
}

// ---------------------------------------------------------------------------
// Events
// ---------------------------------------------------------------------------

/// The machine takes up its stage again.
pub open spec fn woken<E>(
    m: Machine,
    fx: Effects,
    io: IoView,
    after: Machine,
    fx_after: Effects,
    ask: Ask<E>,
) -> bool {
    match m.stage {
        Stage::Publish => {
            &&& after == (Machine { spot: Spot::Service, buffered: None, ..m })
            &&& fx_after == fx
            &&& ask is PollService
        },
        Stage::Control => {
            &&& after == (Machine { spot: Spot::Control, buffered: None, ..m })
            &&& fx_after == fx
            &&& ask is PollControl
        },
        Stage::ReadRequest => at_request(m.d, fx, io, after, fx_after, ask),
        Stage::ReadPayload => at_payload(m.d, fx, io, after, fx_after, ask),
        Stage::SendPayload => at_send(m.d, fx, io, after, fx_after, ask),
        Stage::Stop => {
            &&& after == (Machine { spot: Spot::Shutdown, buffered: None, ..m })
            &&& fx_after == fx
            &&& ask is Shutdown
        },
    }
}

/// The service is at work: a failure of the payload is told, otherwise the
/// payload is read on, or the transport is watched.
pub open spec fn service_busy<E>(
    d: Dispatcher,
    fx: Effects,
    after: Machine,
    fx_after: Effects,
    ask: Ask<E>,
) -> bool {
    match d.pending_payload_error {
        Some(fault) => exists|next: Next<E>| #[trigger]
            fault_told(
                Dispatcher { pending_payload_error: None, ..d },
                after.d,
                fx,
                fx_after,
                fault,
                next,
            ) && settled(after.d, next, after, ask),
        None => {
            &&& fx_after == fx
            &&& if d.payload is Some {
                &&& after == (Machine {
                    d,
                    stage: Stage::Publish,
                    spot: Spot::Stream(Reader::Publish),
                    buffered: None,
                })
                &&& ask is Stream
            } else {
                &&& after == (Machine {
                    d,
                    stage: Stage::Publish,
                    spot: Spot::Status,
                    buffered: None,
                })
                &&& ask is Status
            }
        },
    }
}

/// The service failed: the control service is told, with the answer to the
/// failure.
pub open spec fn service_failed<E: ResponseError>(
    d: Dispatcher,
    fx: Effects,
    err: E,
    after: Machine,
    fx_after: Effects,
    ask: Ask<E>,
) -> bool {
    exists|msg: Control<E>| #[trigger]
        ends(d, fx, msg, after, fx_after, ask) && (msg matches Control::Disconnect(
            crate::h1::control::Reason::Error(e),
        ) && e.err == err && err.answered_with(e.pkt))
}

/// The service answered: the response is sent.
pub open spec fn service_done<E>(
    d: Dispatcher,
    fx: Effects,
    head: ResponseHead,
    size: BodySize,
    io: IoView,
    dst: Seq<u8>,
    date: Seq<u8>,
    after: Machine,
    fx_after: Effects,
    out: Seq<u8>,
    ask: Ask<E>,
) -> bool {
    exists|mid: Dispatcher, mid_fx: Effects, next: Next<E>| #[trigger]
        response_sent(
            d,
            mid,
            fx,
            mid_fx,
            head,
            size,
            io.active,
            io.payload_closed,
            dst,
            out,
            date,
            next,
        ) && went(mid, mid_fx, next, io, after, fx_after, ask)
}

/// The transport was looked at while the service is at work.
pub open spec fn service_status<E>(
    d: Dispatcher,
    fx: Effects,
    status: IoStatus,
    io: IoView,
    after: Machine,
    fx_after: Effects,
    ask: Ask<E>,
) -> bool {
    exists|r: Option<Next<E>>| #[trigger]
        status_event(d, after.d, fx, fx_after, status, io.backpressure, io.unused, r) && match r {
            Some(next) => settled(after.d, next, after, ask),
            None => waits(after.d, Stage::Publish, after, ask),
        }
}

/// The control service is at work: the payload is read on, unless it failed.
pub open spec fn control_busy<E>(
    d: Dispatcher,
    fx: Effects,
    after: Machine,
    fx_after: Effects,
    ask: Ask<E>,
) -> bool {
    &&& fx_after == fx
    &&& if d.pending_payload_error is None && d.payload is Some {
        &&& after == (Machine {
            d,
            stage: Stage::Control,
            spot: Spot::Stream(Reader::Control),
            buffered: None,
        })
        &&& ask is Stream
    } else {
        waits(d, Stage::Control, after, ask)
    }
}

/// The control service answered.
pub open spec fn control_done<E>(
    d: Dispatcher,
    fx: Effects,
    result: ControlResult,
    io: IoView,
    dst: Seq<u8>,
    date: Seq<u8>,
    after: Machine,
    fx_after: Effects,
    out: Seq<u8>,
    ask: Ask<E>,
) -> bool {
    exists|mid: Dispatcher, mid_fx: Effects, next: Next<E>| #[trigger]
        control_event(
            d,
            mid,
            fx,
            mid_fx,
            result,
            io.active,
            io.payload_closed,
            dst,
            out,
            date,
            next,
        ) && went(mid, mid_fx, next, io, after, fx_after, ask)
}

/// `100 Continue` was written, or not.
pub open spec fn continued<E>(
    d: Dispatcher,
    fx: Effects,
    req: Request,
    err: Option<IoError>,
    after: Machine,
    fx_after: Effects,
    ask: Ask<E>,
) -> bool {
    exists|next: Next<E>| #[trigger]
        continue_event(d, after.d, fx, fx_after, req, err, next) && settled(
            after.d,
            next,
            after,
            ask,
        )
}

/// There was an attempt to receive a request.
pub open spec fn request_received<E>(
    m: Machine,
    fx: Effects,
    ev: Received<(Request, PayloadType)>,
    io: IoView,
    after: Machine,
    fx_after: Effects,
    ask: Ask<E>,
) -> bool {
    exists|mid: Dispatcher, mid_fx: Effects, r: ReadStep<E>| #[trigger]
        request_event(
            m.d,
            mid,
            fx,
            mid_fx,
            ev,
            length_before(m),
            io.buffered,
            io.backpressure,
            r,
        ) && match r {
            ReadStep::Pending => waits(mid, Stage::ReadRequest, after, ask) && fx_after == mid_fx,
            ReadStep::Again => reads_request(mid, mid_fx, io, after, fx_after, ask),
            ReadStep::Flush => flushes(mid, Flusher::Request, after, ask) && fx_after == mid_fx,
            ReadStep::Goto(next) => settled(mid, next, after, ask) && fx_after == mid_fx,
        }
}

/// Length of the read buffer when the question was asked.
pub open spec fn length_before(m: Machine) -> u32 {
    match m.buffered {
        Some(n) => n,
        None => 0,
    }
}

/// The stream of the payload was looked at.
pub open spec fn stream_seen<E>(
    d: Dispatcher,
    fx: Effects,
    reader: Reader,
    status: StreamStatus,
    io: IoView,
    after: Machine,
    fx_after: Effects,
    ask: Ask<E>,
) -> bool {
    exists|mid: Dispatcher, mid_fx: Effects| #[trigger]
        stream_event(d, mid, fx, mid_fx, status, io.backpressure, io.unused) && (if status
            == StreamStatus::Ready {
            receives(mid, reader, false, io, after, ask) && fx_after == mid_fx
        } else {
            payload_over(mid, mid_fx, reader, PayloadOut::Pending, io, after, fx_after, ask)
        })
}

/// There was an attempt to receive a piece of the payload.
pub open spec fn payload_received<E>(
    m: Machine,
    fx: Effects,
    reader: Reader,
    updated: bool,
    ev: Received<PayloadItem>,
    io: IoView,
    after: Machine,
    fx_after: Effects,
    ask: Ask<E>,
) -> bool {
    exists|mid: Dispatcher, mid_fx: Effects, r: PayloadStep| #[trigger]
        payload_event(
            m.d,
            mid,
            fx,
            mid_fx,
            ev,
            m.buffered,
            io.buffered,
            io.backpressure,
            r,
        ) && match r {
            PayloadStep::Item => receives(mid, reader, true, io, after, ask) && fx_after == mid_fx,
            PayloadStep::Again => receives(mid, reader, updated, io, after, ask) && fx_after
                == mid_fx,
            PayloadStep::Flush => flushes(mid, Flusher::Payload(reader, updated), after, ask)
                && fx_after == mid_fx,
            PayloadStep::Wait => payload_over(
                mid,
                mid_fx,
                reader,
                out_of(updated),
                io,
                after,
                fx_after,
                ask,
            ),
            PayloadStep::Ended => payload_over(
                mid,
                mid_fx,
                reader,
                PayloadOut::Done,
                io,
                after,
                fx_after,
                ask,
            ),
            PayloadStep::Fault(fault) => payload_over(
                mid,
                mid_fx,
                reader,
                PayloadOut::Fault(fault),
                io,
                after,
                fx_after,
                ask,
            ),
        }
}

/// Output was flushed, which stops the write timer; or it takes time, which
/// starts it.
pub open spec fn flush_seen<E>(
    d: Dispatcher,
    fx: Effects,
    flusher: Flusher,
    res: Option<Result<(), IoError>>,
    io: IoView,
    after: Machine,
    fx_after: Effects,
    ask: Ask<E>,
) -> bool {
    match res {
        Some(_) => exists|mid_fx: Effects| #[trigger]
            timer_orders(mid_fx, fx, release_ops(d.timers, false)) && flushed(
                Dispatcher { timers: not_writing(d.timers), ..d },
                mid_fx,
                flusher,
                res,
                io,
                after,
                fx_after,
                ask,
            ),
        None => {
            let mid = Dispatcher {
                timers: write_started(d.timers, d.cfg().write_timeout, io.unused),
                ..d
            };
            exists|mid_fx: Effects| #[trigger]
                timer_orders(mid_fx, fx, write_start_ops(d.timers, d.cfg().write_timeout)) && (
                if mid.timers.active.for_write() {
                    &&& after == (Machine {
                        d: mid,
                        stage: flush_stage(flusher),
                        spot: Spot::FlushStatus(flusher),
                        buffered: None,
                    })
                    &&& fx_after == mid_fx
                    &&& ask is Status
                } else {
                    flushed(mid, mid_fx, flusher, None, io, after, fx_after, ask)
                })
        },
    }
}

/// The transport was looked at while output is flushed.
pub open spec fn flush_watched<E>(
    d: Dispatcher,
    fx: Effects,
    flusher: Flusher,
    status: IoStatus,
    io: IoView,
    after: Machine,
    fx_after: Effects,
    ask: Ask<E>,
) -> bool {
    if status is KeepAlive {
        exists|e: IoError| #[trigger]
            is_write_timeout(e) && flushed(
                d,
                fx,
                flusher,
                Some(Err(e)),
                io,
                after,
                fx_after,
                ask,
            )
    } else if status is Pending && !io.backpressure {
        flushes(d, flusher, after, ask) && fx_after == fx
    } else {
        flushed(d, fx, flusher, None, io, after, fx_after, ask)
    }
}

/// The body of the response gave something.
pub open spec fn body_seen<E>(
    d: Dispatcher,
    fx: Effects,
    item: StreamPoll,
    io: IoView,
    dst: Seq<u8>,
    after: Machine,
    fx_after: Effects,
    out: Seq<u8>,
    ask: Ask<E>,
) -> bool {
    exists|mid: Dispatcher, mid_fx: Effects, r: BodyStep<E>| #[trigger]
        body_event(d, mid, fx, mid_fx, item, dst, out, r) && match r {
            BodyStep::Again => flushes(mid, Flusher::Send, after, ask) && fx_after == mid_fx,
            BodyStep::Pending => waits(mid, Stage::SendPayload, after, ask) && fx_after == mid_fx,
            BodyStep::Goto(next) => went(mid, mid_fx, next, io, after, fx_after, ask),
        }
}

/// What follows an event.
pub open spec fn resumed<E: ResponseError>(
    m: Machine,
    fx: Effects,
    ev: Event<E>,
    io: IoView,
    dst: Seq<u8>,
    date: Seq<u8>,
    after: Machine,
    fx_after: Effects,
    out: Seq<u8>,
    ask: Ask<E>,
) -> bool {
    match ev {
        Event::Service(Some(Ok((head, size)))) => service_done(
            m.d,
            fx,
            head,
            size,
            io,
            dst,
            date,
            after,
            fx_after,
            out,
            ask,
        ),
        Event::Control(Some(result)) => control_done(
            m.d,
            fx,
            result,
            io,
            dst,
            date,
            after,
            fx_after,
            out,
            ask,
        ),
        Event::Body(item) => body_seen(m.d, fx, item, io, dst, after, fx_after, out, ask),
        _ => out == dst && resumed_quietly(m, fx, ev, io, after, fx_after, ask),
    }
}

/// What follows an event on which nothing is written.
pub open spec fn resumed_quietly<E: ResponseError>(
    m: Machine,
    fx: Effects,
    ev: Event<E>,
    io: IoView,
    after: Machine,
    fx_after: Effects,
    ask: Ask<E>,
) -> bool {
    match (m.spot, ev) {
        (_, Event::Wake) => woken(m, fx, io, after, fx_after, ask),
        (_, Event::Service(None)) => service_busy(m.d, fx, after, fx_after, ask),
        (_, Event::Service(Some(Err(e)))) => service_failed(m.d, fx, e, after, fx_after, ask),
        (Spot::Status, Event::Status(status)) => service_status(
            m.d,
            fx,
            status,
            io,
            after,
            fx_after,
            ask,
        ),
        (Spot::FlushStatus(flusher), Event::Status(status)) => flush_watched(
            m.d,
            fx,
            flusher,
            status,
            io,
            after,
            fx_after,
            ask,
        ),
        (_, Event::Control(None)) => control_busy(m.d, fx, after, fx_after, ask),
        (_, Event::ControlFailed) => {
            &&& after == (Machine { spot: Spot::Ended, buffered: None, ..m })
            &&& fx_after == fx
            &&& ask is Done
        },
        (_, Event::Continue(req, err)) => continued(m.d, fx, req, err, after, fx_after, ask),
        (_, Event::Request(ev)) => request_received(m, fx, ev, io, after, fx_after, ask),
        (Spot::Stream(reader), Event::Stream(status)) => stream_seen(
            m.d,
            fx,
            reader,
            status,
            io,
            after,
            fx_after,
            ask,
        ),
        (Spot::Payload(reader, updated), Event::Payload(ev)) => payload_received(
            m,
            fx,
            reader,
            updated,
            ev,
            io,
            after,
            fx_after,
            ask,
        ),
        (Spot::Flush(flusher), Event::Flush(res)) => flush_seen(
            m.d,
            fx,
            flusher,
            res,
            io,
            after,
            fx_after,
            ask,
        ),
        (_, Event::Shutdown(done)) => if done {
            &&& after == (Machine { spot: Spot::Ended, buffered: None, ..m })
            &&& fx_after == fx
            &&& ask is Done
        } else {
            waits(m.d, Stage::Stop, after, ask) && fx_after == fx
        },
        _ => false,
    }
}

/// The head of a response that an event brings.
pub open spec fn head_in<E>(ev: Event<E>) -> Option<ResponseHead> {
    match ev {
        Event::Service(Some(Ok((head, _)))) => Some(head),
        Event::Control(Some(result)) => match answer_of(result) {
            Some((head, _)) => Some(head),
            None => None,
        },
        _ => None,
    }
}

/// The body of a response that an event brings.
pub open spec fn body_in<E>(ev: Event<E>) -> Option<Body> {
    match ev {
        Event::Control(Some(result)) => match answer_of(result) {
            Some((_, body)) => Some(body),
            None => None,
        },
        _ => None,
    }
}

/// The end of the connection is told at most once.
pub open spec fn told_step<E>(before: Disconnect, after: Disconnect, ask: Ask<E>) -> bool {
    &&& before == Disconnect::Sent ==> after == Disconnect::Sent
    &&& tells_end(ask) ==> before != Disconnect::Sent && after == Disconnect::Sent
}

/// What holds of the machine after every event.
pub open spec fn sound<E>(before: Dispatcher, after: Machine, ask: Ask<E>) -> bool {
    &&& after.wf()
    &&& asks(after.spot, ask)
    &&& told_step(before.disconnect, after.d.disconnect, ask)
}

impl Machine {
    /// The machine of a new connection.
    pub fn new(id: usize, cfg: HttpServiceConfig, fx: &mut Effects) -> (r: Machine)
        ensures
            r.wf(),
            r.stage == Stage::ReadRequest,
            r.spot == Spot::Idle,
            r.buffered is None,
            r.d.cfg() == cfg,
            r.d.codec.con_id == id,
            r.d.timers.active == Timer::ClientTimeout,
            r.d.disconnect == Disconnect::Open,
            r.d.payload is None,
            r.d.pending_payload_error is None,
            timer_orders(
                *final(fx),
                *old(fx),
                match cfg.headers_read_rate {
                    Some(rate) => seq![TimerOp::Stop, TimerOp::Start(rate.timeout)],
                    None => seq![TimerOp::Stop],
                },
            ),
    {
        let d = Dispatcher::new(id, cfg, fx);
        Machine { d, stage: Stage::ReadRequest, spot: Spot::Idle, buffered: None }
    }

    fn wait<E>(&mut self, stage: Stage) -> (r: Ask<E>)
        requires
            stage == Stage::ReadRequest ==> old(self).d.payload is None,
        ensures
            waits(old(self).d, stage, *final(self), r),
            sound(old(self).d, *final(self), r),
    {
        self.stage = stage;
        self.spot = Spot::Idle;
        self.buffered = None;
        Ask::Wait
    }

    fn flush<E>(&mut self, flusher: Flusher) -> (r: Ask<E>)
        requires
            flusher is Payload ==> old(self).d.payload is Some,
            flusher is Request ==> old(self).d.payload is None && old(self).d.disconnect
                == Disconnect::Open,
        ensures
            flushes(old(self).d, flusher, *final(self), r),
            sound(old(self).d, *final(self), r),
    {
        self.stage = match flusher {
            Flusher::Request => Stage::ReadRequest,
            Flusher::Payload(reader, _) => Self::stage_for(reader),
            Flusher::Send => Stage::SendPayload,
        };
        self.spot = Spot::Flush(flusher);
        self.buffered = None;
        Ask::Flush
    }

    fn stage_for(reader: Reader) -> (r: Stage)
        ensures
            r == stage_of(reader),
    {
        match reader {
            Reader::Publish => Stage::Publish,
            Reader::Control => Stage::Control,
            Reader::Rest => Stage::ReadPayload,
            Reader::Send => Stage::SendPayload,
        }
    }

    fn settle<E>(&mut self, next: Next<E>) -> (r: Ask<E>)
        requires
            next is Publish || next is Control || next is WriteContinue || next is Stop,
        ensures
            settled(old(self).d, next, *final(self), r),
            final(self).wf(),
            asks(final(self).spot, r),
    {
        self.buffered = None;
        match next {
            Next::Publish(req) => {
                self.stage = Stage::Publish;
                self.spot = Spot::Service;
                Ask::CallService(req)
            },
            Next::Control(c) => {
                self.stage = Stage::Control;
                self.spot = Spot::Control;
                Ask::CallControl(c)
            },
            Next::WriteContinue(req) => {
                self.stage = Stage::Control;
                self.spot = Spot::Continue;
                Ask::Continue(req)
            },
            _ => {
                self.stage = Stage::Stop;
                self.spot = Spot::Shutdown;
                Ask::Shutdown
            },
        }
    }

    fn read_request<E: ResponseError>(&mut self, io: &IoView, fx: &mut Effects) -> (r: Ask<E>)
        requires
            old(self).d.payload is None,
            old(self).d.disconnect == Disconnect::Open,
        ensures
            reads_request(old(self).d, *old(fx), *io, *final(self), *final(fx), r),
            sound(old(self).d, *final(self), r),
    {
        match self.d.begin_read_request::<E>(io.shutdown, io.backpressure, io.buffered, fx) {
            Some(next) => {
                let ghost told = next;
                assert(disconnected(
                    old(self).d,
                    self.d,
                    *old(fx),
                    *fx,
                    svc_msg::<E>(ServiceDisconnectReason::Shutdown),
                    told,
                ));
                self.settle(next)
            },
            None => {
                self.stage = Stage::ReadRequest;
                self.spot = Spot::Request;
                self.buffered = Some(io.buffered);
                Ask::Request
            },
        }
    }

    fn next_request<E: ResponseError>(&mut self, io: &IoView, fx: &mut Effects) -> (r: Ask<E>)
        requires
            old(self).d.disconnect == Disconnect::Open ==> old(self).d.payload is None,
        ensures
            at_request(old(self).d, *old(fx), *io, *final(self), *final(fx), r),
            sound(old(self).d, *final(self), r),
    {
        let ghost d = self.d;
        let ghost before = *fx;
        match self.d.check_disconnect::<E>(fx) {
            Some(next) => {
                let ghost told = next;
                assert(due(d, self.d, before, *fx, Some(told)));
                self.settle(next)
            },
            None => self.read_request(io, fx),
        }
    }

    fn rest_fault<E: ResponseError>(&mut self, fault: PayloadFault, fx: &mut Effects) -> (r: Ask<E>)
        ensures
            rest_failed(old(self).d, *old(fx), fault, *final(self), *final(fx), r),
            sound(old(self).d, *final(self), r),
    {
        let ghost d = self.d;
        let dropped = self.d.on_payload_fault::<E>(fault, fx);
        let ghost mid = self.d;
        let ghost mid_fx = *fx;
        assert(fault_told(d, mid, *old(fx), mid_fx, fault, dropped));
        match self.d.check_disconnect::<E>(fx) {
            Some(next) => {
                let ghost told = next;
                assert(due(mid, self.d, mid_fx, *fx, Some(told)));
                self.settle(next)
            },
            None => self.settle(Next::Stop),
        }
    }

    fn after_rest<E: ResponseError>(&mut self, io: &IoView, fx: &mut Effects) -> (r: Ask<E>)
        ensures
            rest_read(old(self).d, *old(fx), *io, *final(self), *final(fx), r),
            sound(old(self).d, *final(self), r),
    {
        if self.d.disconnect != Disconnect::Open || self.d.payload.is_none() {
            self.next_request(io, fx)
        } else {
            self.wait(Stage::ReadPayload)
        }
    }

    fn rest_of_payload<E: ResponseError>(&mut self, io: &IoView, fx: &mut Effects) -> (r: Ask<E>)
        ensures
            at_payload(old(self).d, *old(fx), *io, *final(self), *final(fx), r),
            sound(old(self).d, *final(self), r),
    {
        match self.d.pending_payload_error.take() {
            Some(fault) => self.rest_fault(fault, fx),
            None => if self.d.payload.is_none() {
                self.after_rest(io, fx)
            } else {
                self.stream(Reader::Rest)
            },
        }
    }

    fn stream<E>(&mut self, reader: Reader) -> (r: Ask<E>)
        requires
            old(self).d.payload is Some,
        ensures
            *final(self) == (Machine {
                d: old(self).d,
                stage: stage_of(reader),
                spot: Spot::Stream(reader),
                buffered: None,
            }),
            r is Stream,
            sound(old(self).d, *final(self), r),
    {
        self.stage = Self::stage_for(reader);
        self.spot = Spot::Stream(reader);
        self.buffered = None;
        Ask::Stream
    }

    fn send_fault<E: ResponseError>(&mut self, fault: PayloadFault, fx: &mut Effects) -> (r: Ask<E>)
        ensures
            send_failed(old(self).d, *old(fx), fault, *final(self), *final(fx), r),
            sound(old(self).d, *final(self), r),
    {
        let ghost d = self.d;
        match self.d.on_send_fault::<E>(fault, fx) {
            Some(next) => {
                let ghost told = next;
                assert(disconnected(
                    d,
                    self.d,
                    *old(fx),
                    *fx,
                    peer_msg::<E>(fault->Peer_0),
                    told,
                ));
                self.settle(next)
            },
            None => self.flush(Flusher::Send),
        }
    }

    fn send_body<E: ResponseError>(&mut self, io: &IoView, fx: &mut Effects) -> (r: Ask<E>)
        ensures
            at_send(old(self).d, *old(fx), *io, *final(self), *final(fx), r),
            sound(old(self).d, *final(self), r),
    {
        let ghost d = self.d;
        match self.d.begin_send_payload::<E>(io.active, fx) {
            SendStart::Fault(fault) => self.send_fault(fault, fx),
            SendStart::Goto(next) => {
                let ghost told = next;
                assert(disconnected(d, self.d, *old(fx), *fx, peer_msg::<E>(None), told));
                self.settle(next)
            },
            SendStart::Send => self.flush(Flusher::Send),
            SendStart::PollPayload => if self.d.payload.is_none() {
                self.flush(Flusher::Send)
            } else {
                self.stream(Reader::Send)
            },
        }
    }

    fn go<E: ResponseError>(&mut self, next: Next<E>, io: &IoView, fx: &mut Effects) -> (r: Ask<E>)
        requires
            next is ReadRequest ==> (old(self).d.disconnect == Disconnect::Open ==> old(
                self,
            ).d.payload is None),
        ensures
            went(old(self).d, *old(fx), next, *io, *final(self), *final(fx), r),
            final(self).wf(),
            asks(final(self).spot, r),
            next is ReadRequest || next is ReadPayload || next is SendPayload ==> told_step(
                old(self).d.disconnect,
                final(self).d.disconnect,
                r,
            ),
    {
        match next {
            Next::ReadRequest => self.next_request(io, fx),
            Next::ReadPayload => self.rest_of_payload(io, fx),
            Next::SendPayload => self.send_body(io, fx),
            next => self.settle(next),
        }
    }

    fn receive<E>(&mut self, reader: Reader, updated: bool, io: &IoView) -> (r: Ask<E>)
        requires
            old(self).d.payload is Some,
        ensures
            receives(old(self).d, reader, updated, *io, *final(self), r),
            sound(old(self).d, *final(self), r),
    {
        self.stage = Self::stage_for(reader);
        self.spot = Spot::Payload(reader, updated);
        self.buffered = if self.d.timers.active == Timer::Payload {
            Some(io.buffered)
        } else {
            None
        };
        Ask::Payload
    }

    fn payload_read<E: ResponseError>(
        &mut self,
        reader: Reader,
        out: PayloadOut,
        io: &IoView,
        fx: &mut Effects,
    ) -> (r: Ask<E>)
        ensures
            payload_over(old(self).d, *old(fx), reader, out, *io, *final(self), *final(fx), r),
            sound(old(self).d, *final(self), r),
    {
        let ghost d = self.d;
        match reader {
            Reader::Control => {
                if let PayloadOut::Fault(fault) = out {
                    self.d.keep_payload_error(fault);
                }
                self.wait(Stage::Control)
            },
            Reader::Publish => match out {
                PayloadOut::Fault(fault) => {
                    let next = self.d.on_payload_fault::<E>(fault, fx);
                    let ghost told = next;
                    assert(fault_told(d, self.d, *old(fx), *fx, fault, told));
                    self.settle(next)
                },
                _ => self.wait(Stage::Publish),
            },
            Reader::Rest => match out {
                PayloadOut::Fault(fault) => self.rest_fault(fault, fx),
                _ => self.after_rest(io, fx),
            },
            Reader::Send => match out {
                PayloadOut::Fault(fault) => self.send_fault(fault, fx),
                _ => self.flush(Flusher::Send),
            },
        }
    }

    fn payload_out(updated: bool) -> (r: PayloadOut)
        ensures
            r == out_of(updated),
    {
        if updated {
            PayloadOut::Done
        } else {
            PayloadOut::Pending
        }
    }

    fn after_flush<E: ResponseError>(
        &mut self,
        flusher: Flusher,
        res: Option<Result<(), IoError>>,
        io: &IoView,
        fx: &mut Effects,
    ) -> (r: Ask<E>)
        requires
            flusher is Payload ==> old(self).d.payload is Some,
            flusher is Request ==> old(self).d.payload is None && old(self).d.disconnect
                == Disconnect::Open,
        ensures
            flushed(old(self).d, *old(fx), flusher, res, *io, *final(self), *final(fx), r),
            sound(old(self).d, *final(self), r),
    {
        let ghost d = self.d;
        let ghost before = *fx;
        match flusher {
            Flusher::Request => match res {
                None => self.wait(Stage::ReadRequest),
                Some(res) => match self.d.on_read_flushed::<E>(res, fx) {
                    ReadStep::Goto(next) => {
                        let ghost told = next;
                        assert(disconnected(
                            d,
                            self.d,
                            before,
                            *fx,
                            peer_msg::<E>(Some(res->Err_0)),
                            told,
                        ));
                        self.settle(next)
                    },
                    _ => self.read_request(io, fx),
                },
            },
            Flusher::Payload(reader, updated) => {
                let step = self.d.on_payload_flushed(res, io.unused, fx);
                let ghost mid_fx = *fx;
                match step {
                    PayloadStep::Fault(fault) => self.payload_read(
                        reader,
                        PayloadOut::Fault(fault),
                        io,
                        fx,
                    ),
                    PayloadStep::Wait => {
                        assert(timer_orders(mid_fx, before, pause_ops(d.timers)));
                        self.payload_read(reader, Self::payload_out(updated), io, fx)
                    },
                    _ => self.receive(reader, updated, io),
                }
            },
            Flusher::Send => match res {
                None => self.wait(Stage::SendPayload),
                Some(res) => match self.d.on_send_flushed::<E>(res, fx) {
                    Some(next) => {
                        let ghost told = next;
                        let ghost mid_fx = choose|mid_fx: Effects| #[trigger]
                            write_timeout_told(mid_fx, before, d.payload) && disconnected(
                                d,
                                self.d,
                                mid_fx,
                                *fx,
                                peer_msg::<E>(Some(res->Err_0)),
                                told,
                            );
                        let ask = self.settle(next);
                        assert(ends(d, mid_fx, peer_msg::<E>(Some(res->Err_0)), *self, *fx, ask));
                        ask
                    },
                    None => {
                        self.stage = Stage::SendPayload;
                        self.spot = Spot::Body;
                        self.buffered = None;
                        Ask::Body
                    },
                },
            },
        }
    }
}

impl Machine {
    fn on_wake<E: ResponseError>(&mut self, io: &IoView, fx: &mut Effects) -> (r: Ask<E>)
        requires
            old(self).wf(),
        ensures
            woken(*old(self), *old(fx), *io, *final(self), *final(fx), r),
            sound(old(self).d, *final(self), r),
    {
        match self.stage {
            Stage::Publish => {
                self.spot = Spot::Service;
                self.buffered = None;
                Ask::PollService
            },
            Stage::Control => {
                self.spot = Spot::Control;
                self.buffered = None;
                Ask::PollControl
            },
            Stage::ReadRequest => self.next_request(io, fx),
            Stage::ReadPayload => self.rest_of_payload(io, fx),
            Stage::SendPayload => self.send_body(io, fx),
            Stage::Stop => {
                self.spot = Spot::Shutdown;
                self.buffered = None;
                Ask::Shutdown
            },
        }
    }

    fn on_service_busy<E: ResponseError>(&mut self, fx: &mut Effects) -> (r: Ask<E>)
        ensures
            service_busy(old(self).d, *old(fx), *final(self), *final(fx), r),
            sound(old(self).d, *final(self), r),
    {
        let ghost d = self.d;
        match self.d.while_service::<E>(fx) {
            ServiceStep::Goto(next) => {
                let ghost told = next;
                assert(fault_told(
                    Dispatcher { pending_payload_error: None, ..d },
                    self.d,
                    *old(fx),
                    *fx,
                    d.pending_payload_error->0,
                    told,
                ));
                self.settle(next)
            },
            ServiceStep::PollPayload => match self.d.take_payload_error::<E>(fx) {
                Some(next) => {
                    let ghost told = next;
                    assert(fault_told(
                        Dispatcher { pending_payload_error: None, ..d },
                        self.d,
                        *old(fx),
                        *fx,
                        d.pending_payload_error->0,
                        told,
                    ));
                    self.settle(next)
                },
                None => self.stream(Reader::Publish),
            },
            ServiceStep::PollStatus => {
                self.stage = Stage::Publish;
                self.spot = Spot::Status;
                self.buffered = None;
                Ask::Status
            },
        }
    }

    fn on_service_error<E: ResponseError>(&mut self, err: E, fx: &mut Effects) -> (r: Ask<E>)
        ensures
            service_failed(old(self).d, *old(fx), err, *final(self), *final(fx), r),
            sound(old(self).d, *final(self), r),
    {
        let ghost d = self.d;
        let next = self.d.ctl_error(err, fx);
        let ghost told = next;
        let ghost msg = choose|msg: Control<E>| #[trigger]
            disconnected(d, self.d, *old(fx), *fx, msg, told) && (msg matches Control::Disconnect(
                crate::h1::control::Reason::Error(e),
            ) && e.err == err && err.answered_with(e.pkt));
        let ask = self.settle(next);
        assert(ends(d, *old(fx), msg, *self, *fx, ask));
        ask
    }

    fn on_service_done<E: ResponseError>(
        &mut self,
        head: ResponseHead,
        size: BodySize,
        io: &IoView,
        dst: &mut Vec<u8>,
        date: &mut DateService,
        fx: &mut Effects,
    ) -> (r: Ask<E>)
        requires
            head.status.0 <= 9999,
            old(date).wf(),
            io.now < DATE_LIMIT,
        ensures
            final(date).wf(),
            service_done(
                old(self).d,
                *old(fx),
                head,
                size,
                *io,
                old(dst)@,
                old(date).date_at(io.now),
                *final(self),
                *final(fx),
                final(dst)@,
                r,
            ),
            sound(old(self).d, *final(self), r),
    {
        let ghost d = self.d;
        let next = self.d.send_response::<E>(
            head,
            size,
            io.active,
            io.payload_closed,
            dst,
            date,
            io.now,
            fx,
        );
        assert(response_sent(
            d,
            self.d,
            *old(fx),
            *fx,
            head,
            size,
            io.active,
            io.payload_closed,
            old(dst)@,
            dst@,
            old(date).date_at(io.now),
            next,
        ));
        self.go(next, io, fx)
    }

    fn on_service_status<E: ResponseError>(
        &mut self,
        status: IoStatus,
        io: &IoView,
        fx: &mut Effects,
    ) -> (r: Ask<E>)
        ensures
            service_status(old(self).d, *old(fx), status, *io, *final(self), *final(fx), r),
            sound(old(self).d, *final(self), r),
    {
        let ghost d = self.d;
        let res = self.d.on_status::<E>(status, io.backpressure, io.unused, fx);
        let ghost told = res;
        assert(status_event(
            d,
            self.d,
            *old(fx),
            *fx,
            status,
            io.backpressure,
            io.unused,
            told,
        ));
        match res {
            Some(next) => self.settle(next),
            None => self.wait(Stage::Publish),
        }
    }

    fn on_control_busy<E>(&mut self) -> (r: Ask<E>)
        ensures
            forall|fx: Effects| control_busy(old(self).d, fx, *final(self), fx, r),
            sound(old(self).d, *final(self), r),
    {
        if self.d.pending_payload_error.is_none() && self.d.payload.is_some() {
            self.stream(Reader::Control)
        } else {
            self.wait(Stage::Control)
        }
    }

    fn on_control_done<E: ResponseError>(
        &mut self,
        result: ControlResult,
        io: &IoView,
        dst: &mut Vec<u8>,
        date: &mut DateService,
        fx: &mut Effects,
    ) -> (r: (Ask<E>, Option<Body>))
        requires
            !(result is Connect),
            answer_of(result) matches Some((head, _)) ==> head.status.0 <= 9999,
            old(date).wf(),
            io.now < DATE_LIMIT,
        ensures
            final(date).wf(),
            control_done(
                old(self).d,
                *old(fx),
                result,
                *io,
                old(dst)@,
                old(date).date_at(io.now),
                *final(self),
                *final(fx),
                final(dst)@,
                r.0,
            ),
            r.1 == match answer_of(result) {
                Some((_, body)) => Some(body),
                None => None,
            },
            sound(old(self).d, *final(self), r.0),
    {
        let ghost d = self.d;
        let (next, body) = self.d.on_control::<E>(
            result,
            io.active,
            io.payload_closed,
            dst,
            date,
            io.now,
            fx,
        );
        assert(control_event(
            d,
            self.d,
            *old(fx),
            *fx,
            result,
            io.active,
            io.payload_closed,
            old(dst)@,
            dst@,
            old(date).date_at(io.now),
            next,
        ));
        (self.go(next, io, fx), body)
    }

    fn on_continued<E: ResponseError>(
        &mut self,
        req: Request,
        err: Option<IoError>,
        fx: &mut Effects,
    ) -> (r: Ask<E>)
        ensures
            continued(old(self).d, *old(fx), req, err, *final(self), *final(fx), r),
            sound(old(self).d, *final(self), r),
    {
        let ghost d = self.d;
        let next = self.d.on_continue::<E>(req, err, fx);
        let ghost told = next;
        assert(continue_event(d, self.d, *old(fx), *fx, req, err, told));
        self.settle(next)
    }

    fn on_request<E: ResponseError>(
        &mut self,
        ev: Received<(Request, PayloadType)>,
        io: &IoView,
        fx: &mut Effects,
    ) -> (r: Ask<E>)
        requires
            old(self).d.payload is None,
            old(self).d.disconnect == Disconnect::Open,
        ensures
            request_received(*old(self), *old(fx), ev, *io, *final(self), *final(fx), r),
            sound(old(self).d, *final(self), r),
    {
        let ghost d = self.d;
        let buffered: u32 = match self.buffered {
            Some(n) => n,
            None => 0,
        };
        let res = self.d.on_request::<E>(ev, buffered, io.buffered, io.backpressure, fx);
        let ghost step = res;
        assert(request_event(
            d,
            self.d,
            *old(fx),
            *fx,
            ev,
            length_before(*old(self)),
            io.buffered,
            io.backpressure,
            step,
        ));
        match res {
            ReadStep::Pending => self.wait(Stage::ReadRequest),
            ReadStep::Again => self.read_request(io, fx),
            ReadStep::Flush => self.flush(Flusher::Request),
            ReadStep::Goto(next) => self.settle(next),
        }
    }

    fn on_stream<E: ResponseError>(
        &mut self,
        reader: Reader,
        status: StreamStatus,
        io: &IoView,
        fx: &mut Effects,
    ) -> (r: Ask<E>)
        requires
            old(self).d.payload is Some,
        ensures
            stream_seen(old(self).d, *old(fx), reader, status, *io, *final(self), *final(fx), r),
            sound(old(self).d, *final(self), r),
    {
        let ghost d = self.d;
        let read = self.d.begin_payload(status, io.backpressure, io.unused, fx);
        assert(stream_event(d, self.d, *old(fx), *fx, status, io.backpressure, io.unused));
        if read {
            self.receive(reader, false, io)
        } else {
            self.payload_read(reader, PayloadOut::Pending, io, fx)
        }
    }

    fn on_payload<E: ResponseError>(
        &mut self,
        reader: Reader,
        updated: bool,
        ev: Received<PayloadItem>,
        io: &IoView,
        fx: &mut Effects,
    ) -> (r: Ask<E>)
        requires
            old(self).d.payload is Some,
        ensures
            payload_received(
                *old(self),
                *old(fx),
                reader,
                updated,
                ev,
                *io,
                *final(self),
                *final(fx),
                r,
            ),
            sound(old(self).d, *final(self), r),
    {
        let ghost d = self.d;
        let res = self.d.on_payload(ev, self.buffered, io.buffered, io.backpressure, fx);
        let ghost step = res;
        assert(payload_event(
            d,
            self.d,
            *old(fx),
            *fx,
            ev,
            old(self).buffered,
            io.buffered,
            io.backpressure,
            step,
        ));
        match res {
            PayloadStep::Item => self.receive(reader, true, io),
            PayloadStep::Again => self.receive(reader, updated, io),
            PayloadStep::Flush => self.flush(Flusher::Payload(reader, updated)),
            PayloadStep::Wait => self.payload_read(reader, Self::payload_out(updated), io, fx),
            PayloadStep::Ended => self.payload_read(reader, PayloadOut::Done, io, fx),
            PayloadStep::Fault(fault) => self.payload_read(
                reader,
                PayloadOut::Fault(fault),
                io,
                fx,
            ),
        }
    }

    fn on_flush<E: ResponseError>(
        &mut self,
        flusher: Flusher,
        res: Option<Result<(), IoError>>,
        io: &IoView,
        fx: &mut Effects,
    ) -> (r: Ask<E>)
        requires
            flusher is Payload ==> old(self).d.payload is Some,
            flusher is Request ==> old(self).d.payload is None && old(self).d.disconnect
                == Disconnect::Open,
        ensures
            flush_seen(old(self).d, *old(fx), flusher, res, *io, *final(self), *final(fx), r),
            sound(old(self).d, *final(self), r),
    {
        let ghost d = self.d;
        let ghost before = *fx;
        match res {
            Some(res) => {
                self.d.flush_done(fx);
                assert(timer_orders(*fx, before, release_ops(d.timers, false)));
                self.after_flush(flusher, Some(res), io, fx)
            },
            None => {
                let watch = self.d.flush_pending(io.unused, fx);
                assert(timer_orders(
                    *fx,
                    before,
                    write_start_ops(d.timers, d.cfg().write_timeout),
                ));
                if watch {
                    self.stage = match flusher {
                        Flusher::Request => Stage::ReadRequest,
                        Flusher::Payload(reader, _) => Self::stage_for(reader),
                        Flusher::Send => Stage::SendPayload,
                    };
                    self.spot = Spot::FlushStatus(flusher);
                    self.buffered = None;
                    Ask::Status
                } else {
                    self.after_flush(flusher, None, io, fx)
                }
            },
        }
    }

    fn on_flush_status<E: ResponseError>(
        &mut self,
        flusher: Flusher,
        status: IoStatus,
        io: &IoView,
        fx: &mut Effects,
    ) -> (r: Ask<E>)
        requires
            flusher is Payload ==> old(self).d.payload is Some,
            flusher is Request ==> old(self).d.payload is None && old(self).d.disconnect
                == Disconnect::Open,
        ensures
            flush_watched(old(self).d, *old(fx), flusher, status, *io, *final(self), *final(fx), r),
            sound(old(self).d, *final(self), r),
    {
        match Dispatcher::flush_status(&status, io.backpressure) {
            FlushStep::TimedOut => {
                let e = write_timeout_error();
                assert(is_write_timeout(e));
                self.after_flush(flusher, Some(Err(e)), io, fx)
            },
            FlushStep::Again => self.flush(flusher),
            FlushStep::Pending => self.after_flush(flusher, None, io, fx),
        }
    }

    fn on_body<E: ResponseError>(
        &mut self,
        item: StreamPoll,
        io: &IoView,
        dst: &mut Vec<u8>,
        date: &mut DateService,
        fx: &mut Effects,
    ) -> (r: Ask<E>)
        requires
            old(date).wf(),
            io.now < DATE_LIMIT,
        ensures
            final(date).wf(),
            body_seen(
                old(self).d,
                *old(fx),
                item,
                *io,
                old(dst)@,
                *final(self),
                *final(fx),
                final(dst)@,
                r,
            ),
            sound(old(self).d, *final(self), r),
    {
        let ghost d = self.d;
        let res = self.d.on_body::<E>(item, dst, date, io.now, fx);
        let ghost step = res;
        assert(body_event(d, self.d, *old(fx), *fx, item, old(dst)@, dst@, step));
        match res {
            BodyStep::Again => self.flush(Flusher::Send),
            BodyStep::Pending => self.wait(Stage::SendPayload),
            BodyStep::Goto(next) => self.go(next, io, fx),
        }
    }

    /// Goes on with an event that answers the open question.
    pub fn resume<E: ResponseError>(
        &mut self,
        ev: Event<E>,
        io: &IoView,
        dst: &mut Vec<u8>,
        date: &mut DateService,
        fx: &mut Effects,
    ) -> (r: Step<E>)
        requires
            old(self).wf(),
            answers(old(self).spot, ev),
            !(ev matches Event::Control(Some(result)) && result is Connect),
            head_in(ev) matches Some(head) ==> head.status.0 <= 9999,
            old(date).wf(),
            io.now < DATE_LIMIT,
        ensures
            final(date).wf(),
            resumed(
                *old(self),
                *old(fx),
                ev,
                *io,
                old(dst)@,
                old(date).date_at(io.now),
                *final(self),
                *final(fx),
                final(dst)@,
                r.ask,
            ),
            r.body == body_in(ev),
            r.detach == (old(self).stage == Stage::Publish && final(self).stage != Stage::Publish
                && !(ev matches Event::Service(Some(_)))),
            sound(old(self).d, *final(self), r.ask),
    {
        let busy = self.stage == Stage::Publish;
        let mut called = busy;
        let mut body: Option<Body> = None;
        let ask = match ev {
            Event::Wake => self.on_wake(io, fx),
            Event::Service(None) => self.on_service_busy(fx),
            Event::Service(Some(res)) => {
                called = false;
                match res {
                    Ok((head, size)) => self.on_service_done(head, size, io, dst, date, fx),
                    Err(err) => self.on_service_error(err, fx),
                }
            },
            Event::Status(status) => match self.spot {
                Spot::FlushStatus(flusher) => self.on_flush_status(flusher, status, io, fx),
                _ => self.on_service_status(status, io, fx),
            },
            Event::Control(None) => self.on_control_busy(),
            Event::Control(Some(result)) => {
                let (ask, sent) = self.on_control_done(result, io, dst, date, fx);
                body = sent;
                ask
            },
            Event::ControlFailed => {
                self.spot = Spot::Ended;
                self.buffered = None;
                Ask::Done
            },
            Event::Continue(req, err) => self.on_continued(req, err, fx),
            Event::Request(ev) => self.on_request(ev, io, fx),
            Event::Stream(status) => match self.spot {
                Spot::Stream(reader) => self.on_stream(reader, status, io, fx),
                _ => self.wait(Stage::Stop),
            },
            Event::Payload(ev) => match self.spot {
                Spot::Payload(reader, updated) => self.on_payload(reader, updated, ev, io, fx),
                _ => self.wait(Stage::Stop),
            },
            Event::Flush(res) => match self.spot {
                Spot::Flush(flusher) => self.on_flush(flusher, res, io, fx),
                _ => self.wait(Stage::Stop),
            },
            Event::Body(item) => self.on_body(item, io, dst, date, fx),
            Event::Shutdown(done) => {
                if done {
                    self.spot = Spot::Ended;
                    self.buffered = None;
                    Ask::Done
                } else {
                    self.wait(Stage::Stop)
                }
            },
        };
        Step { ask, body, detach: called && self.stage != Stage::Publish }
    }
}

proof fn end_calls_nobody<E>(
    d: Dispatcher,
    fx: Effects,
    msg: Control<E>,
    after: Machine,
    fx_after: Effects,
    ask: Ask<E>,
)
    requires
        ends(d, fx, msg, after, fx_after, ask),
    ensures
        !(ask is CallService),
{
}

proof fn due_calls_nobody<E>(
    d: Dispatcher,
    fx: Effects,
    after: Machine,
    fx_after: Effects,
    ask: Ask<E>,
)
    requires
        ends_due(d, fx, after, fx_after, ask),
    ensures
        !(ask is CallService),
{
}

proof fn reading_calls_nobody<E>(
    d: Dispatcher,
    fx: Effects,
    io: IoView,
    after: Machine,
    fx_after: Effects,
    ask: Ask<E>,
)
    requires
        reads_request(d, fx, io, after, fx_after, ask),
    ensures
        !(ask is CallService),
{
    if io.shutdown {
        end_calls_nobody(
            d,
            fx,
            svc_msg::<E>(ServiceDisconnectReason::Shutdown),
            after,
            fx_after,
            ask,
        );
    }
}

proof fn request_calls_nobody<E>(
    d: Dispatcher,
    fx: Effects,
    io: IoView,
    after: Machine,
    fx_after: Effects,
    ask: Ask<E>,
)
    requires
        at_request(d, fx, io, after, fx_after, ask),
    ensures
        !(ask is CallService),
{
    if d.disconnect == Disconnect::Open {
        reading_calls_nobody(d, fx, io, after, fx_after, ask);
    } else {
        due_calls_nobody(d, fx, after, fx_after, ask);
    }
}

proof fn rest_fault_calls_nobody<E>(
    d: Dispatcher,
    fx: Effects,
    fault: PayloadFault,
    after: Machine,
    fx_after: Effects,
    ask: Ask<E>,
)
    requires
        rest_failed(d, fx, fault, after, fx_after, ask),
    ensures
        !(ask is CallService),
{
    let (mid, mid_fx, dropped) = choose|mid: Dispatcher, mid_fx: Effects, dropped: Next<E>|
        #[trigger]
        fault_told(d, mid, fx, mid_fx, fault, dropped) && ends_due(
            mid,
            mid_fx,
            after,
            fx_after,
            ask,
        );
    due_calls_nobody(mid, mid_fx, after, fx_after, ask);
}

proof fn rest_calls_nobody<E>(
    d: Dispatcher,
    fx: Effects,
    io: IoView,
    after: Machine,
    fx_after: Effects,
    ask: Ask<E>,
)
    requires
        rest_read(d, fx, io, after, fx_after, ask),
    ensures
        !(ask is CallService),
{
    if d.disconnect != Disconnect::Open || d.payload is None {
        request_calls_nobody(d, fx, io, after, fx_after, ask);
    }
}

proof fn payload_calls_nobody<E>(
    d: Dispatcher,
    fx: Effects,
    io: IoView,
    after: Machine,
    fx_after: Effects,
    ask: Ask<E>,
)
    requires
        at_payload(d, fx, io, after, fx_after, ask),
    ensures
        !(ask is CallService),
{
    match d.pending_payload_error {
        Some(fault) => rest_fault_calls_nobody(
            Dispatcher { pending_payload_error: None, ..d },
            fx,
            fault,
            after,
            fx_after,
            ask,
        ),
        None => if d.payload is None {
            rest_calls_nobody(d, fx, io, after, fx_after, ask);
        },
    }
}

proof fn send_fault_calls_nobody<E>(
    d: Dispatcher,
    fx: Effects,
    fault: PayloadFault,
    after: Machine,
    fx_after: Effects,
    ask: Ask<E>,
)
    requires
        send_failed(d, fx, fault, after, fx_after, ask),
    ensures
        !(ask is CallService),
{
    if let PayloadFault::Peer(e) = fault {
        end_calls_nobody(d, fx, peer_msg::<E>(e), after, fx_after, ask);
    }
}

proof fn send_calls_nobody<E>(
    d: Dispatcher,
    fx: Effects,
    io: IoView,
    after: Machine,
    fx_after: Effects,
    ask: Ask<E>,
)
    requires
        at_send(d, fx, io, after, fx_after, ask),
    ensures
        !(ask is CallService),
{
    match d.pending_payload_error {
        Some(fault) => send_fault_calls_nobody(
            Dispatcher { pending_payload_error: None, ..d },
            fx,
            fault,
            after,
            fx_after,
            ask,
        ),
        None => if !io.active {
            end_calls_nobody(d, fx, peer_msg::<E>(None), after, fx_after, ask);
        },
    }
}

proof fn reader_calls_nobody<E>(
    d: Dispatcher,
    fx: Effects,
    reader: Reader,
    out: PayloadOut,
    io: IoView,
    after: Machine,
    fx_after: Effects,
    ask: Ask<E>,
)
    requires
        payload_over(d, fx, reader, out, io, after, fx_after, ask),
    ensures
        !(ask is CallService),
{
    match (reader, out) {
        (Reader::Rest, PayloadOut::Fault(fault)) => rest_fault_calls_nobody(
            d,
            fx,
            fault,
            after,
            fx_after,
            ask,
        ),
        (Reader::Rest, _) => rest_calls_nobody(d, fx, io, after, fx_after, ask),
        (Reader::Send, PayloadOut::Fault(fault)) => send_fault_calls_nobody(
            d,
            fx,
            fault,
            after,
            fx_after,
            ask,
        ),
        _ => {},
    }
}

proof fn flush_calls_nobody<E>(
    d: Dispatcher,
    fx: Effects,
    flusher: Flusher,
    res: Option<Result<(), IoError>>,
    io: IoView,
    after: Machine,
    fx_after: Effects,
    ask: Ask<E>,
)
    requires
        flushed(d, fx, flusher, res, io, after, fx_after, ask),
    ensures
        !(ask is CallService),
{
    match flusher {
        Flusher::Request => match res {
            None => {},
            Some(Ok(_)) => reading_calls_nobody(d, fx, io, after, fx_after, ask),
            Some(Err(e)) => end_calls_nobody(
                d,
                fx,
                peer_msg::<E>(Some(e)),
                after,
                fx_after,
                ask,
            ),
        },
        Flusher::Payload(reader, updated) => match res {
            None => {
                let mid_fx = choose|mid_fx: Effects| #[trigger]
                    timer_orders(mid_fx, fx, pause_ops(d.timers)) && payload_over(
                        Dispatcher { timers: paused(d.timers, io.unused), ..d },
                        mid_fx,
                        reader,
                        out_of(updated),
                        io,
                        after,
                        fx_after,
                        ask,
                    );
                reader_calls_nobody(
                    Dispatcher { timers: paused(d.timers, io.unused), ..d },
                    mid_fx,
                    reader,
                    out_of(updated),
                    io,
                    after,
                    fx_after,
                    ask,
                );
            },
            Some(Ok(_)) => {},
            Some(Err(e)) => {
                let fault = PayloadOut::Fault(PayloadFault::Peer(Some(e)));
                let mid_fx = choose|mid_fx: Effects|
                    (if e.kind == IoErrorKind::TimedOut {
                        write_timeout_told(mid_fx, fx, d.payload)
                    } else {
                        mid_fx == fx
                    }) && #[trigger] payload_over(
                        d,
                        mid_fx,
                        reader,
                        fault,
                        io,
                        after,
                        fx_after,
                        ask,
                    );
                reader_calls_nobody(d, mid_fx, reader, fault, io, after, fx_after, ask);
            },
        },
        Flusher::Send => match res {
            Some(Err(e)) => if e.kind == IoErrorKind::TimedOut {
                let mid_fx = choose|mid_fx: Effects| #[trigger]
                    write_timeout_told(mid_fx, fx, d.payload) && ends(
                        d,
                        mid_fx,
                        peer_msg::<E>(Some(e)),
                        after,
                        fx_after,
                        ask,
                    );
                end_calls_nobody(d, mid_fx, peer_msg::<E>(Some(e)), after, fx_after, ask);
            },
            _ => {},
        },
    }
}

proof fn going_calls_only_to_publish<E>(
    d: Dispatcher,
    fx: Effects,
    next: Next<E>,
    io: IoView,
    after: Machine,
    fx_after: Effects,
    ask: Ask<E>,
)
    requires
        went(d, fx, next, io, after, fx_after, ask),
    ensures
        ask is CallService <==> next is Publish,
{
    match next {
        Next::ReadRequest => request_calls_nobody(d, fx, io, after, fx_after, ask),
        Next::ReadPayload => payload_calls_nobody(d, fx, io, after, fx_after, ask),
        Next::SendPayload => send_calls_nobody(d, fx, io, after, fx_after, ask),
        _ => {},
    }
}

proof fn payload_event_calls_nobody<E>(
    m: Machine,
    fx: Effects,
    reader: Reader,
    updated: bool,
    got: Received<PayloadItem>,
    io: IoView,
    after: Machine,
    fx_after: Effects,
    ask: Ask<E>,
)
    requires
        payload_received(m, fx, reader, updated, got, io, after, fx_after, ask),
    ensures
        !(ask is CallService),
{
    assert forall|mid: Dispatcher, mid_fx: Effects, out: PayloadOut| #[trigger]
        payload_over(mid, mid_fx, reader, out, io, after, fx_after, ask) implies !(
    ask is CallService) by {
        reader_calls_nobody(mid, mid_fx, reader, out, io, after, fx_after, ask);
    }
}

proof fn flush_event_calls_nobody<E>(
    d: Dispatcher,
    fx: Effects,
    flusher: Flusher,
    res: Option<Result<(), IoError>>,
    io: IoView,
    after: Machine,
    fx_after: Effects,
    ask: Ask<E>,
)
    requires
        flush_seen(d, fx, flusher, res, io, after, fx_after, ask),
    ensures
        !(ask is CallService),
{
    assert forall|mid: Dispatcher, mid_fx: Effects, res: Option<Result<(), IoError>>| #[trigger]
        flushed(mid, mid_fx, flusher, res, io, after, fx_after, ask) implies !(
    ask is CallService) by {
        flush_calls_nobody(mid, mid_fx, flusher, res, io, after, fx_after, ask);
    }
}

/// The service is called with one request at a time, and only with one that the
/// control service has let pass: the call follows its answer, or the `100
/// Continue` that it asked for.
pub proof fn one_call_at_a_time<E: ResponseError>(
    m: Machine,
    fx: Effects,
    ev: Event<E>,
    io: IoView,
    dst: Seq<u8>,
    date: Seq<u8>,
    after: Machine,
    fx_after: Effects,
    out: Seq<u8>,
    ask: Ask<E>,
)
    requires
        m.wf(),
        answers(m.spot, ev),
        resumed(m, fx, ev, io, dst, date, after, fx_after, out, ask),
        ask is CallService,
    ensures
        m.stage == Stage::Control,
        after.stage == Stage::Publish,
        (ev matches Event::Control(Some(result)) && (result is Publish || result is UpgradeAck))
            || ev matches Event::Continue(_, None),
{
    let d = m.d;
    match ev {
        Event::Wake => match m.stage {
            Stage::ReadRequest => request_calls_nobody(d, fx, io, after, fx_after, ask),
            Stage::ReadPayload => payload_calls_nobody(d, fx, io, after, fx_after, ask),
            Stage::SendPayload => send_calls_nobody(d, fx, io, after, fx_after, ask),
            _ => {},
        },
        Event::Service(Some(Ok((head, size)))) => {
            let (mid, mid_fx, next) = choose|mid: Dispatcher, mid_fx: Effects, next: Next<E>|
                #[trigger]
                response_sent(
                    d,
                    mid,
                    fx,
                    mid_fx,
                    head,
                    size,
                    io.active,
                    io.payload_closed,
                    dst,
                    out,
                    date,
                    next,
                ) && went(mid, mid_fx, next, io, after, fx_after, ask);
            going_calls_only_to_publish(mid, mid_fx, next, io, after, fx_after, ask);
        },
        Event::Service(Some(Err(err))) => {
            let msg = choose|msg: Control<E>| #[trigger] ends(d, fx, msg, after, fx_after, ask);
            end_calls_nobody(d, fx, msg, after, fx_after, ask);
        },
        Event::Control(Some(result)) => {
            let (mid, mid_fx, next) = choose|mid: Dispatcher, mid_fx: Effects, next: Next<E>|
                #[trigger]
                control_event(
                    d,
                    mid,
                    fx,
                    mid_fx,
                    result,
                    io.active,
                    io.payload_closed,
                    dst,
                    out,
                    date,
                    next,
                ) && went(mid, mid_fx, next, io, after, fx_after, ask);
            going_calls_only_to_publish(mid, mid_fx, next, io, after, fx_after, ask);
        },
        Event::Body(item) => {
            let (mid, mid_fx, r) = choose|mid: Dispatcher, mid_fx: Effects, r: BodyStep<E>|
                #[trigger]
                body_event(d, mid, fx, mid_fx, item, dst, out, r) && match r {
                    BodyStep::Again => flushes(mid, Flusher::Send, after, ask) && fx_after
                        == mid_fx,
                    BodyStep::Pending => waits(mid, Stage::SendPayload, after, ask) && fx_after
                        == mid_fx,
                    BodyStep::Goto(next) => went(mid, mid_fx, next, io, after, fx_after, ask),
                };
            if let BodyStep::Goto(next) = r {
                going_calls_only_to_publish(mid, mid_fx, next, io, after, fx_after, ask);
            }
        },
        Event::Request(got) => {
            let (mid, mid_fx, r) = choose|mid: Dispatcher, mid_fx: Effects, r: ReadStep<E>|
                #[trigger]
                request_event(
                    d,
                    mid,
                    fx,
                    mid_fx,
                    got,
                    length_before(m),
                    io.buffered,
                    io.backpressure,
                    r,
                ) && match r {
                    ReadStep::Pending => waits(mid, Stage::ReadRequest, after, ask) && fx_after
                        == mid_fx,
                    ReadStep::Again => reads_request(mid, mid_fx, io, after, fx_after, ask),
                    ReadStep::Flush => flushes(mid, Flusher::Request, after, ask) && fx_after
                        == mid_fx,
                    ReadStep::Goto(next) => settled(mid, next, after, ask) && fx_after == mid_fx,
                };
            if r is Again {
                reading_calls_nobody(mid, mid_fx, io, after, fx_after, ask);
            }
        },
        Event::Stream(status) => {
            let reader = m.spot->Stream_0;
            let (mid, mid_fx) = choose|mid: Dispatcher, mid_fx: Effects| #[trigger]
                stream_event(d, mid, fx, mid_fx, status, io.backpressure, io.unused) && (if status
                    == StreamStatus::Ready {
                    receives(mid, reader, false, io, after, ask) && fx_after == mid_fx
                } else {
                    payload_over(
                        mid,
                        mid_fx,
                        reader,
                        PayloadOut::Pending,
                        io,
                        after,
                        fx_after,
                        ask,
                    )
                });
            if status != StreamStatus::Ready {
                reader_calls_nobody(
                    mid,
                    mid_fx,
                    reader,
                    PayloadOut::Pending,
                    io,
                    after,
                    fx_after,
                    ask,
                );
            }
        },
        Event::Payload(got) => payload_event_calls_nobody(
            m,
            fx,
            m.spot->Payload_0,
            m.spot->Payload_1,
            got,
            io,
            after,
            fx_after,
            ask,
        ),
        Event::Flush(res) => flush_event_calls_nobody(
            d,
            fx,
            m.spot->Flush_0,
            res,
            io,
            after,
            fx_after,
            ask,
        ),
        Event::Status(status) => if let Spot::FlushStatus(flusher) = m.spot {
            if status is KeepAlive {
                let e = choose|e: IoError| #[trigger]
                    is_write_timeout(e) && flushed(
                        d,
                        fx,
                        flusher,
                        Some(Err(e)),
                        io,
                        after,
                        fx_after,
                        ask,
                    );
                flush_calls_nobody(d, fx, flusher, Some(Err(e)), io, after, fx_after, ask);
            } else if !(status is Pending && !io.backpressure) {
                flush_calls_nobody(d, fx, flusher, None, io, after, fx_after, ask);
            }
        },
        _ => {},
    }
}

/// What was written stays written: an event adds to the output, or leaves it
/// alone.
pub proof fn output_only_grows<E: ResponseError>(
    m: Machine,
    fx: Effects,
    ev: Event<E>,
    io: IoView,
    dst: Seq<u8>,
    date: Seq<u8>,
    after: Machine,
    fx_after: Effects,
    out: Seq<u8>,
    ask: Ask<E>,
)
    requires
        resumed(m, fx, ev, io, dst, date, after, fx_after, out, ask),
    ensures
        dst.is_prefix_of(out),
{
}

/// The end of the connection is told at most once, as far as the event `k` goes.
pub open spec fn told_at<E>(ends: Seq<Disconnect>, asked: Seq<Ask<E>>, k: int) -> bool {
    told_step(ends[k], ends[k + 1], asked[k])
}

/// The control service is told at most once that a connection ends, however
/// many events there are: `ends[k]` is the state of the disconnect before the
/// event `k`, and `asked[k]` what the event led to.
pub proof fn told_at_most_once<E>(ends: Seq<Disconnect>, asked: Seq<Ask<E>>, i: int, j: int)
    requires
        ends.len() == asked.len() + 1,
        forall|k: int| 0 <= k < asked.len() ==> #[trigger] told_at(ends, asked, k),
        0 <= i < j < asked.len(),
        tells_end(asked[i]),
    ensures
        !tells_end(asked[j]),
{
    assert(told_at(ends, asked, i));
    sent_stays(ends, asked, i + 1, j);
    assert(told_at(ends, asked, j));
}

proof fn sent_stays<E>(ends: Seq<Disconnect>, asked: Seq<Ask<E>>, i: int, j: int)
    requires
        ends.len() == asked.len() + 1,
        forall|k: int| 0 <= k < asked.len() ==> #[trigger] told_at(ends, asked, k),
        0 <= i <= j < asked.len(),
        ends[i] == Disconnect::Sent,
    ensures
        ends[j] == Disconnect::Sent,
    decreases j - i,
{
    if i < j {
        sent_stays(ends, asked, i, j - 1);
        assert(told_at(ends, asked, j - 1));
    }
}

} // verus!
