//! Connections of a server, from event to event.

use vstd::prelude::*;

use crate::body::{Body, BodySize, MessageBody, ResponseBody, StreamPoll};
use crate::error::{EncodeError, IoError, IoErrorKind, PayloadError};
use crate::config::DispatcherConfig;
use crate::h1::control::{
    reason_ack, request_ack, Control, ControlResult, Expect, KeepAlive, PeerGone, Reason,
    ServiceDisconnect, ServiceDisconnectReason,
};
use crate::h1::decoder::{PayloadItem, PayloadType};
use crate::h1::dispatcher::{
    Disconnect, Effects, IoStatus, PayloadFault, PayloadOp, Received, StreamStatus,
};
use crate::h1::encoder::{encoded, eof_encoded, is_head_of, may_end, TransferEncodingKind};
use crate::h1::machine::{resumed, Ask, Event, Flusher, IoView, Machine, Reader, Spot, Stage};
use crate::h1::timer::{Timer, TimerOp};
use crate::h1::{error_status, ProtocolError};
use crate::message::{flags_with, ConnectionType, ResponseHead};
use crate::payload::Payload;
use crate::request::Request;
use crate::response::ResponseError;
use crate::service::{ends, takes};
use crate::types::StatusCode;

verus! {

/// The message that the protocol was violated.
pub open spec fn violated<E>(err: ProtocolError) -> Ask<E> {
    Ask::CallControl(
        Control::Disconnect(Reason::ProtocolError(crate::h1::control::ProtocolError { err })),
    )
}

/// The message that the peer is gone.
pub open spec fn gone<E>(err: Option<IoError>) -> Ask<E> {
    Ask::CallControl(Control::Disconnect(Reason::PeerGone(PeerGone { err })))
}

/// The message that the service ends the connection.
pub open spec fn ended<E>(reason: ServiceDisconnectReason) -> Ask<E> {
    Ask::CallControl(Control::Disconnect(Reason::Service(ServiceDisconnect { reason })))
}

/// The message that the connection is not kept alive.
pub open spec fn not_alive<E>(enabled: bool) -> Ask<E> {
    Ask::CallControl(Control::Disconnect(Reason::KeepAlive(KeepAlive { enabled })))
}

// ---------------------------------------------------------------------------
// Requests
// ---------------------------------------------------------------------------

/// A request that was decoded is handed to the control service as it is, with its
/// payload where it has one, and its payload is read from then on. Nothing is
/// written, and nobody is told anything of a payload.
pub proof fn request_reaches_the_control_service<E: ResponseError>(
    m: Machine,
    fx: Effects,
    req: Request,
    pl: PayloadType,
    consumed: u32,
    left: u32,
    io: IoView,
    dst: Seq<u8>,
    date: Seq<u8>,
    after: Machine,
    fx_after: Effects,
    out: Seq<u8>,
    ask: Ask<E>,
)
    requires
        resumed(
            m,
            fx,
            Event::Request(Received::Decoded(Some((req, pl)), consumed, left)),
            io,
            dst,
            date,
            after,
            fx_after,
            out,
            ask,
        ),
    ensures
        ask matches Ask::CallControl(Control::Request(n)) && n.req.head == req.head && n.req.payload
            == (if pl is NoPayload {
            req.payload
        } else {
            Payload::H1
        }),
        match pl {
            PayloadType::NoPayload => after.d.payload == m.d.payload,
            PayloadType::Payload(d) => after.d.payload == Some(d),
            PayloadType::Stream(d) => after.d.payload == Some(d),
        },
        after.d.codec == m.d.codec,
        after.d.disconnect == m.d.disconnect,
        fx_after.payload@ == fx.payload@,
        fx_after.close == fx.close,
        out == dst,
{
}

/// A head that is no request is told as a violation of the protocol, and a peer
/// that is gone as such.
pub proof fn bad_requests_are_told<E: ResponseError>(
    m: Machine,
    fx: Effects,
    ev: Received<(Request, PayloadType)>,
    io: IoView,
    dst: Seq<u8>,
    date: Seq<u8>,
    after: Machine,
    fx_after: Effects,
    out: Seq<u8>,
    ask: Ask<E>,
)
    requires
        m.d.disconnect != Disconnect::Sent,
        resumed(m, fx, Event::Request(ev), io, dst, date, after, fx_after, out, ask),
    ensures
        ev matches Received::Decoder(e) ==> ask == violated::<E>(ProtocolError::Decode(e)),
        ev matches Received::PeerGone(e) ==> ask == gone::<E>(e),
        ev is WriteBackpressure ==> ask is Flush,
        out == dst,
{
}

/// Without a request, a connection that is kept alive waits for the next one, with
/// the keep-alive timer running; one that is not is closed, once it had a request.
/// One that waits for the first bytes of its first request waits on.
pub proof fn idle_connections<E: ResponseError>(
    m: Machine,
    fx: Effects,
    consumed: u32,
    io: IoView,
    dst: Seq<u8>,
    date: Seq<u8>,
    after: Machine,
    fx_after: Effects,
    out: Seq<u8>,
    ask: Ask<E>,
)
    requires
        m.d.disconnect != Disconnect::Sent,
        !m.d.codec.decoder.hdrs,
        m.d.timers.active != Timer::Headers,
        resumed(
            m,
            fx,
            Event::Request(Received::Decoded(None, consumed, 0)),
            io,
            dst,
            date,
            after,
            fx_after,
            out,
            ask,
        ),
    ensures
        m.d.timers.active == Timer::ClientTimeout ==> ask is Wait && after.d.timers == m.d.timers
            && fx_after.timer@ == fx.timer@,
        m.d.timers.active != Timer::ClientTimeout && m.d.codec.ctype != ConnectionType::KeepAlive
            ==> ask == not_alive::<E>(false) && fx_after.close,
        m.d.timers.active != Timer::ClientTimeout && m.d.codec.ctype == ConnectionType::KeepAlive
            && m.d.cfg().ka_enabled ==> ask is Wait && after.d.timers.active == Timer::KeepAlive
            && (m.d.timers.active == Timer::KeepAlive ==> fx_after.timer@ == fx.timer@) && (
        m.d.timers.active != Timer::KeepAlive ==> fx_after.timer@ == fx.timer@.push(
            TimerOp::Start(m.d.cfg().keep_alive),
        )),
{
    if m.d.timers.active == Timer::ClientTimeout {
        assert(fx.timer@ + Seq::<TimerOp>::empty() =~= fx.timer@);
    }
    assert(fx.timer@ + seq![TimerOp::Start(m.d.cfg().keep_alive)] =~= fx.timer@.push(
        TimerOp::Start(m.d.cfg().keep_alive),
    ));
    assert(fx.timer@ + Seq::<TimerOp>::empty() =~= fx.timer@);
}

/// A head that has begun is timed where a rate for heads is set: the timer is armed
/// for its first period, and all its bytes count.
pub proof fn heads_are_timed<E: ResponseError>(
    m: Machine,
    fx: Effects,
    consumed: u32,
    left: u32,
    io: IoView,
    dst: Seq<u8>,
    date: Seq<u8>,
    after: Machine,
    fx_after: Effects,
    out: Seq<u8>,
    ask: Ask<E>,
)
    requires
        m.d.codec.decoder.hdrs || left > 0,
        m.d.timers.active != Timer::Headers,
        m.d.cfg().headers_read_rate is Some,
        consumed + left <= u32::MAX,
        resumed(
            m,
            fx,
            Event::Request(Received::Decoded(None, consumed, left)),
            io,
            dst,
            date,
            after,
            fx_after,
            out,
            ask,
        ),
    ensures
        ask is Wait,
        after.d.timers.active == Timer::Headers,
        after.d.timers.progress.consumed == consumed + left,
        after.d.timers.progress.remains == left,
        ({
            let cfg = m.d.cfg().headers_read_rate->0;
            let period = if cfg.max_timeout.0 == 0 || cfg.timeout.0 <= cfg.max_timeout.0 {
                cfg.timeout
            } else {
                cfg.max_timeout
            };
            fx_after.timer@ == fx.timer@.push(TimerOp::Start(period))
        }),
{
    let cfg = m.d.cfg().headers_read_rate->0;
    let period = if cfg.max_timeout.0 == 0 || cfg.timeout.0 <= cfg.max_timeout.0 {
        cfg.timeout
    } else {
        cfg.max_timeout
    };
    assert(fx.timer@ + seq![TimerOp::Start(period)] =~= fx.timer@.push(TimerOp::Start(period)));
}

/// A head that is timed and came too slowly is told as such, and one whose budget
/// is used up, too; one that came fast enough has another period.
pub proof fn slow_heads_are_told<E: ResponseError>(
    m: Machine,
    fx: Effects,
    io: IoView,
    dst: Seq<u8>,
    date: Seq<u8>,
    after: Machine,
    fx_after: Effects,
    out: Seq<u8>,
    ask: Ask<E>,
)
    requires
        m.d.disconnect != Disconnect::Sent,
        !io.shutdown,
        resumed(
            m,
            fx,
            Event::Request(Received::KeepAlive),
            io,
            dst,
            date,
            after,
            fx_after,
            out,
            ask,
        ),
    ensures
        m.d.timers.active == Timer::Headers && m.d.cfg().headers_read_rate is Some ==> ({
            let cfg = m.d.cfg().headers_read_rate->0;
            let p = m.d.timers.progress;
            let slow = p.consumed <= cfg.rate || cfg.max_timeout.0 != 0 && p.max_timeout.0 == 0;
            &&& slow ==> ask == violated::<E>(ProtocolError::SlowRequestTimeout)
            &&& !slow ==> ask is Request
        }),
        m.d.timers.active == Timer::ClientTimeout && !(m.d.codec.decoder.hdrs
            && m.d.cfg().headers_read_rate is Some) ==> ask == violated::<E>(
            ProtocolError::SlowRequestTimeout,
        ),
        m.d.timers.active == Timer::KeepAlive && !(m.d.codec.decoder.hdrs
            && m.d.cfg().headers_read_rate is Some) ==> ask == not_alive::<E>(true),
        m.d.timers.active.for_write() && io.backpressure ==> (ask matches Ask::CallControl(
            Control::Disconnect(Reason::PeerGone(g)),
        ) && g.err is Some && g.err->0.kind == IoErrorKind::TimedOut),
        out == dst,
{
}

/// A server that shuts down takes no further request.
pub proof fn no_request_after_shutdown<E: ResponseError>(
    m: Machine,
    fx: Effects,
    io: IoView,
    dst: Seq<u8>,
    date: Seq<u8>,
    after: Machine,
    fx_after: Effects,
    out: Seq<u8>,
    ask: Ask<E>,
)
    requires
        m.stage == Stage::ReadRequest,
        m.d.disconnect == Disconnect::Open,
        resumed(m, fx, Event::<E>::Wake, io, dst, date, after, fx_after, out, ask),
    ensures
        io.shutdown ==> ask == ended::<E>(ServiceDisconnectReason::Shutdown),
        !io.shutdown ==> ask is Request,
{
}

// ---------------------------------------------------------------------------
// Payloads
// ---------------------------------------------------------------------------

/// A piece of a payload is handed on as it is, behind all that was handed on
/// before, and the payload is read on.
pub proof fn pieces_are_handed_on<E: ResponseError>(
    m: Machine,
    fx: Effects,
    reader: Reader,
    updated: bool,
    chunk: Vec<u8>,
    consumed: u32,
    left: u32,
    io: IoView,
    dst: Seq<u8>,
    date: Seq<u8>,
    after: Machine,
    fx_after: Effects,
    out: Seq<u8>,
    ask: Ask<E>,
)
    requires
        m.spot == Spot::Payload(reader, updated),
        resumed(
            m,
            fx,
            Event::<E>::Payload(
                Received::Decoded(Some(PayloadItem::Chunk(chunk)), consumed, left),
            ),
            io,
            dst,
            date,
            after,
            fx_after,
            out,
            ask,
        ),
    ensures
        fx_after.payload@ == fx.payload@.push(PayloadOp::Data(chunk)),
        ask is Payload,
        after.d.payload == m.d.payload,
        out == dst,
{
}

/// The end of a payload is handed on once, behind all its pieces, and the payload
/// is over: once the response was sent too, the next request is read.
pub proof fn end_is_handed_on<E: ResponseError>(
    m: Machine,
    fx: Effects,
    reader: Reader,
    updated: bool,
    consumed: u32,
    left: u32,
    io: IoView,
    dst: Seq<u8>,
    date: Seq<u8>,
    after: Machine,
    fx_after: Effects,
    out: Seq<u8>,
    ask: Ask<E>,
)
    requires
        m.spot == Spot::Payload(reader, updated),
        resumed(
            m,
            fx,
            Event::<E>::Payload(Received::Decoded(Some(PayloadItem::Eof), consumed, left)),
            io,
            dst,
            date,
            after,
            fx_after,
            out,
            ask,
        ),
    ensures
        fx_after.payload@ == fx.payload@.push(PayloadOp::Eof),
        after.d.payload is None,
        reader == Reader::Publish || reader == Reader::Control ==> ask is Wait,
        reader == Reader::Send ==> ask is Flush,
        reader == Reader::Rest && m.d.disconnect == Disconnect::Open && !io.shutdown ==> ask
            is Request,
        out == dst,
{
}

/// A payload that fails is failed for its reader, too: as incomplete where the peer
/// is gone, with the error where it does not decode. While the service works, the
/// control service is told.
pub proof fn failures_are_handed_on<E: ResponseError>(
    m: Machine,
    fx: Effects,
    updated: bool,
    ev: Received<PayloadItem>,
    io: IoView,
    dst: Seq<u8>,
    date: Seq<u8>,
    after: Machine,
    fx_after: Effects,
    out: Seq<u8>,
    ask: Ask<E>,
)
    requires
        m.spot == Spot::Payload(Reader::Publish, updated),
        m.d.disconnect != Disconnect::Sent,
        m.d.payload is Some,
        resumed(m, fx, Event::<E>::Payload(ev), io, dst, date, after, fx_after, out, ask),
    ensures
        ev matches Received::PeerGone(e) ==> ask == gone::<E>(e) && fx_after.payload@.last()
            == PayloadOp::Error(PayloadError::Incomplete(e)) && fx_after.payload@.drop_last()
            == fx.payload@,
        ev matches Received::Decoder(e) ==> ask == violated::<E>(ProtocolError::Decode(e))
            && fx_after.payload@.last() == PayloadOp::Error(PayloadError::Decode(e))
            && fx_after.payload@.drop_last() == fx.payload@,
        ev is WriteBackpressure ==> ask is Flush && fx_after.payload@ == fx.payload@,
        out == dst,
{
}

/// A payload that comes too slowly is failed for its reader as timed out, and the
/// control service is told; one that came fast enough has another period.
pub proof fn slow_payloads_are_told<E: ResponseError>(
    m: Machine,
    fx: Effects,
    updated: bool,
    io: IoView,
    dst: Seq<u8>,
    date: Seq<u8>,
    after: Machine,
    fx_after: Effects,
    out: Seq<u8>,
    ask: Ask<E>,
)
    requires
        m.spot == Spot::Payload(Reader::Publish, updated),
        m.d.disconnect != Disconnect::Sent,
        m.d.payload is Some,
        m.d.timers.active == Timer::Payload,
        m.d.cfg().payload_read_rate is Some,
        m.buffered is None,
        resumed(
            m,
            fx,
            Event::<E>::Payload(Received::KeepAlive),
            io,
            dst,
            date,
            after,
            fx_after,
            out,
            ask,
        ),
    ensures
        ({
            let cfg = m.d.cfg().payload_read_rate->0;
            let p = m.d.timers.progress;
            let slow = p.consumed <= cfg.rate || cfg.max_timeout.0 != 0 && p.max_timeout.0 == 0;
            &&& slow ==> ask == violated::<E>(ProtocolError::SlowPayloadTimeout) && (
            fx_after.payload@.last() matches PayloadOp::Error(PayloadError::Io(e)) && e.kind
                == IoErrorKind::TimedOut)
            &&& !slow ==> ask is Payload && fx_after.payload@ == fx.payload@
        }),
{
}

/// A payload that nobody reads any more is given up, and the connection ends once
/// the response was sent, unless its end was told before. A payload that is read
/// slowly is waited for.
pub proof fn dropped_payloads_end_the_connection<E: ResponseError>(
    m: Machine,
    fx: Effects,
    reader: Reader,
    status: StreamStatus,
    io: IoView,
    dst: Seq<u8>,
    date: Seq<u8>,
    after: Machine,
    fx_after: Effects,
    out: Seq<u8>,
    ask: Ask<E>,
)
    requires
        m.spot == Spot::Stream(reader),
        reader == Reader::Publish || reader == Reader::Control,
        resumed(m, fx, Event::<E>::Stream(status), io, dst, date, after, fx_after, out, ask),
    ensures
        status == StreamStatus::Dropped ==> after.d.payload is None && ask is Wait && (
        m.d.disconnect != Disconnect::Sent ==> after.d.disconnect == Disconnect::Pending(
            ServiceDisconnectReason::PayloadDropped,
        )),
        status == StreamStatus::Ready ==> ask is Payload && after.d.payload == m.d.payload,
        status == StreamStatus::Pending ==> ask is Wait && after.d.payload == m.d.payload,
        fx_after.payload@ == fx.payload@,
{
}

// ---------------------------------------------------------------------------
// Answers of the control service
// ---------------------------------------------------------------------------

/// What the control service answers is done: a request that it lets pass is handed
/// to the service as it is, one that it lets go on is told so, an expectation and an
/// upgrade are handed back to it, and where it stops the connection, the transport
/// is shut down.
pub proof fn control_answers_are_done<E: ResponseError>(
    m: Machine,
    fx: Effects,
    result: ControlResult,
    io: IoView,
    dst: Seq<u8>,
    date: Seq<u8>,
    after: Machine,
    fx_after: Effects,
    out: Seq<u8>,
    ask: Ask<E>,
)
    requires
        m.d.pending_payload_error is None,
        resumed(
            m,
            fx,
            Event::<E>::Control(Some(result)),
            io,
            dst,
            date,
            after,
            fx_after,
            out,
            ask,
        ),
    ensures
        result matches ControlResult::Publish(req) ==> ask == Ask::<E>::CallService(req) && out
            == dst && after.d.disconnect == m.d.disconnect,
        result matches ControlResult::Continue(req) ==> ask == Ask::<E>::Continue(req) && out == dst,
        result matches ControlResult::Expect(req) ==> ask == Ask::<E>::CallControl(
            Control::Expect(Expect { req }),
        ) && out == dst,
        result matches ControlResult::Upgrade(req) ==> (ask matches Ask::CallControl(
            Control::Upgrade(u),
        ) && u.req == req) && out == dst && after.d.codec.ctype == ConnectionType::Close,
        result matches ControlResult::UpgradeAck(req) ==> ask == Ask::<E>::CallService(req) && out
            == dst && (m.d.disconnect != Disconnect::Sent ==> after.d.disconnect
            == Disconnect::Pending(ServiceDisconnectReason::UpgradeHandled)),
        result is UpgradeHandled && m.d.disconnect != Disconnect::Sent ==> ask == ended::<E>(
            ServiceDisconnectReason::UpgradeHandled,
        ) && out == dst,
        result is Stop ==> ask is Shutdown && out == dst,
{
}

/// A request that the control service acknowledges is handed to the service, unless
/// it expects to be told to go on or asks for an upgrade: then that comes first, the
/// expectation before the upgrade.
pub proof fn requests_are_acknowledged(req: Request)
    ensures
        req.head.flags.expect ==> request_ack(req) == ControlResult::Expect(req),
        !req.head.flags.expect && (req.head.flags.upgrade || req.head.method is CONNECT)
            ==> request_ack(req) == ControlResult::Upgrade(req),
        !req.head.flags.expect && !req.head.flags.upgrade && !(req.head.method is CONNECT)
            ==> request_ack(req) == ControlResult::Publish(req),
{
}

/// A request that was told to go on is handed to the service, or to the control
/// service where it asks for an upgrade; where it could not be told, the peer is
/// gone.
pub proof fn continued_requests_go_on<E: ResponseError>(
    m: Machine,
    fx: Effects,
    req: Request,
    err: Option<IoError>,
    io: IoView,
    dst: Seq<u8>,
    date: Seq<u8>,
    after: Machine,
    fx_after: Effects,
    out: Seq<u8>,
    ask: Ask<E>,
)
    requires
        m.d.pending_payload_error is None,
        resumed(m, fx, Event::<E>::Continue(req, err), io, dst, date, after, fx_after, out, ask),
    ensures
        err is None && !req.head.flags.upgrade && !(req.head.method is CONNECT) ==> ask == Ask::<
            E,
        >::CallService(req),
        err is None && (req.head.flags.upgrade || req.head.method is CONNECT) ==> (
        ask matches Ask::CallControl(Control::Upgrade(u)) && u.req == req),
        err is Some && m.d.disconnect != Disconnect::Sent ==> ask == gone::<E>(err),
        out == dst,
{
}

// ---------------------------------------------------------------------------
// Responses
// ---------------------------------------------------------------------------

/// The head of a response is written once, behind all that was written before, with
/// the version of the request. It closes the connection where it is marked to, or
/// nobody reads the rest of the request; it upgrades it where it is marked to, and
/// otherwise leaves it as the request wanted it. Nothing is written where the peer
/// is gone, which is told.
pub proof fn responses_are_written<E: ResponseError>(
    m: Machine,
    fx: Effects,
    head: ResponseHead,
    size: BodySize,
    io: IoView,
    dst: Seq<u8>,
    date: Seq<u8>,
    after: Machine,
    fx_after: Effects,
    out: Seq<u8>,
    ask: Ask<E>,
)
    requires
        resumed(
            m,
            fx,
            Event::<E>::Service(Some(Ok((head, size)))),
            io,
            dst,
            date,
            after,
            fx_after,
            out,
            ask,
        ),
    ensures
        !io.active ==> out == dst && (m.d.disconnect != Disconnect::Sent ==> ask == gone::<E>(None)),
        io.active ==> {
            let closes = m.d.payload is Some && io.payload_closed;
            let sent = ResponseHead {
                version: m.d.codec.version,
                flags: if closes {
                    flags_with(head.flags, ConnectionType::Close)
                } else {
                    head.flags
                },
                ..head
            };
            let t = if head.flags.close || closes {
                ConnectionType::Close
            } else if head.flags.upgrade && !head.flags.keep_alive {
                ConnectionType::Upgrade
            } else {
                m.d.codec.ctype
            };
            &&& dst.is_prefix_of(out)
            &&& is_head_of(
                out.skip(dst.len() as int),
                sent,
                m.d.codec.version,
                size,
                t,
                None,
                date,
            )
        },
{
    if io.active {
        assert(out.skip(dst.len() as int) =~= out.subrange(dst.len() as int, out.len() as int));
        let closes = m.d.payload is Some && io.payload_closed;
        let h = ResponseHead {
            flags: if closes {
                flags_with(head.flags, ConnectionType::Close)
            } else {
                head.flags
            },
            ..head
        };
        let sent = ResponseHead { version: m.d.codec.version, ..h };
        assert(crate::h1::flow::sent_head(m.d, head, io.payload_closed) == h);
    }
}

/// After a response without a body the connection goes on: with the end that is
/// due, with the rest of the request payload, or with the next request. A response
/// with a body goes on with it.
pub proof fn responses_are_followed<E: ResponseError>(
    m: Machine,
    fx: Effects,
    head: ResponseHead,
    size: BodySize,
    io: IoView,
    dst: Seq<u8>,
    date: Seq<u8>,
    after: Machine,
    fx_after: Effects,
    out: Seq<u8>,
    ask: Ask<E>,
)
    requires
        io.active,
        !io.shutdown,
        m.d.pending_payload_error is None,
        resumed(
            m,
            fx,
            Event::<E>::Service(Some(Ok((head, size)))),
            io,
            dst,
            date,
            after,
            fx_after,
            out,
            ask,
        ),
    ensures
        ({
            let none = size is NoBody || size is Empty;
            &&& none && m.d.disconnect == Disconnect::Open && m.d.payload is None ==> ask is Request
            &&& none && m.d.disconnect == Disconnect::Open && m.d.payload is Some ==> ask is Stream
                && after.stage == Stage::ReadPayload
            &&& none ==> (m.d.disconnect matches Disconnect::Pending(reason) ==> ask == ended::<E>(
                reason,
            ) && after.d.disconnect == Disconnect::Sent)
            &&& none && m.d.disconnect == Disconnect::Sent ==> ask is Shutdown
            &&& !none && m.d.payload is None ==> ask is Flush && after.stage == Stage::SendPayload
            &&& !none && m.d.disconnect == Disconnect::Open && m.d.payload is Some ==> ask is Stream
                && after.stage == Stage::SendPayload
        }),
{
}

/// A piece of the body is written behind all that was written before, as the head
/// framed it, and flushed. The end of the body is written where the body may end,
/// and the connection goes on; a body that ends too early, and one that fails, are
/// told.
pub proof fn bodies_are_written<E: ResponseError>(
    m: Machine,
    fx: Effects,
    item: StreamPoll,
    io: IoView,
    dst: Seq<u8>,
    date: Seq<u8>,
    after: Machine,
    fx_after: Effects,
    out: Seq<u8>,
    ask: Ask<E>,
)
    requires
        m.d.disconnect != Disconnect::Sent,
        resumed(m, fx, Event::<E>::Body(item), io, dst, date, after, fx_after, out, ask),
    ensures
        ({
            let kind = m.d.codec.encoder.te.kind;
            &&& item is Pending ==> out == dst && ask is Wait
            &&& item matches StreamPoll::Chunk(b) ==> out == dst + encoded(kind, b@) && ask is Flush
            &&& item is Done ==> out == dst + eof_encoded(kind)
            &&& item is Done && !may_end(kind) ==> ask == violated::<E>(
                ProtocolError::Encode(EncodeError::UnexpectedEof),
            )
            &&& item is Done && may_end(kind) && m.d.disconnect == Disconnect::Open && m.d.payload
                is None && !io.shutdown ==> ask is Request
            &&& item is Done && may_end(kind) ==> (m.d.disconnect matches Disconnect::Pending(
                reason,
            ) ==> ask == ended::<E>(reason))
            &&& item matches StreamPoll::Failed(text) ==> out == dst && ask == violated::<E>(
                ProtocolError::ResponsePayload(text),
            )
        }),
{
}

/// A service that fails is told to the control service, with the answer to its
/// error, unless the end was told before. While it works, its payload is read where
/// there is one, and the transport is watched otherwise.
pub proof fn services_are_watched<E: ResponseError>(
    m: Machine,
    fx: Effects,
    res: Option<Result<(ResponseHead, BodySize), E>>,
    io: IoView,
    dst: Seq<u8>,
    date: Seq<u8>,
    after: Machine,
    fx_after: Effects,
    out: Seq<u8>,
    ask: Ask<E>,
)
    requires
        m.d.disconnect != Disconnect::Sent,
        m.d.pending_payload_error is None,
        resumed(m, fx, Event::<E>::Service(res), io, dst, date, after, fx_after, out, ask),
    ensures
        res matches Some(Err(e)) ==> (ask matches Ask::CallControl(
            Control::Disconnect(Reason::Error(msg)),
        ) && msg.err == e && e.answered_with(msg.pkt)) && out == dst,
        res is None && m.d.payload is Some ==> ask is Stream && out == dst,
        res is None && m.d.payload is None ==> ask is Status && out == dst,
{
}

/// A peer that goes away while the service works is told; output that cannot be
/// written in time is, too. Otherwise the service works on, with the write timer
/// running while output waits, where there is one.
pub proof fn transport_is_watched<E: ResponseError>(
    m: Machine,
    fx: Effects,
    status: IoStatus,
    io: IoView,
    dst: Seq<u8>,
    date: Seq<u8>,
    after: Machine,
    fx_after: Effects,
    out: Seq<u8>,
    ask: Ask<E>,
)
    requires
        m.spot == Spot::Status,
        m.d.disconnect != Disconnect::Sent,
        resumed(m, fx, Event::<E>::Status(status), io, dst, date, after, fx_after, out, ask),
    ensures
        status matches IoStatus::PeerGone(e) ==> ask == gone::<E>(e),
        status is KeepAlive && m.d.timers.active.for_write() && io.backpressure ==> (
        ask matches Ask::CallControl(Control::Disconnect(Reason::PeerGone(g))) && g.err is Some
            && g.err->0.kind == IoErrorKind::TimedOut),
        status is Pending ==> ask is Wait,
        status is KeepAlive && !(m.d.timers.active.for_write() && io.backpressure) ==> ask is Wait,
        status is WriteBackpressure ==> ask is Wait && (m.d.cfg().write_timeout.0 != 0
            ==> after.d.timers.active.for_write()) && (m.d.cfg().write_timeout.0 != 0
            && !m.d.timers.active.for_write() ==> fx_after.timer@.last() == TimerOp::Start(
            m.d.cfg().write_timeout,
        )),
        out == dst,
{
}

/// Errors of the protocol are answered by what they are: a head that is too large
/// with 431, one that does not parse with 400, what comes too slowly with 408, and
/// a response that failed with 500.
pub proof fn errors_have_their_status(e: ProtocolError)
    ensures
        e matches ProtocolError::Decode(d) ==> (d is MaxHeaders || d is TooLarge ==> error_status(
            e,
        ) == StatusCode(431)) && (!(d is MaxHeaders) && !(d is TooLarge) ==> error_status(e)
            == StatusCode(400)),
        e is SlowRequestTimeout || e is SlowPayloadTimeout ==> error_status(e) == StatusCode(408),
        e is Encode || e is ResponsePayload ==> error_status(e) == StatusCode(500),
{
}

// ---------------------------------------------------------------------------
// Payload timing, flushing and waking
// ---------------------------------------------------------------------------

/// The payload of a request is timed from the request on, where there is a rate for
/// it; that of one that waits to be told to go on is not.
pub proof fn payloads_are_timed<E: ResponseError>(
    m: Machine,
    fx: Effects,
    req: Request,
    pl: PayloadType,
    consumed: u32,
    left: u32,
    io: IoView,
    dst: Seq<u8>,
    date: Seq<u8>,
    after: Machine,
    fx_after: Effects,
    out: Seq<u8>,
    ask: Ask<E>,
)
    requires
        !(pl is NoPayload),
        !m.d.timers.active.for_write(),
        resumed(
            m,
            fx,
            Event::Request(Received::Decoded(Some((req, pl)), consumed, left)),
            io,
            dst,
            date,
            after,
            fx_after,
            out,
            ask,
        ),
    ensures
        req.head.flags.expect || m.d.cfg().payload_read_rate is None ==> after.d.timers.active
            == Timer::Stopped && fx_after.timer@.last() == TimerOp::Stop,
        !req.head.flags.expect && m.d.cfg().payload_read_rate is Some ==> after.d.timers.active
            == Timer::Payload && after.d.timers.progress.consumed == 0 && fx_after.timer@.last()
            is Start,
{
    assert(fx.timer@ + seq![TimerOp::Stop] + Seq::<TimerOp>::empty() =~= fx.timer@.push(
        TimerOp::Stop,
    ));
}

/// A head that has begun and is not timed for want of a rate is bounded by the
/// keep-alive time where that is enabled, unless it is the first one.
pub proof fn heads_without_a_rate<E: ResponseError>(
    m: Machine,
    fx: Effects,
    consumed: u32,
    left: u32,
    io: IoView,
    dst: Seq<u8>,
    date: Seq<u8>,
    after: Machine,
    fx_after: Effects,
    out: Seq<u8>,
    ask: Ask<E>,
)
    requires
        m.d.codec.decoder.hdrs || left > 0,
        m.d.timers.active != Timer::Headers,
        m.d.cfg().headers_read_rate is None,
        resumed(
            m,
            fx,
            Event::Request(Received::Decoded(None, consumed, left)),
            io,
            dst,
            date,
            after,
            fx_after,
            out,
            ask,
        ),
    ensures
        ask is Wait,
        m.d.timers.active == Timer::ClientTimeout || !m.d.cfg().ka_enabled ==> after.d.timers
            == m.d.timers,
        m.d.timers.active != Timer::ClientTimeout && m.d.cfg().ka_enabled ==> after.d.timers.active
            == Timer::KeepAlive,
{
}

/// Once output was flushed, what was to be done before is done: the next piece of a
/// body is asked for, the payload is received, or the request.
pub proof fn flushed_output_goes_on<E: ResponseError>(
    m: Machine,
    fx: Effects,
    flusher: Flusher,
    res: Option<Result<(), IoError>>,
    io: IoView,
    dst: Seq<u8>,
    date: Seq<u8>,
    after: Machine,
    fx_after: Effects,
    out: Seq<u8>,
    ask: Ask<E>,
)
    requires
        m.spot == Spot::Flush(flusher),
        m.d.disconnect != Disconnect::Sent,
        !io.shutdown,
        resumed(m, fx, Event::<E>::Flush(res), io, dst, date, after, fx_after, out, ask),
    ensures
        res matches Some(Ok(_)) ==> match flusher {
            Flusher::Send => ask is Body,
            Flusher::Payload(_, _) => ask is Payload,
            Flusher::Request => ask is Request,
        },
        res matches Some(Err(e)) ==> (flusher == Flusher::Request ==> ask == gone::<E>(Some(e))),
        res matches Some(Err(e)) ==> (flusher == Flusher::Send && e.kind == IoErrorKind::TimedOut
            ==> ask == gone::<E>(Some(e))),
        res is None && m.d.cfg().write_timeout.0 != 0 ==> ask is Status
            && after.d.timers.active.for_write(),
        res is None && m.d.cfg().write_timeout.0 == 0 && !m.d.timers.active.for_write() && (flusher
            == Flusher::Send || flusher == Flusher::Request) ==> ask is Wait,
        res is Some && flusher != Flusher::Request && ask is Body
            ==> !after.d.timers.active.for_write(),
        out == dst,
{
}

/// Output that could not be flushed in time is told, while a request is read and
/// while a response is sent; otherwise it is flushed on.
pub proof fn slow_output_is_told<E: ResponseError>(
    m: Machine,
    fx: Effects,
    flusher: Flusher,
    status: IoStatus,
    io: IoView,
    dst: Seq<u8>,
    date: Seq<u8>,
    after: Machine,
    fx_after: Effects,
    out: Seq<u8>,
    ask: Ask<E>,
)
    requires
        m.spot == Spot::FlushStatus(flusher),
        m.d.disconnect != Disconnect::Sent,
        flusher == Flusher::Send || flusher == Flusher::Request,
        resumed(m, fx, Event::<E>::Status(status), io, dst, date, after, fx_after, out, ask),
    ensures
        status is KeepAlive ==> (ask matches Ask::CallControl(
            Control::Disconnect(Reason::PeerGone(g)),
        ) && g.err is Some && g.err->0.kind == IoErrorKind::TimedOut),
        status is Pending && !io.backpressure ==> ask is Flush,
        status is Pending && io.backpressure ==> ask is Wait,
        out == dst,
{
}

/// A connection that wakes up takes up what it was at.
pub proof fn waking_up<E: ResponseError>(
    m: Machine,
    fx: Effects,
    io: IoView,
    dst: Seq<u8>,
    date: Seq<u8>,
    after: Machine,
    fx_after: Effects,
    out: Seq<u8>,
    ask: Ask<E>,
)
    requires
        resumed(m, fx, Event::<E>::Wake, io, dst, date, after, fx_after, out, ask),
    ensures
        m.stage == Stage::Publish ==> ask is PollService && after.d == m.d,
        m.stage == Stage::Control ==> ask is PollControl && after.d == m.d,
        m.stage == Stage::Stop ==> ask is Shutdown && after.d == m.d,
        m.stage == Stage::SendPayload && m.d.pending_payload_error is None && !io.active
            && m.d.disconnect != Disconnect::Sent ==> ask == gone::<E>(None),
        m.stage == Stage::SendPayload && m.d.pending_payload_error is None && io.active
            && m.d.payload is None ==> ask is Flush,
        m.stage == Stage::ReadPayload && m.d.pending_payload_error is None && m.d.payload is Some
            ==> ask is Stream,
        m.stage == Stage::ReadRequest ==> (m.d.disconnect matches Disconnect::Pending(reason)
            ==> ask == ended::<E>(reason)),
        m.stage == Stage::ReadRequest && m.d.disconnect == Disconnect::Sent ==> ask is Shutdown,
        out == dst,
{
}

/// The transport is shut down before the connection is done, and a control service
/// that fails ends it at once.
pub proof fn ending<E: ResponseError>(
    m: Machine,
    fx: Effects,
    done: bool,
    io: IoView,
    dst: Seq<u8>,
    date: Seq<u8>,
    after: Machine,
    fx_after: Effects,
    out: Seq<u8>,
    ask: Ask<E>,
)
    requires
        resumed(m, fx, Event::<E>::Shutdown(done), io, dst, date, after, fx_after, out, ask),
    ensures
        done ==> ask is Done,
        !done ==> ask is Wait && after.stage == Stage::Stop,
        out == dst,
{
}

/// The response of the control service is written, as one of the service is. One
/// that refuses an expectation or an upgrade ends the connection once it was sent.
pub proof fn control_responses_are_written<E: ResponseError>(
    m: Machine,
    fx: Effects,
    result: ControlResult,
    head: ResponseHead,
    size: BodySize,
    io: IoView,
    dst: Seq<u8>,
    date: Seq<u8>,
    after: Machine,
    fx_after: Effects,
    out: Seq<u8>,
    ask: Ask<E>,
)
    requires
        io.active,
        m.d.payload is None,
        match result {
            ControlResult::Response(r, b) => r.head == head && b.size_spec() == size,
            ControlResult::Error(r, b) => r.head == head && b.size_spec() == size,
            ControlResult::ProtocolError(r, b) => r.head == head && b.size_spec() == size,
            ControlResult::ExpectFailed(r, b) => r.head == head && b.size_spec() == size,
            ControlResult::UpgradeFailed(r, b) => r.head == head && b.size_spec() == size,
            _ => false,
        },
        resumed(
            m,
            fx,
            Event::<E>::Control(Some(result)),
            io,
            dst,
            date,
            after,
            fx_after,
            out,
            ask,
        ),
    ensures
        dst.is_prefix_of(out),
        ({
            let t = if head.flags.close {
                ConnectionType::Close
            } else if head.flags.upgrade && !head.flags.keep_alive {
                ConnectionType::Upgrade
            } else {
                m.d.codec.ctype
            };
            is_head_of(
                out.skip(dst.len() as int),
                ResponseHead { version: m.d.codec.version, ..head },
                m.d.codec.version,
                size,
                t,
                None,
                date,
            )
        }),
        (size is NoBody || size is Empty) && m.d.disconnect != Disconnect::Sent && result
            is ExpectFailed ==> ask == ended::<E>(ServiceDisconnectReason::ExpectFailed),
        (size is NoBody || size is Empty) && m.d.disconnect != Disconnect::Sent && result
            is UpgradeFailed ==> ask == ended::<E>(ServiceDisconnectReason::UpgradeFailed),
{
    assert(out.skip(dst.len() as int) =~= out.subrange(dst.len() as int, out.len() as int));
}

/// A payload that fails while the control service works is told once the request is
/// let pass, in place of calling the service.
pub proof fn kept_failures_are_told<E: ResponseError>(
    m: Machine,
    fx: Effects,
    req: Request,
    io: IoView,
    dst: Seq<u8>,
    date: Seq<u8>,
    after: Machine,
    fx_after: Effects,
    out: Seq<u8>,
    ask: Ask<E>,
)
    requires
        m.d.disconnect != Disconnect::Sent,
        resumed(
            m,
            fx,
            Event::<E>::Control(Some(ControlResult::Publish(req))),
            io,
            dst,
            date,
            after,
            fx_after,
            out,
            ask,
        ),
    ensures
        m.d.pending_payload_error matches Some(PayloadFault::Protocol(e)) ==> ask == violated::<E>(
            e,
        ) && after.d.pending_payload_error is None,
        m.d.pending_payload_error matches Some(PayloadFault::Peer(e)) ==> ask == gone::<E>(e)
            && after.d.pending_payload_error is None,
{
}

/// The end of a connection that is acknowledged is answered where it is an error,
/// with the response to the error, and otherwise stops the connection.
pub proof fn ends_are_acknowledged<F: ResponseError>(reason: Reason<F>, r: ControlResult)
    requires
        reason_ack(reason, r),
    ensures
        reason matches Reason::Error(m) ==> (r matches ControlResult::Error(res, body) && res.head
            == m.pkt.head && (m.pkt.body == ResponseBody::Body(body) || m.pkt.body
            == ResponseBody::<Body>::Other(body))),
        reason matches Reason::ProtocolError(m) ==> (r matches ControlResult::ProtocolError(
            res,
            body,
        ) && res.head.status == error_status(m.err) && body == Body::Empty),
        reason is PeerGone || reason is KeepAlive || reason is Service ==> r is Stop,
{
}

/// The connections of a service have ids of their own and are counted while they
/// are open.
pub proof fn connections_are_counted(
    a: DispatcherConfig,
    b: DispatcherConfig,
    io: u64,
    id: usize,
    open: usize,
    c: DispatcherConfig,
    last: bool,
)
    requires
        takes(a, b, io, id, open),
        ends(b, c, io, last),
    ensures
        a.issued() == id,
        b.issued() > id,
        b.open_ios().contains(io),
        !c.open_ios().contains(io),
        forall|other: u64|
            other != io ==> (#[trigger] c.open_ios().contains(other) <==> a.open_ios().contains(
                other,
            )),
        open == b.open_ios().len(),
        last ==> c.open_ios().len() == 0 && b.stopping() && c.announced(),
{
}

/// While the control service works, the payload is read on, and a failure of it is
/// kept for later. A payload that fails while the response is sent ends the
/// connection, at once where the peer is gone and behind the response otherwise;
/// one that fails once it was sent shuts the transport down.
pub proof fn failures_at_other_times<E: ResponseError>(
    m: Machine,
    fx: Effects,
    reader: Reader,
    updated: bool,
    ev: Received<PayloadItem>,
    io: IoView,
    dst: Seq<u8>,
    date: Seq<u8>,
    after: Machine,
    fx_after: Effects,
    out: Seq<u8>,
    ask: Ask<E>,
)
    requires
        m.spot == Spot::Payload(reader, updated),
        m.d.disconnect != Disconnect::Sent,
        m.d.pending_payload_error is None,
        ev is PeerGone || ev is Decoder,
        resumed(m, fx, Event::<E>::Payload(ev), io, dst, date, after, fx_after, out, ask),
    ensures
        reader == Reader::Control ==> ask is Wait && (ev matches Received::PeerGone(e)
            ==> after.d.pending_payload_error == Some(PayloadFault::Peer(e))) && (
        ev matches Received::Decoder(e) ==> after.d.pending_payload_error == Some(
            PayloadFault::Protocol(ProtocolError::Decode(e)),
        )),
        reader == Reader::Send ==> (ev matches Received::PeerGone(e) ==> ask == gone::<E>(e)) && (ev
            is Decoder ==> ask is Flush && after.d.disconnect == Disconnect::Sent),
        reader == Reader::Rest ==> ask is Shutdown,
        out == dst,
{
}

/// While the control service works, its request's payload is read where there is
/// one, and otherwise the connection waits.
pub proof fn control_is_waited_for<E: ResponseError>(
    m: Machine,
    fx: Effects,
    io: IoView,
    dst: Seq<u8>,
    date: Seq<u8>,
    after: Machine,
    fx_after: Effects,
    out: Seq<u8>,
    ask: Ask<E>,
)
    requires
        resumed(m, fx, Event::<E>::Control(None), io, dst, date, after, fx_after, out, ask),
    ensures
        m.d.payload is Some && m.d.pending_payload_error is None ==> ask is Stream && after.stage
            == Stage::Control,
        m.d.payload is None || m.d.pending_payload_error is Some ==> ask is Wait,
        after.d == m.d,
        out == dst,
{
}

/// A control service that fails ends the connection.
pub proof fn control_failures_end<E: ResponseError>(
    m: Machine,
    fx: Effects,
    io: IoView,
    dst: Seq<u8>,
    date: Seq<u8>,
    after: Machine,
    fx_after: Effects,
    out: Seq<u8>,
    ask: Ask<E>,
)
    requires
        resumed(m, fx, Event::<E>::ControlFailed, io, dst, date, after, fx_after, out, ask),
    ensures
        ask is Done,
        out == dst,
{
}

/// The body that follows the head of a response is framed as the head says: none
/// where a head was all that was asked for, as many bytes as it announces, chunks,
/// or up to the end of the connection.
pub proof fn bodies_are_framed<E: ResponseError>(
    m: Machine,
    fx: Effects,
    head: ResponseHead,
    size: BodySize,
    io: IoView,
    dst: Seq<u8>,
    date: Seq<u8>,
    after: Machine,
    fx_after: Effects,
    out: Seq<u8>,
    ask: Ask<E>,
)
    requires
        io.active,
        !(size is NoBody || size is Empty),
        resumed(
            m,
            fx,
            Event::<E>::Service(Some(Ok((head, size)))),
            io,
            dst,
            date,
            after,
            fx_after,
            out,
            ask,
        ),
    ensures
        ({
            let kind = after.d.codec.encoder.te.kind;
            let c = m.d.codec;
            &&& c.head ==> kind == TransferEncodingKind::Length(0)
            &&& !c.head ==> (size matches BodySize::Sized(n) ==> kind
                == TransferEncodingKind::Length(n))
            &&& !c.head && size is Stream && !c.stream && !head.flags.no_chunking ==> kind
                == TransferEncodingKind::Chunked(false)
            &&& !c.head && size is Stream && (c.stream || head.flags.no_chunking) ==> kind
                == TransferEncodingKind::Eof
            &&& after.d.codec.head == c.head
            &&& after.d.codec.version == c.version
            &&& after.d.codec.stream == c.stream
        }),
{
}

} // verus!
