//! Requests over HTTP/1.

use vstd::prelude::*;
use vstd::utf8::encode_utf8;

use crate::body::{BodySize, StreamPoll};
use crate::client::error::{ConnectError, ExchangeError, SendRequestError};
use crate::client::sender::{has_header, is_head_with};
use crate::config::{DateService, DATE_LIMIT};
use crate::error::{EncodeError, IoError, IoErrorKind, PayloadError};
use crate::h1::client::{ClientCodec, ClientPayloadCodec};
use crate::h1::decoder::ready;
use crate::h1::encoder::{
    body_coding, encoded, encoder_after, eof_encoded, is_head_of, may_end, TransferEncodingKind,
};
use crate::h1::{Message, MessageType};
use crate::headers::{is_header_value, valid_value};
use crate::message::{type_of, ConnectionType, RequestHeadType, ResponseHead};
use crate::text::{copy_bytes, decimal, write_decimal};

verus! {

/// Value of the host header of a request: the port is left out where it goes
/// without saying.
pub open spec fn host_value(host: Seq<char>, port: Option<u16>) -> Seq<u8> {
    match port {
        None => encode_utf8(host),
        Some(p) => if p == 80 || p == 443 {
            encode_utf8(host)
        } else {
            encode_utf8(host) + seq![58u8] + decimal(p as nat)
        },
    }
}

/// The request with a host header.
pub open spec fn is_hosted(after: RequestHeadType, before: RequestHeadType) -> bool {
    let uri = before.head().uri@;
    if has_header(before, "host"@) {
        after == before
    } else {
        match uri.host {
            Some(host) => if valid_value(host_value(host, uri.port)) {
                is_head_with(after, before, "host"@, host_value(host, uri.port))
            } else {
                after == before
            },
            None => after == before,
        }
    }
}

/// Sets the host header of a request, unless it has one.
pub fn set_host(head: &mut RequestHeadType)
    ensures
        is_hosted(*final(head), *old(head)),
{
    if head.contains_header("host") {
        return ;
    }
    let value = {
        let uri = &head.as_ref().uri;
        match &uri.host {
            Some(host) => {
                let mut value = copy_bytes(host.as_str().as_bytes());
                match uri.port {
                    None | Some(80) | Some(443) => {},
                    Some(port) => {
                        value.push(58);
                        write_decimal(port as u64, &mut value);
                    },
                }
                assert(value@ =~= host_value(host@, uri@.port));
                value
            },
            None => {
                return ;
            },
        }
    };
    if is_header_value(value.as_slice()) {
        proof {
            reveal_strlit("host");
        }
        head.insert_header("host", value.as_slice());
    }
}

/// Whether the body of a request is sent after its head.
fn sends_body(size: BodySize) -> (r: bool)
    ensures
        r == !size.ends(),
{
    !size.is_eof()
}

/// What follows a piece of the body of a request.
#[derive(Debug)]
pub enum BodySend {
    /// Flushes, and asks for the next piece.
    Flush,
    /// Flushes everything, and waits for the response.
    Sent,
    /// Waits for the next piece.
    Pending,
    /// The request failed.
    Failed(SendRequestError),
}

/// The body of a request gave something.
pub fn send_body(
    codec: &mut ClientCodec,
    item: StreamPoll,
    dst: &mut Vec<u8>,
    date: &mut DateService,
    now: u64,
) -> (r: BodySend)
    requires
        old(date).wf(),
        now < DATE_LIMIT,
    ensures
        final(date).wf(),
        *final(codec) == (ClientCodec { encoder: final(codec).encoder, ..*old(codec) }),
        ({
            let kind = old(codec).encoder.te.kind;
            match item {
                StreamPoll::Pending => r is Pending && final(dst)@ == old(dst)@ && *final(codec)
                    == *old(codec),
                StreamPoll::Failed(e) => r == BodySend::Failed(SendRequestError::Error(e)) && final(
                    dst)@ == old(dst)@ && *final(codec) == *old(codec),
                StreamPoll::Chunk(bytes) => {
                    &&& r is Flush
                    &&& final(dst)@ == old(dst)@ + encoded(kind, bytes@)
                    &&& final(codec).encoder.te.kind == encoder_after(kind, bytes@)
                },
                StreamPoll::Done => {
                    &&& final(dst)@ == old(dst)@ + eof_encoded(kind)
                    &&& final(codec).encoder.te.kind == match kind {
                        TransferEncodingKind::Chunked(_) => TransferEncodingKind::Chunked(true),
                        k => k,
                    }
                    &&& if may_end(kind) {
                        r is Sent
                    } else {
                        r == BodySend::Failed(
                            SendRequestError::Request(EncodeError::UnexpectedEof),
                        )
                    }
                },
            }
        }),
{
    match item {
        StreamPoll::Pending => BodySend::Pending,
        StreamPoll::Failed(e) => BodySend::Failed(SendRequestError::Error(e)),
        StreamPoll::Chunk(bytes) => match codec.encode(
            Message::Chunk(Some(bytes)),
            dst,
            date,
            now,
        ) {
            Ok(()) => BodySend::Flush,
            Err(e) => BodySend::Failed(SendRequestError::Request(e)),
        },
        StreamPoll::Done => match codec.encode(Message::Chunk(None), dst, date, now) {
            Ok(()) => BodySend::Sent,
            Err(e) => BodySend::Failed(SendRequestError::Request(e)),
        },
    }
}

/// The connection ended before a response came.
fn no_response() -> (r: SendRequestError)
    ensures
        r == SendRequestError::Connect(ConnectError::Disconnected(None)),
{
    SendRequestError::Connect(ConnectError::Disconnected(None))
}

/// What follows the head of a response.
#[derive(Debug)]
pub enum AfterHead {
    /// There is no body: the connection is given back, and closed where the flag
    /// says so.
    Release(bool),
    /// The body is read.
    ReadBody(ClientPayloadCodec),
}

/// What follows the head of a response.
pub fn after_head(codec: ClientCodec) -> (r: AfterHead)
    ensures
        match codec.type_spec() {
            MessageType::NoPayload => r == AfterHead::Release(
                codec.ctype != ConnectionType::KeepAlive,
            ),
            _ => r == AfterHead::ReadBody(ClientPayloadCodec { inner: codec }),
        },
{
    match codec.message_type() {
        MessageType::NoPayload => AfterHead::Release(!codec.keepalive()),
        _ => AfterHead::ReadBody(codec.into_payload_codec()),
    }
}

/// What the driver of an exchange is to do.
#[derive(Debug)]
pub enum ExchangeStep {
    /// Flushes output: all of it, or as much as there is room for.
    Flush(bool),
    /// Asks for a piece of the body.
    PollBody,
    /// Waits for the next piece of the body.
    Wait,
    /// Receives the head of the response.
    Recv,
    /// The exchange failed.
    Failed(SendRequestError),
}

/// Where an exchange stands.
#[derive(Copy, Clone, Debug, PartialEq, Eq, Structural)]
pub enum Sending {
    /// The head of the request is flushed.
    Head,
    /// A piece of the body is awaited.
    Body,
    /// A piece of the body is flushed.
    Piece,
    /// The end of the body is flushed.
    End,
    /// The response is awaited.
    Response,
}

/// A request that is sent, and its response.
#[derive(Debug)]
pub struct Exchange {
    pub codec: ClientCodec,
    pub size: BodySize,
    pub at: Sending,
}

/// A response that came: whether the connection is given back at once, and
/// closed, or its body is read first.
#[derive(Debug)]
pub enum Answered {
    /// There is no body.
    Release(ResponseHead, bool),
    /// The body is read.
    ReadBody(ResponseHead, ClientPayloadCodec),
    /// The exchange failed.
    Failed(SendRequestError),
}

/// Output of an exchange was flushed, or could not be: the body follows the head,
/// and the response the end of the body.
pub open spec fn exchange_flushed(
    before: Exchange,
    after: Exchange,
    res: Result<(), IoError>,
    r: ExchangeStep,
) -> bool {
    match res {
        Err(e) => r == ExchangeStep::Failed(SendRequestError::Send(e)) && after == before,
        Ok(_) => {
            let body = before.at == Sending::Piece || (before.at == Sending::Head
                && !before.size.ends());
            &&& after == (Exchange {
                at: if body {
                    Sending::Body
                } else {
                    Sending::Response
                },
                ..before
            })
            &&& if body {
                r is PollBody
            } else {
                r is Recv
            }
        },
    }
}

/// The body of a request gave something.
pub open spec fn exchange_fed(
    before: Exchange,
    after: Exchange,
    item: StreamPoll,
    dst: Seq<u8>,
    out: Seq<u8>,
    r: ExchangeStep,
) -> bool {
    let kind = before.codec.encoder.te.kind;
    match item {
        StreamPoll::Pending => r is Wait && out == dst && after == before,
        StreamPoll::Failed(e) => r == ExchangeStep::Failed(SendRequestError::Error(e)) && out
            == dst && after == before,
        StreamPoll::Chunk(bytes) => {
            &&& r == ExchangeStep::Flush(false)
            &&& after.at == Sending::Piece
            &&& out == dst + encoded(kind, bytes@)
            &&& after.codec.encoder.te.kind == encoder_after(kind, bytes@)
        },
        StreamPoll::Done => {
            &&& out == dst + eof_encoded(kind)
            &&& after.codec.encoder.te.kind == match kind {
                TransferEncodingKind::Chunked(_) => TransferEncodingKind::Chunked(true),
                k => k,
            }
            &&& if may_end(kind) {
                r == ExchangeStep::Flush(true) && after.at == Sending::End
            } else {
                r == ExchangeStep::Failed(SendRequestError::Request(EncodeError::UnexpectedEof))
                    && after.at == Sending::Body
            }
        },
    }
}

/// The head of a response came, or did not: the connection is given back where no
/// body follows.
pub open spec fn exchange_answered(
    ex: Exchange,
    res: Result<Option<ResponseHead>, ExchangeError>,
    r: Answered,
) -> bool {
    match res {
        Ok(Some(head)) => match ex.codec.type_spec() {
            MessageType::NoPayload => r == Answered::Release(
                head,
                ex.codec.ctype != ConnectionType::KeepAlive,
            ),
            _ => r == Answered::ReadBody(head, ClientPayloadCodec { inner: ex.codec }),
        },
        Ok(None) => r == Answered::Failed(
            SendRequestError::Connect(ConnectError::Disconnected(None)),
        ),
        Err(ExchangeError::Encode(e)) => r == Answered::Failed(SendRequestError::Request(e)),
        Err(ExchangeError::Decode(e)) => r == Answered::Failed(SendRequestError::Response(e)),
        Err(ExchangeError::Io(e)) => r == Answered::Failed(SendRequestError::Send(e)),
    }
}

impl Exchange {
    /// Starts an exchange: the head of the request is written, with a host
    /// header. Everything is to be flushed then.
    pub fn start(
        head: RequestHeadType,
        size: BodySize,
        dst: &mut Vec<u8>,
        date: &mut DateService,
        now: u64,
    ) -> (r: Exchange)
        requires
            old(date).wf(),
            now < DATE_LIMIT,
        ensures
            final(date).wf(),
            r.at == Sending::Head,
            r.size == size,
            r.codec.encoder.te.kind == body_coding(
                false,
                false,
                size,
                !head.head().flags.no_chunking,
            ),
            r.codec.head == (head.head().method is HEAD),
            r.codec.version == head.head().version,
            r.codec.ka_enabled,
            r.codec.ctype == type_of(head.head().flags, head.head().version),
            ready(r.codec.decoder),
            r.codec.payload is None,
            ({
                let n = old(dst)@.len() as int;
                exists|hosted: RequestHeadType| #[trigger]
                    is_hosted(hosted, head) && final(dst)@.len() >= n && final(dst)@.subrange(0, n)
                        == old(dst)@ && is_head_of(
                        final(dst)@.subrange(n, final(dst)@.len() as int),
                        hosted.head(),
                        hosted.head().version,
                        size,
                        r.codec.ctype,
                        hosted.extra(),
                        old(date).date_at(now),
                    )
            }),
    {
        let mut head = head;
        set_host(&mut head);
        let ghost hosted = head;
        let mut codec = ClientCodec::default();
        let _ = codec.encode(Message::Item((head, size)), dst, date, now);
        Exchange { codec, size, at: Sending::Head }
    }

    /// Output was flushed, or could not be.
    pub fn on_flushed(&mut self, res: Result<(), IoError>) -> (r: ExchangeStep)
        requires
            old(self).at == Sending::Head || old(self).at == Sending::Piece || old(self).at
                == Sending::End,
        ensures
            exchange_flushed(*old(self), *final(self), res, r),
    {
        if let Err(e) = res {
            return ExchangeStep::Failed(SendRequestError::Send(e));
        }
        if self.at == Sending::Piece || (self.at == Sending::Head && sends_body(self.size)) {
            self.at = Sending::Body;
            ExchangeStep::PollBody
        } else {
            self.at = Sending::Response;
            ExchangeStep::Recv
        }
    }

    /// The body of the request gave something: a piece is written in the coding
    /// of the body, and so is its end.
    pub fn on_body(
        &mut self,
        item: StreamPoll,
        dst: &mut Vec<u8>,
        date: &mut DateService,
        now: u64,
    ) -> (r: ExchangeStep)
        requires
            old(self).at == Sending::Body,
            old(date).wf(),
            now < DATE_LIMIT,
        ensures
            final(date).wf(),
            final(self).size == old(self).size,
            final(self).codec == (ClientCodec {
                encoder: final(self).codec.encoder,
                ..old(self).codec
            }),
            exchange_fed(*old(self), *final(self), item, old(dst)@, final(dst)@, r),
    {
        match send_body(&mut self.codec, item, dst, date, now) {
            BodySend::Flush => {
                self.at = Sending::Piece;
                ExchangeStep::Flush(false)
            },
            BodySend::Sent => {
                self.at = Sending::End;
                ExchangeStep::Flush(true)
            },
            BodySend::Pending => ExchangeStep::Wait,
            BodySend::Failed(e) => ExchangeStep::Failed(e),
        }
    }

    /// The head of the response was received, or could not be.
    pub fn on_response(self, res: Result<Option<ResponseHead>, ExchangeError>) -> (r: Answered)
        requires
            self.at == Sending::Response,
        ensures
            exchange_answered(self, res, r),
    {
        match res {
            Ok(Some(head)) => match after_head(self.codec) {
                AfterHead::Release(close) => Answered::Release(head, close),
                AfterHead::ReadBody(codec) => Answered::ReadBody(head, codec),
            },
            Ok(None) => Answered::Failed(no_response()),
            Err(e) => Answered::Failed(SendRequestError::from(e)),
        }
    }
}

/// Whether a connection that was used is closed rather than given back open:
/// where the exchange asks for it, where it is closed already, or where the peer
/// sent more than it was asked for.
pub fn closes(force_close: bool, closed: bool, unread: usize) -> (r: bool)
    ensures
        r == (force_close || closed || unread > 0),
{
    force_close || closed || unread > 0
}

/// What reading the body of a response gave.
#[derive(Debug)]
pub enum RecvEvent {
    /// A piece of the body, or its end.
    Item(Option<Vec<u8>>),
    /// Nothing came for too long.
    KeepAlive,
    /// The transport is asked to stop.
    Stop,
    /// Output piles up.
    WriteBackpressure,
    /// The body could not be decoded.
    Decoder(PayloadError),
    /// The peer is gone.
    PeerGone(Option<IoError>),
}

/// What follows.
#[derive(Debug)]
pub enum PlStep {
    /// Hands out bytes.
    Data(Vec<u8>),
    /// The body failed.
    Failed(PayloadError),
    /// The body has ended: the connection is given back, and closed where the
    /// flag says so.
    Release(bool),
    /// Flushes, and reads on.
    Flush,
    /// The body has ended with the connection.
    Done,
}

/// The body of a response that is being read.
#[derive(Debug)]
pub struct PlStream {
    pub codec: ClientPayloadCodec,
}

/// An input or output failure with the given text.
pub open spec fn is_failure(e: PayloadError, text: Seq<char>) -> bool {
    e matches PayloadError::Io(io) && io.kind == IoErrorKind::Other && io.text@ == text
}

/// What follows when the body of a response gave something. The connection is given
/// back at the end of the body, and closed unless it is kept alive.
pub open spec fn body_received(ctype: ConnectionType, ev: RecvEvent, r: PlStep) -> bool {
    match ev {
        RecvEvent::Item(Some(chunk)) => r == PlStep::Data(chunk),
        RecvEvent::Item(None) => r == PlStep::Release(ctype != ConnectionType::KeepAlive),
        RecvEvent::KeepAlive => r matches PlStep::Failed(e) && is_failure(e, "Keep-alive"@),
        RecvEvent::Stop => r matches PlStep::Failed(e) && is_failure(e, "Dispatcher stopped"@),
        RecvEvent::WriteBackpressure => r is Flush,
        RecvEvent::Decoder(e) => r == PlStep::Failed(e),
        RecvEvent::PeerGone(Some(e)) => r == PlStep::Failed(PayloadError::Io(e)),
        RecvEvent::PeerGone(None) => r is Done,
    }
}

impl PlStream {
    /// What follows.
    pub fn on_recv(&self, ev: RecvEvent) -> (r: PlStep)
        ensures
            body_received(self.codec.inner.ctype, ev, r),
    {
        match ev {
            RecvEvent::Item(Some(chunk)) => PlStep::Data(chunk),
            RecvEvent::Item(None) => PlStep::Release(!self.codec.keepalive()),
            RecvEvent::KeepAlive => PlStep::Failed(
                PayloadError::Io(
                    IoError { kind: IoErrorKind::Other, text: "Keep-alive".to_owned() },
                ),
            ),
            RecvEvent::Stop => PlStep::Failed(
                PayloadError::Io(
                    IoError { kind: IoErrorKind::Other, text: "Dispatcher stopped".to_owned() },
                ),
            ),
            RecvEvent::WriteBackpressure => PlStep::Flush,
            RecvEvent::Decoder(e) => PlStep::Failed(e),
            RecvEvent::PeerGone(Some(e)) => PlStep::Failed(PayloadError::Io(e)),
            RecvEvent::PeerGone(None) => PlStep::Done,
        }
    }
}

} // verus!
