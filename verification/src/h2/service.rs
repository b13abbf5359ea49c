//! Requests and responses of an HTTP/2 connection.

use std::collections::HashSet;

use ntex_http::HeaderMap;
use vstd::prelude::*;
use vstd::string::StringExecFns;
use vstd::utf8::encode_utf8;

use crate::body::{Body, BodySize, MessageBody, ResponseBody, StreamPoll};
use crate::config::{DateService, DATE_LIMIT};
use crate::error::{H2Error, IoError, IoErrorKind, PayloadError};
use crate::h1::encoder::convert_usize;
use crate::headers::{
    fields, key, map_contains, map_insert, map_remove, replaced, valid_value, Fields,
};
use crate::message::{no_flags, ResponseHead};
use crate::payload::Payload;
use crate::request::Request;
use crate::response::{Response, ResponseError};
use crate::text::{ascii, decimal};
use crate::types::{parsed_uri, Method, StatusCode, Uri, UriParts, Version};

verus! {

/// Default control service: every message is acknowledged.
#[derive(Debug, Copy, Clone, PartialEq, Eq, Structural)]
pub struct DefaultControlService;

/// Pseudo headers of a message.
#[derive(Debug)]
pub struct PseudoHeaders {
    pub method: Option<Method>,
    pub scheme: Option<String>,
    pub authority: Option<String>,
    pub path: Option<String>,
    pub status: Option<StatusCode>,
}

/// How a stream ended.
#[derive(Debug)]
pub enum StreamEof {
    /// With these bytes.
    Data(Vec<u8>),
    /// With trailers.
    Trailers,
    /// With an error, given by its text.
    Error(String),
}

/// A message of a stream.
#[derive(Debug)]
pub enum MessageKind {
    /// The head of a message; `eof` says that no body follows.
    Headers { pseudo: PseudoHeaders, headers: HeaderMap, eof: bool },
    /// Bytes of a body, with the capacity that they take.
    Data(Vec<u8>, u32),
    /// The end of a body.
    Eof(StreamEof),
    /// The connection is gone, for the given reason.
    Disconnect(String),
}

/// An order to a payload stream.
#[derive(Debug)]
pub enum StreamOp {
    /// Hands on bytes that take the given capacity.
    Data(Vec<u8>, u32),
    /// Ends the stream with the given bytes.
    Eof(Vec<u8>),
    /// Fails the stream.
    Error(PayloadError),
}

/// What a message of a stream leads to.
#[derive(Debug)]
pub enum Handled {
    /// A request is handed to the service; the flag says that only a head is
    /// answered.
    Request(Request, bool),
    /// The payload stream of a request is fed.
    Feed(StreamOp),
    /// Nothing.
    Ignored,
    /// The request is refused.
    Failed(H2Error),
}

/// Text of the target of a request: `None` where the scheme is missing.
pub open spec fn target(pseudo: PseudoHeaders, path: Seq<char>) -> Option<Seq<char>> {
    match pseudo.authority {
        Some(authority) => match pseudo.scheme {
            Some(scheme) => Some(scheme@ + "://"@ + authority@ + path),
            None => None,
        },
        None => Some(path),
    }
}

/// The request that a message head stands for.
pub open spec fn is_request(
    req: Request,
    id: usize,
    method: Method,
    uri: UriParts,
    headers: HeaderMap,
    eof: bool,
) -> bool {
    &&& req.head.uri@ == uri
    &&& req.head.method == method
    &&& req.head.version == Version::HTTP_2
    &&& req.head.headers == headers
    &&& req.head.headers_vec@.len() == 0
    &&& req.head.flags == no_flags()
    &&& req.head.id == id
    &&& req.payload == (if eof {
        Payload::NoPayload
    } else {
        Payload::H2
    })
}

/// What a message head leads to: a request, or the first pseudo header that is
/// missing, or a target that is none.
pub open spec fn requested(
    id: usize,
    pseudo: PseudoHeaders,
    headers: HeaderMap,
    eof: bool,
    r: Result<Request, H2Error>,
) -> bool {
    match (pseudo.path, pseudo.method) {
        (None, _) => r matches Err(H2Error::MissingPseudo(s)) && s@ == "Path"@,
        (Some(_), None) => r matches Err(H2Error::MissingPseudo(s)) && s@ == "Method"@,
        (Some(path), Some(method)) => match target(pseudo, path@) {
            None => r matches Err(H2Error::MissingPseudo(s)) && s@ == "Scheme"@,
            Some(text) => match parsed_uri(encode_utf8(text)) {
                Err(e) => r matches Err(H2Error::Uri(t)) && t@ == e,
                Ok(uri) => r matches Ok(req) && is_request(req, id, method, uri, headers, eof),
            },
        },
    }
}

/// Makes a request of a message head.
pub fn build_request(id: usize, pseudo: PseudoHeaders, headers: HeaderMap, eof: bool) -> (r: Result<
    Request,
    H2Error,
>)
    ensures
        requested(id, pseudo, headers, eof, r),
{
    let mut req = if eof {
        Request::new()
    } else {
        Request::with_payload(Payload::H2)
    };
    let PseudoHeaders { method, scheme, authority, path, status: _ } = pseudo;
    let path = match path {
        Some(path) => path,
        None => {
            return Err(H2Error::MissingPseudo("Path"));
        },
    };
    let method = match method {
        Some(method) => method,
        None => {
            return Err(H2Error::MissingPseudo("Method"));
        },
    };
    let text = match authority {
        Some(authority) => match scheme {
            Some(scheme) => {
                let mut text = scheme;
                text.append("://");
                text.append(authority.as_str());
                text.append(path.as_str());
                text
            },
            None => {
                return Err(H2Error::MissingPseudo("Scheme"));
            },
        },
        None => path,
    };
    match Uri::from_bytes(text.as_str().as_bytes()) {
        Ok(uri) => {
            req.head.uri = uri;
        },
        Err(e) => {
            return Err(H2Error::Uri(e));
        },
    }
    req.head.version = Version::HTTP_2;
    req.head.method = method;
    req.head.headers = headers;
    req.head.id = id;
    Ok(req)
}

/// Requests of one connection and the streams of their payloads.
#[derive(Debug)]
pub struct PublishService {
    /// Connection id, handed on in request heads.
    pub id: usize,
    /// Streams whose payload is being read.
    pub streams: HashSet<u32>,
}

/// What the end of a body does to its payload stream.
pub open spec fn ended(item: StreamEof, op: StreamOp) -> bool {
    match item {
        StreamEof::Data(data) => op == StreamOp::Eof(data),
        StreamEof::Trailers => op matches StreamOp::Eof(data) && data@.len() == 0,
        StreamEof::Error(text) => op == StreamOp::Error(PayloadError::Http2Payload(text)),
    }
}

/// What a message of a stream leads to, and the streams whose payload is read then.
pub open spec fn is_handled(
    id: usize,
    open: Set<u32>,
    stream: u32,
    kind: MessageKind,
    open_after: Set<u32>,
    r: Handled,
) -> bool {
    match kind {
        MessageKind::Headers { pseudo, headers, eof } => {
            &&& open_after == (if eof {
                open
            } else {
                open.insert(stream)
            })
            &&& match r {
                Handled::Request(req, head_only) => requested(id, pseudo, headers, eof, Ok(req))
                    && head_only == (req.head.method is HEAD),
                Handled::Failed(e) => requested(id, pseudo, headers, eof, Err(e)),
                _ => false,
            }
        },
        MessageKind::Data(data, cap) => {
            &&& open_after == open
            &&& if open.contains(stream) {
                r == Handled::Feed(StreamOp::Data(data, cap))
            } else {
                r is Ignored
            }
        },
        MessageKind::Eof(item) => {
            &&& open_after == open.remove(stream)
            &&& if open.contains(stream) {
                r matches Handled::Feed(op) && ended(item, op)
            } else {
                r is Ignored
            }
        },
        MessageKind::Disconnect(text) => {
            &&& open_after == open.remove(stream)
            &&& if open.contains(stream) {
                r == Handled::Feed(
                    StreamOp::Error(
                        PayloadError::Io(IoError { kind: IoErrorKind::UnexpectedEof, text }),
                    ),
                )
            } else {
                r is Ignored
            }
        },
    }
}

impl PublishService {
    /// Streams whose payload is being read.
    pub open spec fn open_streams(self) -> Set<u32> {
        self.streams@
    }

    /// A connection without requests.
    pub fn new(id: usize) -> (r: PublishService)
        ensures
            r.id == id,
            r.open_streams() == Set::<u32>::empty(),
    {
        PublishService { id, streams: HashSet::new() }
    }

    /// Takes a message of a stream.
    pub fn on_message(&mut self, stream: u32, kind: MessageKind) -> (r: Handled)
        ensures
            final(self).id == old(self).id,
            is_handled(
                old(self).id,
                old(self).open_streams(),
                stream,
                kind,
                final(self).open_streams(),
                r,
            ),
    {
        broadcast use vstd::std_specs::hash::group_hash_axioms;

        match kind {
            MessageKind::Headers { pseudo, headers, eof } => {
                if !eof {
                    self.streams.insert(stream);
                }
                match build_request(self.id, pseudo, headers, eof) {
                    Ok(req) => {
                        let head_only = req.head.method.is_head();
                        Handled::Request(req, head_only)
                    },
                    Err(e) => Handled::Failed(e),
                }
            },
            MessageKind::Data(data, cap) => {
                if self.streams.contains(&stream) {
                    Handled::Feed(StreamOp::Data(data, cap))
                } else {
                    Handled::Ignored
                }
            },
            MessageKind::Eof(item) => {
                if self.streams.remove(&stream) {
                    match item {
                        StreamEof::Data(data) => Handled::Feed(StreamOp::Eof(data)),
                        StreamEof::Trailers => Handled::Feed(StreamOp::Eof(Vec::new())),
                        StreamEof::Error(text) => Handled::Feed(
                            StreamOp::Error(PayloadError::Http2Payload(text)),
                        ),
                    }
                } else {
                    Handled::Ignored
                }
            },
            MessageKind::Disconnect(text) => {
                if self.streams.remove(&stream) {
                    Handled::Feed(
                        StreamOp::Error(
                            PayloadError::Io(IoError { kind: IoErrorKind::UnexpectedEof, text }),
                        ),
                    )
                } else {
                    Handled::Ignored
                }
            },
        }
    }
}

// ---------------------------------------------------------------------------
// Responses
// ---------------------------------------------------------------------------

/// The size that a response announces.
pub open spec fn response_size(status: StatusCode, size: BodySize) -> BodySize {
    if status.0 == 204 || status.0 == 100 || status.0 == 102 {
        BodySize::NoBody
    } else if status.0 == 101 {
        BodySize::Stream
    } else {
        size
    }
}

/// The fields with the announced size.
pub open spec fn with_length(f: Fields, size: BodySize) -> Fields {
    match size {
        BodySize::NoBody | BodySize::Stream => f.remove(key("content-length"@)),
        BodySize::Empty => replaced(f, key("content-length"@), ascii("0"@)),
        BodySize::Sized(n) => replaced(f, key("content-length"@), decimal(n as nat)),
    }
}

/// The fields without those that only HTTP/1 has.
pub open spec fn without_h1_fields(f: Fields) -> Fields {
    f.remove(key("connection"@)).remove(key("transfer-encoding"@)).remove(
        key("upgrade"@),
    ).remove(key("keep-alive"@)).remove(key("proxy-connection"@))
}

/// The fields with a date.
pub open spec fn with_date(f: Fields, date: Seq<u8>) -> Fields {
    if f.contains_key(key("date"@)) {
        f
    } else {
        replaced(f, key("date"@), date)
    }
}

/// The fields that are sent with a response of the given announced size.
pub open spec fn response_fields(f: Fields, size: BodySize, date: Seq<u8>) -> Fields {
    with_date(without_h1_fields(with_length(f, size)), date)
}

/// A response has a date, and none of the headers that only HTTP/1 has.
pub proof fn response_is_clean(f: Fields, size: BodySize, date: Seq<u8>)
    ensures
        response_fields(f, size, date).contains_key(key("date"@)),
        !response_fields(f, size, date).contains_key(key("connection"@)),
        !response_fields(f, size, date).contains_key(key("transfer-encoding"@)),
        !response_fields(f, size, date).contains_key(key("upgrade"@)),
        !response_fields(f, size, date).contains_key(key("keep-alive"@)),
        !response_fields(f, size, date).contains_key(key("proxy-connection"@)),
{
    reveal_strlit("date");
    reveal_strlit("connection");
    reveal_strlit("transfer-encoding");
    reveal_strlit("upgrade");
    reveal_strlit("keep-alive");
    reveal_strlit("proxy-connection");
    assert(key("date"@).len() == 4);
    assert(key("connection"@).len() == 10);
    assert(key("transfer-encoding"@).len() == 17);
    assert(key("upgrade"@).len() == 7);
    assert(key("keep-alive"@).len() == 10);
    assert(key("proxy-connection"@).len() == 16);
}

/// The announced length of a response is that of its body, and it is absent
/// where the length is not known or there is no body.
pub proof fn length_is_announced(f: Fields, size: BodySize, date: Seq<u8>)
    ensures
        response_fields(f, size, date).contains_key(key("content-length"@)) <==> size is Empty
            || size is Sized,
        size matches BodySize::Sized(n) ==> response_fields(f, size, date)[key("content-length"@)]
            == seq![decimal(n as nat)],
        size is Empty ==> response_fields(f, size, date)[key("content-length"@)] == seq![
            ascii("0"@),
        ],
{
    reveal_strlit("date");
    reveal_strlit("connection");
    reveal_strlit("transfer-encoding");
    reveal_strlit("upgrade");
    reveal_strlit("keep-alive");
    reveal_strlit("proxy-connection");
    reveal_strlit("content-length");
    assert(key("content-length"@).len() == 14);
    assert(key("date"@).len() == 4);
    assert(key("connection"@).len() == 10);
    assert(key("transfer-encoding"@).len() == 17);
    assert(key("upgrade"@).len() == 7);
    assert(key("keep-alive"@).len() == 10);
    assert(key("proxy-connection"@).len() == 16);
}

/// Makes the headers of a response fit HTTP/2.
pub fn prepare_response(
    head: &mut ResponseHead,
    size: &mut BodySize,
    date: &mut DateService,
    now: u64,
)
    requires
        old(date).wf(),
        now < DATE_LIMIT,
    ensures
        final(date).wf(),
        *final(size) == response_size(old(head).status, *old(size)),
        *final(head) == (ResponseHead { headers: final(head).headers, ..*old(head) }),
        final(head).fields() == response_fields(
            old(head).fields(),
            *final(size),
            old(date).date_at(now),
        ),
{
    // Content length
    let status: u16 = head.status.as_u16();
    if status == 204 || status == 100 || status == 102 {
        *size = BodySize::NoBody;
    } else if status == 101 {
        *size = BodySize::Stream;
    }
    match *size {
        BodySize::NoBody | BodySize::Stream => map_remove(&mut head.headers, "content-length"),
        BodySize::Empty => {
            proof {
                reveal_strlit("content-length");
                reveal_strlit("0");
            }
            let zero = crate::text::ascii_bytes("0");
            map_insert(&mut head.headers, "content-length", zero);
        },
        BodySize::Sized(len) => {
            proof {
                reveal_strlit("content-length");
            }
            let mut buf: Vec<u8> = Vec::new();
            convert_usize(len, &mut buf, false);
            proof {
                assert(buf@ =~= decimal(len as nat));
                digits_are_value(len as nat);
            }
            map_insert(&mut head.headers, "content-length", buf.as_slice());
        },
    }
    // http2 specific
    map_remove(&mut head.headers, "connection");
    map_remove(&mut head.headers, "transfer-encoding");
    map_remove(&mut head.headers, "upgrade");
    // HTTP/1.x only headers are omitted
    map_remove(&mut head.headers, "keep-alive");
    map_remove(&mut head.headers, "proxy-connection");
    // set date header
    if !map_contains(&head.headers, "date") {
        let bytes = date.set_date(now);
        proof {
            reveal_strlit("date");
        }
        map_insert(&mut head.headers, "date", bytes.as_slice());
    }
}

/// Decimal digits are a header value.
pub proof fn digits_are_value(n: nat)
    ensures
        valid_value(decimal(n)),
    decreases n,
{
    if n >= 10 {
        digits_are_value(n / 10);
    }
}

/// What follows a piece of the body of a response.
#[derive(Debug)]
pub enum SendBody {
    /// Sends the bytes, and goes on.
    Send(Vec<u8>),
    /// Goes on.
    Skip,
    /// Waits.
    Pending,
    /// Ends the stream.
    Finish,
    /// The body failed.
    Failed(H2Error),
}

/// Whether nothing follows the head of a response.
pub fn head_is_all(size: BodySize, head_only: bool) -> (r: bool)
    ensures
        r == (size.ends() || head_only),
{
    size.is_eof() || head_only
}

/// A response as it is handed to an HTTP/2 stream.
#[derive(Debug)]
pub struct H2Answer {
    pub status: StatusCode,
    pub headers: HeaderMap,
    /// Nothing follows the head.
    pub eof: bool,
    pub body: ResponseBody<Body>,
}

/// The response that the outcome of a call stands for.
pub open spec fn is_outcome<E: ResponseError>(
    result: Result<Response<Body>, E>,
    res: Response<Body>,
) -> bool {
    match result {
        Ok(val) => res == val,
        Err(e) => e.answered_with(res),
    }
}

/// A response as it is sent.
pub open spec fn is_answer(
    res: Response<Body>,
    head_only: bool,
    date: Seq<u8>,
    r: H2Answer,
) -> bool {
    let size = response_size(res.head.status, res.body.size_spec());
    &&& r.status == res.head.status
    &&& r.eof == (size.ends() || head_only)
    &&& r.body == res.body
    &&& fields(r.headers) == response_fields(res.head.fields(), size, date)
}

/// The response of the service, or the answer to its failure, as it is sent.
pub fn answer<E: ResponseError>(
    result: Result<Response<Body>, E>,
    head_only: bool,
    date: &mut DateService,
    now: u64,
) -> (r: H2Answer)
    requires
        old(date).wf(),
        now < DATE_LIMIT,
    ensures
        final(date).wf(),
        exists|res: Response<Body>| #[trigger]
            is_outcome(result, res) && is_answer(res, head_only, old(date).date_at(now), r),
{
    let res = Response::from_result(result);
    assert(is_outcome(result, res));
    let (res, body) = res.into_parts();
    let mut head = res.head;
    let mut size = body.size();
    prepare_response(&mut head, &mut size, date, now);
    let eof = head_is_all(size, head_only);
    H2Answer { status: head.status, headers: head.headers, eof, body }
}

/// What follows a piece of the body of a response. Pieces without bytes are not
/// sent.
pub fn on_body(item: StreamPoll) -> (r: SendBody)
    ensures
        match item {
            StreamPoll::Pending => r is Pending,
            StreamPoll::Done => r is Finish,
            StreamPoll::Chunk(data) => if data@.len() == 0 {
                r is Skip
            } else {
                r == SendBody::Send(data)
            },
            StreamPoll::Failed(e) => r == SendBody::Failed(H2Error::Stream(e)),
        },
{
    match item {
        StreamPoll::Pending => SendBody::Pending,
        StreamPoll::Done => SendBody::Finish,
        StreamPoll::Chunk(data) => {
            if data.len() == 0 {
                SendBody::Skip
            } else {
                SendBody::Send(data)
            }
        },
        StreamPoll::Failed(e) => SendBody::Failed(H2Error::Stream(e)),
    }
}

} // verus!
