//! Requests over HTTP/2.

use ntex_http::HeaderMap;
use vstd::prelude::*;

use crate::body::{BodySize, StreamPoll};
use crate::client::error::{ConnectError, SendRequestError};
use crate::client::sender::opt_fields;
use crate::error::{H2Error, IoError, IoErrorKind, PayloadError};
use crate::h1::encoder::convert_usize;
use crate::h2::service::{digits_are_value, MessageKind, StreamEof, StreamOp};
use crate::headers::{
    add_fields, added, fields, key, map_contains, map_insert, map_new, no_fields, replaced, Fields,
};
use crate::message::{no_flags, RequestHeadType, ResponseHead};
use crate::text::{ascii, ascii_bytes, decimal};
use crate::types::{Method, Version};

verus! {

/// A request as it is handed to an HTTP/2 connection.
#[derive(Debug)]
pub struct H2Request {
    pub method: Method,
    pub path: String,
    pub headers: HeaderMap,
    /// No body follows.
    pub eof: bool,
}

/// Names of the headers of the head that give way to those that are added.
pub open spec fn gives_way(names: Seq<&str>, extra: Fields) -> bool {
    let c = extra.contains_key(key("connection"@));
    let t = extra.contains_key(key("transfer-encoding"@));
    if c && t {
        names.len() == 2 && names[0]@ == "connection"@ && names[1]@ == "transfer-encoding"@
    } else if c {
        names.len() == 1 && names[0]@ == "connection"@
    } else if t {
        names.len() == 1 && names[0]@ == "transfer-encoding"@
    } else {
        names.len() == 0
    }
}

/// The fields with the length that the body announces.
pub open spec fn with_body_length(f: Fields, size: BodySize) -> Fields {
    match size {
        BodySize::NoBody | BodySize::Stream => f,
        BodySize::Empty => replaced(f, key("content-length"@), ascii("0"@)),
        BodySize::Sized(n) => replaced(f, key("content-length"@), decimal(n as nat)),
    }
}

/// The fields that a request is sent with: those of its head and those that are
/// added to it.
pub open spec fn are_request_fields(
    own: Fields,
    extra: Fields,
    size: BodySize,
    sent: Fields,
) -> bool {
    exists|names: Seq<&str>, mid: Fields, all: Fields|
        #![trigger added(no_fields(), own, names, mid), added(mid, extra, Seq::<&str>::empty(), all)]
        gives_way(names, extra) && added(no_fields(), own, names, mid) && added(
            mid,
            extra,
            Seq::<&str>::empty(),
            all,
        ) && sent == with_body_length(all, size)
}

/// Makes a request fit HTTP/2.
pub fn prepare_request(head: RequestHeadType, size: BodySize) -> (r: H2Request)
    ensures
        r.method == head.head().method,
        r.eof == (head.head().method is HEAD || size.ends()),
        r.path@ == (match head.head().uri@.path_and_query {
            Some(p) => p,
            None => head.head().uri@.path,
        }),
        are_request_fields(
            head.head().fields(),
            opt_fields(head.extra()),
            size,
            fields(r.headers),
        ),
{
    let eof = if head.as_ref().method.is_head() {
        true
    } else {
        size.is_eof()
    };
    // extracting extra headers
    let (head, extra) = head.into_parts();
    let extra = match extra {
        Some(e) => e,
        None => map_new(),
    };
    // merging headers from head and extra headers.
    let mut names: Vec<&str> = Vec::new();
    if map_contains(&extra, "connection") {
        names.push("connection");
    }
    if map_contains(&extra, "transfer-encoding") {
        names.push("transfer-encoding");
    }
    let mut hdrs = map_new();
    add_fields(&mut hdrs, &head.headers, &names);
    let ghost mid = fields(hdrs);
    let none: Vec<&str> = Vec::new();
    add_fields(&mut hdrs, &extra, &none);
    let ghost all = fields(hdrs);
    proof {
        assert(none@ =~= Seq::<&str>::empty());
        assert(gives_way(names@, fields(extra)));
        assert(added(no_fields(), head.fields(), names@, mid));
        assert(added(mid, fields(extra), Seq::<&str>::empty(), all));
    }
    // Content length
    match size {
        BodySize::NoBody | BodySize::Stream => {},
        BodySize::Empty => {
            proof {
                reveal_strlit("content-length");
                reveal_strlit("0");
            }
            map_insert(&mut hdrs, "content-length", ascii_bytes("0"));
        },
        BodySize::Sized(len) => {
            proof {
                reveal_strlit("content-length");
            }
            let mut buf: Vec<u8> = Vec::new();
            convert_usize(len, &mut buf, false);
            proof {
                assert(buf@ =~= decimal(len as nat));
                digits_are_value(len as nat);
            }
            map_insert(&mut hdrs, "content-length", buf.as_slice());
        },
    }
    let path = match head.uri.path_and_query {
        Some(p) => p,
        None => head.uri.path,
    };
    H2Request { method: head.method, path, headers: hdrs, eof }
}

/// What the first message of a response leads to: a head, and whether a body
/// follows.
pub open spec fn is_first_message(
    msg: Option<MessageKind>,
    r: Result<(ResponseHead, bool), SendRequestError>,
) -> bool {
    match msg {
        None => r == Err::<(ResponseHead, bool), SendRequestError>(
            SendRequestError::Connect(ConnectError::Disconnected(None)),
        ),
        Some(MessageKind::Headers { pseudo, headers, eof }) => match pseudo.status {
            Some(status) => {
                &&& r matches Ok((head, payload))
                &&& payload == !eof
                &&& head.status == status
                &&& head.version == Version::HTTP_2
                &&& head.headers == headers
                &&& head.flags == no_flags()
                &&& head.reason is None
                &&& head.headers_vec@.len() == 0
            },
            None => r matches Err(SendRequestError::H2(H2Error::MissingPseudo(s))) && s@
                == "Status"@,
        },
        Some(_) => r matches Err(SendRequestError::Error(t)) && t@ == "unexpected h2 message"@,
    }
}

/// The first message of a response.
pub fn get_response(msg: Option<MessageKind>) -> (r: Result<
    (ResponseHead, bool),
    SendRequestError,
>)
    ensures
        is_first_message(msg, r),
{
    match msg {
        None => Err(SendRequestError::Connect(ConnectError::Disconnected(None))),
        Some(MessageKind::Headers { pseudo, headers, eof }) => match pseudo.status {
            Some(status) => {
                let mut head = ResponseHead::new(status, Version::HTTP_2);
                head.headers = headers;
                Ok((head, !eof))
            },
            None => Err(SendRequestError::H2(H2Error::MissingPseudo("Status"))),
        },
        Some(_) => Err(SendRequestError::Error("unexpected h2 message".to_owned())),
    }
}

/// What a further message of a response does to its payload stream, and whether
/// it is the last one that is looked at.
pub open spec fn is_payload_message(msg: Option<MessageKind>, op: StreamOp, last: bool) -> bool {
    match msg {
        None => last && (op matches StreamOp::Eof(d) && d@.len() == 0),
        Some(MessageKind::Data(data, cap)) => !last && op == StreamOp::Data(data, cap),
        Some(MessageKind::Eof(StreamEof::Data(data))) => !last && op == StreamOp::Eof(data),
        Some(MessageKind::Eof(StreamEof::Trailers)) => !last && (op matches StreamOp::Eof(d)
            && d@.len() == 0),
        Some(MessageKind::Eof(StreamEof::Error(e))) => !last && op == StreamOp::Error(
            PayloadError::Http2Payload(e),
        ),
        Some(MessageKind::Disconnect(e)) => !last && op == StreamOp::Error(
            PayloadError::Io(IoError { kind: IoErrorKind::Other, text: e }),
        ),
        Some(MessageKind::Headers { .. }) => last && (op matches StreamOp::Error(
            PayloadError::Io(io),
        ) && io.kind == IoErrorKind::Other && io.text@ == "unexpected h2 message"@),
    }
}

/// A further message of a response.
pub fn on_payload(msg: Option<MessageKind>) -> (r: (StreamOp, bool))
    ensures
        is_payload_message(msg, r.0, r.1),
{
    match msg {
        None => (StreamOp::Eof(Vec::new()), true),
        Some(MessageKind::Data(data, cap)) => (StreamOp::Data(data, cap), false),
        Some(MessageKind::Eof(item)) => match item {
            StreamEof::Data(data) => (StreamOp::Eof(data), false),
            StreamEof::Trailers => (StreamOp::Eof(Vec::new()), false),
            StreamEof::Error(e) => (StreamOp::Error(PayloadError::Http2Payload(e)), false),
        },
        Some(MessageKind::Disconnect(e)) => (
            StreamOp::Error(
                PayloadError::Io(IoError { kind: IoErrorKind::Other, text: e }),
            ),
            false,
        ),
        Some(MessageKind::Headers { .. }) => (
            StreamOp::Error(
                PayloadError::Io(
                    IoError {
                        kind: IoErrorKind::Other,
                        text: "unexpected h2 message".to_owned(),
                    },
                ),
            ),
            true,
        ),
    }
}

/// What follows a piece of the body of a request.
#[derive(Debug)]
pub enum SendPiece {
    /// Sends the bytes; the flag says that they are the last ones.
    Send(Vec<u8>, bool),
    /// Waits.
    Pending,
    /// The body failed: the stream is reset.
    Failed(SendRequestError),
}

/// The body of a request gave something.
pub fn send_body(item: StreamPoll) -> (r: SendPiece)
    ensures
        match item {
            StreamPoll::Pending => r is Pending,
            StreamPoll::Chunk(b) => r == SendPiece::Send(b, false),
            StreamPoll::Done => r matches SendPiece::Send(b, true) && b@.len() == 0,
            StreamPoll::Failed(e) => r == SendPiece::Failed(SendRequestError::Error(e)),
        },
{
    match item {
        StreamPoll::Pending => SendPiece::Pending,
        StreamPoll::Chunk(b) => SendPiece::Send(b, false),
        StreamPoll::Done => SendPiece::Send(Vec::new(), true),
        StreamPoll::Failed(e) => SendPiece::Failed(SendRequestError::Error(e)),
    }
}

} // verus!
