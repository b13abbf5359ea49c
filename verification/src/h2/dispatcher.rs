//! Responses of an HTTP/2 connection that are sent as capacity is granted.

use ntex_http::HeaderMap;
use vstd::prelude::*;

use crate::body::{Body, BodySize, MessageBody, StreamPoll};
use crate::config::{DateService, DATE_LIMIT};
use crate::h1::encoder::convert_usize;
use crate::h2::service::{digits_are_value, is_outcome, response_size, H2Answer};
use crate::headers::{
    add_fields, added, fields, key, map_contains, map_insert, map_new, no_fields, replaced, Fields,
};
use crate::message::ResponseHead;
use crate::payload::Payload;
use crate::request::Request;
use crate::response::{Response, ResponseError};
use crate::text::{ascii, ascii_bytes, decimal, split_to};
use crate::types::{Method, Uri, Version};

verus! {

/// Most capacity that is asked for at once.
pub const CHUNK_SIZE: usize = 16_384;

/// When an idle connection expires.
#[derive(Debug, Copy, Clone, PartialEq, Eq, Structural)]
pub struct Dispatcher {
    /// Time at which the connection expires, in seconds.
    pub ka_expire: u64,
    /// The connection is timed.
    pub timed: bool,
}

impl Dispatcher {
    /// A connection that was opened at the given time. It is timed where a timer
    /// already runs, or where a keep-alive period is set.
    pub fn new(timer: bool, keep_alive: u16, now: u64) -> (r: Dispatcher)
        requires
            now + keep_alive <= u64::MAX,
        ensures
            r.timed == (timer || keep_alive != 0),
            r.ka_expire == (if timer || keep_alive != 0 {
                now + keep_alive
            } else {
                now as int
            }),
    {
        if timer || keep_alive != 0 {
            Dispatcher { ka_expire: now + keep_alive as u64, timed: true }
        } else {
            Dispatcher { ka_expire: now, timed: false }
        }
    }

    /// Makes a request of the parts that were accepted. A timed connection
    /// expires a keep-alive period later.
    pub fn accept(
        &mut self,
        method: Method,
        uri: Uri,
        version: Version,
        headers: HeaderMap,
        keep_alive: u16,
        now: u64,
    ) -> (r: Request)
        requires
            now + keep_alive <= u64::MAX,
        ensures
            final(self).timed == old(self).timed,
            final(self).ka_expire == (if old(self).timed && keep_alive != 0 {
                now + keep_alive
            } else {
                old(self).ka_expire as int
            }),
            r.payload == Payload::H2,
            r.head.uri == uri,
            r.head.method == method,
            r.head.version == version,
            r.head.headers == headers,
            r.head.id == 0,
            r.head.flags == crate::message::no_flags(),
            r.head.headers_vec@.len() == 0,
    {
        // update keep-alive expire
        if self.timed && keep_alive != 0 {
            self.ka_expire = now + keep_alive as u64;
        }
        let mut req = Request::with_payload(Payload::H2);
        req.head.uri = uri;
        req.head.method = method;
        req.head.version = version;
        req.head.headers = headers;
        req
    }
}

/// The length that a response tells by itself.
pub open spec fn own_fields(size: BodySize) -> Fields {
    match size {
        BodySize::NoBody | BodySize::Stream => no_fields(),
        BodySize::Empty => replaced(no_fields(), key("content-length"@), ascii("0"@)),
        BodySize::Sized(n) => replaced(no_fields(), key("content-length"@), decimal(n as nat)),
    }
}

/// Names of the headers of a response that are not sent.
pub open spec fn unsent(names: Seq<&str>, skip_len: bool) -> bool {
    &&& names.len() == (if skip_len {
        3int
    } else {
        2
    })
    &&& names[0]@ == "connection"@
    &&& names[1]@ == "transfer-encoding"@
    &&& skip_len ==> names[2]@ == "content-length"@
}

/// The fields that are sent with a response.
pub open spec fn is_sent(
    f: Fields,
    size: BodySize,
    skip_len: bool,
    date: Seq<u8>,
    sent: Fields,
) -> bool {
    exists|names: Seq<&str>, mid: Fields| #[trigger]
        added(own_fields(size), f, names, mid) && unsent(names, skip_len) && sent == (
        if f.contains_key(key("date"@)) {
            mid
        } else {
            replaced(mid, key("date"@), date)
        })
}

/// The headers that are sent with a response. Those that only HTTP/1 has are
/// left out, and a length that the response tells by itself takes the place of
/// its header.
pub fn prepare_response(
    head: &ResponseHead,
    size: &mut BodySize,
    date: &mut DateService,
    now: u64,
) -> (r: HeaderMap)
    requires
        old(date).wf(),
        now < DATE_LIMIT,
    ensures
        final(date).wf(),
        *final(size) == response_size(head.status, *old(size)),
        is_sent(
            head.fields(),
            *final(size),
            *old(size) != BodySize::Stream || head.status.0 == 101,
            old(date).date_at(now),
            fields(r),
        ),
{
    let mut skip_len = *size != BodySize::Stream;
    let mut res = map_new();
    // Content length
    let status: u16 = head.status.as_u16();
    if status == 204 || status == 100 || status == 102 {
        *size = BodySize::NoBody;
    } else if status == 101 {
        skip_len = true;
        *size = BodySize::Stream;
    }
    match *size {
        BodySize::NoBody | BodySize::Stream => {},
        BodySize::Empty => {
            proof {
                reveal_strlit("content-length");
                reveal_strlit("0");
            }
            map_insert(&mut res, "content-length", ascii_bytes("0"));
        },
        BodySize::Sized(len) => {
            proof {
                reveal_strlit("content-length");
            }
            let mut buf: Vec<u8> = Vec::new();
            convert_usize(len, &mut buf, false);
            proof {
                assert(buf@ =~= decimal(len as nat));
                digits_are_value(len as nat);
            }
            map_insert(&mut res, "content-length", buf.as_slice());
        },
    }
    // copy headers
    let mut skip: Vec<&str> = Vec::new();
    skip.push("connection");
    skip.push("transfer-encoding");
    if skip_len {
        skip.push("content-length");
    }
    add_fields(&mut res, &head.headers, &skip);
    let ghost mid = fields(res);
    assert(unsent(skip@, skip_len));
    assert(added(own_fields(*size), head.fields(), skip@, mid));
    // set date header
    if !map_contains(&head.headers, "date") {
        let bytes = date.set_date(now);
        proof {
            reveal_strlit("date");
        }
        map_insert(&mut res, "date", bytes.as_slice());
    }
    res
}

/// The response of the service, or the answer to its failure, as it is sent.
pub fn answer<E: ResponseError>(
    result: Result<Response<Body>, E>,
    date: &mut DateService,
    now: u64,
) -> (r: H2Answer)
    requires
        old(date).wf(),
        now < DATE_LIMIT,
    ensures
        final(date).wf(),
        exists|res: Response<Body>| #[trigger]
            is_outcome(result, res) && ({
                let size = res.body.size_spec();
                let announced = response_size(res.head.status, size);
                &&& r.status == res.head.status
                &&& r.eof == announced.ends()
                &&& r.body == res.body
                &&& is_sent(
                    res.head.fields(),
                    announced,
                    size != BodySize::Stream || res.head.status.0 == 101,
                    old(date).date_at(now),
                    fields(r.headers),
                )
            }),
{
    let res = Response::from_result(result);
    assert(is_outcome(result, res));
    let (res, body) = res.into_parts();
    let mut size = body.size();
    let headers = prepare_response(&res.head, &mut size, date, now);
    H2Answer { status: res.head.status, headers, eof: size.is_eof(), body }
}

/// What is to be done with the stream of a response.
#[derive(Debug)]
pub enum SendStep {
    /// Asks for capacity, and waits for it.
    Reserve(usize),
    /// Sends bytes, then asks for capacity.
    SendAndReserve(Vec<u8>, usize),
    /// Sends bytes, then asks the body.
    Send(Vec<u8>),
    /// Waits.
    Pending,
    /// Ends the stream.
    Finish,
    /// Stops.
    Stop,
}

/// Body of a response that is sent as capacity is granted.
#[derive(Debug)]
pub struct ServiceResponse {
    /// Bytes that wait for capacity.
    pub buffer: Option<Vec<u8>>,
}

impl ServiceResponse {
    /// The bytes that wait for capacity.
    pub open spec fn waiting(self) -> Seq<u8> {
        match self.buffer {
            Some(b) => b@,
            None => Seq::empty(),
        }
    }

    /// A response of which nothing waits.
    pub fn new() -> (r: ServiceResponse)
        ensures
            r.buffer is None,
    {
        ServiceResponse { buffer: None }
    }

    /// The body gave something, while nothing waits for capacity.
    pub fn on_body(&mut self, item: StreamPoll) -> (r: SendStep)
        requires
            old(self).buffer is None,
        ensures
            match item {
                StreamPoll::Pending => r is Pending && final(self).buffer is None,
                StreamPoll::Done => r is Finish && final(self).buffer is None,
                StreamPoll::Failed(_) => r is Stop && final(self).buffer is None,
                StreamPoll::Chunk(chunk) => {
                    &&& final(self).buffer == Some(chunk)
                    &&& r == SendStep::Reserve(
                        if chunk@.len() < CHUNK_SIZE {
                            chunk@.len() as usize
                        } else {
                            CHUNK_SIZE
                        },
                    )
                },
            },
    {
        match item {
            StreamPoll::Pending => SendStep::Pending,
            StreamPoll::Done => SendStep::Finish,
            StreamPoll::Failed(_) => SendStep::Stop,
            StreamPoll::Chunk(chunk) => {
                let len: usize = chunk.len();
                self.buffer = Some(chunk);
                SendStep::Reserve(if len < CHUNK_SIZE { len } else { CHUNK_SIZE })
            },
        }
    }

    /// Capacity was granted: sends as many of the waiting bytes as it takes, in
    /// their order. The others wait on.
    pub fn on_capacity(&mut self, cap: usize) -> (r: SendStep)
        requires
            old(self).buffer is Some,
        ensures
            ({
                let all = old(self).waiting();
                if cap < all.len() {
                    let left = all.len() - cap;
                    &&& r matches SendStep::SendAndReserve(bytes, more)
                    &&& bytes@ + final(self).waiting() == all
                    &&& bytes@.len() == cap
                    &&& final(self).buffer is Some
                    &&& more == (if left < CHUNK_SIZE {
                        left
                    } else {
                        CHUNK_SIZE as int
                    })
                } else {
                    r matches SendStep::Send(bytes) && bytes@ == all && final(self).buffer is None
                }
            }),
    {
        let mut buffer: Option<Vec<u8>> = None;
        std::mem::swap(&mut self.buffer, &mut buffer);
        match buffer {
            None => SendStep::Pending,
            Some(mut buf) => {
                let len: usize = buf.len();
                if cap < len {
                    let bytes = split_to(&mut buf, cap);
                    let left: usize = buf.len();
                    proof {
                        assert(bytes@ + buf@ =~= old(self).waiting());
                    }
                    self.buffer = Some(buf);
                    SendStep::SendAndReserve(
                        bytes,
                        if left < CHUNK_SIZE {
                            left
                        } else {
                            CHUNK_SIZE
                        },
                    )
                } else {
                    SendStep::Send(buf)
                }
            },
        }
    }
}

} // verus!
