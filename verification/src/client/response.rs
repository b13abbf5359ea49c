//! Responses of the client.

use cookie::Cookie;
use ntex_http::HeaderMap;
use vstd::prelude::*;

use crate::client::error::JsonPayloadError;
use crate::cookies::{are_cookies, is_first_fault, parse_cookies, CookieParseError};
use crate::error::PayloadError;
use crate::headers::{fields, key, map_get, map_get_all, values_of, Fields};
use crate::message::ResponseHead;
use crate::payload::{Payload, PayloadPoll};
use crate::text::{all_digits, decimal_value, is_text, is_text_bytes, parse_u64, put_bytes, str_eq};
use crate::types::{chars, StatusCode, Version};

verus! {

/// Client Response
#[derive(Debug)]
pub struct ClientResponse {
    pub head: ResponseHead,
    pub payload: Payload,
}

impl ClientResponse {
    /// A response.
    pub fn new(head: ResponseHead, payload: Payload) -> (r: ClientResponse)
        ensures
            r == (ClientResponse { head, payload }),
    {
        ClientResponse { head, payload }
    }

    /// Head of the response.
    pub fn head(&self) -> (r: &ResponseHead)
        ensures
            *r == self.head,
    {
        &self.head
    }

    /// Read the Request Version.
    pub fn version(&self) -> (r: Version)
        ensures
            r == self.head.version,
    {
        self.head.version
    }

    /// Get the status from the server.
    pub fn status(&self) -> (r: StatusCode)
        ensures
            r == self.head.status,
    {
        self.head.status
    }

    /// Returns the first value of a header.
    pub fn header(&self, name: &str) -> (r: Option<Vec<u8>>)
        ensures
            r is Some <==> self.head.fields().contains_key(key(name@)),
            r matches Some(v) ==> v@ == self.head.fields()[key(name@)][0],
    {
        map_get(&self.head.headers, name)
    }

    /// Returns request's headers.
    pub fn headers(&self) -> (r: &HeaderMap)
        ensures
            *r == self.head.headers,
    {
        &self.head.headers
    }

    /// The cookies that the response sets. Fails with the first one that is
    /// none.
    pub fn cookies(&self) -> (r: Result<Vec<Cookie<'static>>, CookieParseError>)
        ensures
            match r {
                Ok(l) => are_cookies(values_of(self.head.fields(), key("set-cookie"@)), l@),
                Err(e) => is_first_fault(values_of(self.head.fields(), key("set-cookie"@)), e),
            },
    {
        let values = map_get_all(&self.head.headers, "set-cookie");
        parse_cookies(&values)
    }

    /// Set a body and return previous body value
    pub fn set_payload(&mut self, payload: Payload)
        ensures
            *final(self) == (ClientResponse { payload, ..*old(self) }),
    {
        self.payload = payload;
    }

    /// Get response's payload
    pub fn take_payload(&mut self) -> (r: Payload)
        ensures
            r == old(self).payload,
            *final(self) == (ClientResponse { payload: Payload::NoPayload, ..*old(self) }),
    {
        self.payload.take()
    }

    /// Loads http response's body.
    pub fn body(&mut self) -> (r: MessageBody)
        ensures
            is_body_of(*old(self), *final(self), r),
    {
        MessageBody::new(self)
    }

    /// Loads and parse `application/json` encoded body.
    pub fn json(&mut self) -> (r: JsonBody)
        ensures
            is_json_body_of(*old(self), *final(self), r),
    {
        JsonBody::new(self)
    }
}

// ---------------------------------------------------------------------------
// Reading a body
// ---------------------------------------------------------------------------

/// What is known of a body before it is read.
#[derive(Debug)]
pub enum BodyPoll {
    /// Nothing yet.
    Pending,
    /// All bytes of the body.
    Done(Vec<u8>),
    /// The body failed.
    Failed(PayloadError),
    /// Reads on.
    Again,
}

/// A body that is collected up to a limit.
#[derive(Debug)]
pub struct ReadBody {
    /// Where the body comes from.
    pub stream: Payload,
    /// What was collected.
    pub buf: Vec<u8>,
    /// Most bytes that are collected.
    pub limit: usize,
}

/// The stream of a body gave something: data is collected up to the limit, and the
/// end hands out all of it.
pub open spec fn chunk_taken(
    before: Seq<u8>,
    after: Seq<u8>,
    limit: usize,
    item: PayloadPoll,
    r: BodyPoll,
) -> bool {
    match item {
        PayloadPoll::Pending => r is Pending && after == before,
        PayloadPoll::Failed(e) => r == BodyPoll::Failed(e) && after == before,
        PayloadPoll::Data(chunk) => if before.len() + chunk@.len() > limit {
            r == BodyPoll::Failed(PayloadError::Overflow) && after == before
        } else {
            r is Again && after == before + chunk@
        },
        PayloadPoll::Done => r matches BodyPoll::Done(all) && all@ == before && after.len() == 0,
    }
}

impl ReadBody {
    /// A body of which nothing was read.
    pub fn new(stream: Payload, limit: usize) -> (r: ReadBody)
        ensures
            r.stream == stream,
            r.buf@.len() == 0,
            r.limit == limit,
    {
        ReadBody { stream, buf: Vec::new(), limit }
    }

    /// The stream of the body gave something. What it gave is collected in its
    /// order, and never beyond the limit.
    pub fn on_chunk(&mut self, item: PayloadPoll) -> (r: BodyPoll)
        ensures
            old(self).buf@.len() <= old(self).limit ==> final(self).buf@.len() <= final(self).limit,
            final(self).limit == old(self).limit,
            final(self).stream == old(self).stream,
            chunk_taken(old(self).buf@, final(self).buf@, old(self).limit, item, r),
    {
        match item {
            PayloadPoll::Pending => BodyPoll::Pending,
            PayloadPoll::Failed(e) => BodyPoll::Failed(e),
            PayloadPoll::Data(chunk) => {
                if self.buf.len() > self.limit || chunk.len() > self.limit - self.buf.len() {
                    BodyPoll::Failed(PayloadError::Overflow)
                } else {
                    put_bytes(&mut self.buf, chunk.as_slice());
                    BodyPoll::Again
                }
            },
            PayloadPoll::Done => BodyPoll::Done(crate::text::take_all(&mut self.buf)),
        }
    }
}

/// A length that fits the machine.
pub open spec fn is_length(v: Seq<u8>) -> bool {
    let digits = without_plus(v);
    is_text(v) && digits.len() > 0 && all_digits(digits) && decimal_value(digits) <= usize::MAX
}

/// The number without its sign.
pub open spec fn without_plus(v: Seq<u8>) -> Seq<u8> {
    if v.len() > 0 && v[0] == 43 {
        v.skip(1)
    } else {
        v
    }
}

/// The announced length of a body: `Err` where it is none.
pub open spec fn announced_length(f: Fields) -> Result<Option<usize>, ()> {
    if !f.contains_key(key("content-length"@)) {
        Ok(None)
    } else {
        let v = f[key("content-length"@)][0];
        if is_length(v) {
            Ok(Some(decimal_value(without_plus(v)) as usize))
        } else {
            Err(())
        }
    }
}

fn parse_length(v: &[u8]) -> (r: Option<usize>)
    ensures
        r == (if is_length(v@) {
            Some(decimal_value(without_plus(v@)) as usize)
        } else {
            None
        }),
{
    if !is_text_bytes(v) {
        return None;
    }
    let digits = if v.len() > 0 && v[0] == 43 {
        vstd::slice::slice_subrange(v, 1, v.len())
    } else {
        v
    };
    assert(digits@ =~= without_plus(v@));
    match parse_u64(digits) {
        Some(n) => {
            if n <= usize::MAX as u64 {
                Some(n as usize)
            } else {
                None
            }
        },
        None => None,
    }
}

fn length_of(headers: &HeaderMap) -> (r: Result<Option<usize>, ()>)
    ensures
        r == announced_length(fields(*headers)),
{
    match map_get(headers, "content-length") {
        None => Ok(None),
        Some(v) => match parse_length(v.as_slice()) {
            Some(n) => Ok(Some(n)),
            None => Err(()),
        },
    }
}

/// Most bytes of a body that are read by default.
pub const BODY_LIMIT: usize = 262_144;

/// Most bytes of a json body that are read by default.
pub const JSON_LIMIT: usize = 65_536;

/// Future that resolves to a complete http message body.
#[derive(Debug)]
pub struct MessageBody {
    /// The announced length, until it was checked.
    pub length: Option<usize>,
    /// What is wrong with the body.
    pub err: Option<PayloadError>,
    /// The body, unless something is wrong with it.
    pub fut: Option<ReadBody>,
}

/// A body of which nothing was read.
pub open spec fn unread(body: ReadBody, stream: Payload, limit: usize) -> bool {
    body.stream == stream && body.buf@.len() == 0 && body.limit == limit
}

/// The body of a response.
pub open spec fn is_body_of(res: ClientResponse, after: ClientResponse, r: MessageBody) -> bool {
    match announced_length(res.head.fields()) {
        Err(_) => r == (MessageBody {
            length: None,
            err: Some(PayloadError::UnknownLength),
            fut: None,
        }) && after == res,
        Ok(length) => {
            &&& r.length == length
            &&& r.err is None
            &&& r.fut matches Some(body)
            &&& unread(body, res.payload, BODY_LIMIT)
            &&& after == (ClientResponse { payload: Payload::NoPayload, ..res })
        },
    }
}

impl MessageBody {
    /// There is a body, or something is wrong with it.
    pub open spec fn wf(self) -> bool {
        self.err is Some || self.fut is Some
    }

    /// Create `MessageBody` for request.
    pub fn new(res: &mut ClientResponse) -> (r: MessageBody)
        ensures
            is_body_of(*old(res), *final(res), r),
            r.wf(),
    {
        match length_of(&res.head.headers) {
            Err(_) => MessageBody { length: None, err: Some(PayloadError::UnknownLength), fut: None },
            Ok(length) => MessageBody {
                length,
                err: None,
                fut: Some(ReadBody::new(res.take_payload(), BODY_LIMIT)),
            },
        }
    }

    /// Change max size of payload. By default max size is 256Kb
    pub fn limit(self, limit: usize) -> (r: MessageBody)
        ensures
            self.wf() ==> r.wf(),
            r.length == self.length,
            r.err == self.err,
            match self.fut {
                Some(body) => r.fut == Some(ReadBody { limit, ..body }),
                None => r.fut is None,
            },
    {
        let mut r = self;
        if let Some(fut) = &mut r.fut {
            fut.limit = limit;
        }
        r
    }

    /// What is wrong with the body before it is read: what was found before, or
    /// an announced length beyond the limit. Told once.
    pub fn check(&mut self) -> (r: Option<PayloadError>)
        requires
            old(self).wf(),
        ensures
            match old(self).err {
                Some(e) => r == Some(e) && *final(self) == (MessageBody { err: None, ..*old(self) }),
                None => {
                    &&& final(self).wf()
                    &&& *final(self) == (MessageBody { length: None, ..*old(self) })
                    &&& r == (if old(self).length matches Some(len) && len > old(self).fut->0.limit {
                        Some(PayloadError::Overflow)
                    } else {
                        None
                    })
                },
            },
    {
        if let Some(err) = self.err.take() {
            return Some(err);
        }
        if let Some(len) = self.length.take() {
            if let Some(fut) = &self.fut {
                if len > fut.limit {
                    return Some(PayloadError::Overflow);
                }
            }
        }
        None
    }
}

// ---------------------------------------------------------------------------
// Json
// ---------------------------------------------------------------------------

/// Subtype and suffix of the media type that a text stands for.
pub uninterp spec fn parsed_mime(text: Seq<char>) -> Option<(Seq<char>, Option<Seq<char>>)>;

/// `mime::Mime` read from a text: whether it is a media type, and which, depends
/// on the text alone.
#[verifier::external_body]
fn parse_mime(text: &[u8]) -> (r: Option<(String, Option<String>)>)
    requires
        is_text(text@),
    ensures
        mime_view(r) == parsed_mime(chars(text@)),
{
    let text = std::str::from_utf8(text).unwrap();
    let mime = text.parse::<mime::Mime>().ok()?;
    let suffix = mime.suffix().map(|s| s.as_str().to_string());
    Some((mime.subtype().as_str().to_string(), suffix))
}

/// Contents of the parts of a media type.
pub open spec fn mime_view(m: Option<(String, Option<String>)>) -> Option<
    (Seq<char>, Option<Seq<char>>),
> {
    match m {
        Some((subtype, suffix)) => Some(
            (
                subtype@,
                match suffix {
                    Some(s) => Some(s@),
                    None => None,
                },
            ),
        ),
        None => None,
    }
}

/// The content type is one of json.
pub open spec fn is_json(f: Fields) -> bool {
    &&& f.contains_key(key("content-type"@))
    &&& is_text(f[key("content-type"@)][0])
    &&& is_json_type(parsed_mime(chars(f[key("content-type"@)][0])))
}

/// The media type is one of json, by its subtype or by its suffix.
pub open spec fn is_json_type(m: Option<(Seq<char>, Option<Seq<char>>)>) -> bool {
    m matches Some((subtype, suffix)) && (subtype == "json"@ || suffix == Some("json"@))
}

/// Whether a media type is one of json, by its subtype or by its suffix.
pub fn json_type(m: &Option<(String, Option<String>)>) -> (r: bool)
    ensures
        r == is_json_type(mime_view(*m)),
{
    match m {
        Some((subtype, suffix)) => str_eq(subtype.as_str(), "json") || match suffix {
            Some(s) => str_eq(s.as_str(), "json"),
            None => false,
        },
        None => false,
    }
}

/// Response's payload json parser, it resolves to a deserialized `T` value.
///
/// Returns error:
///
/// * content type is not `application/json`
/// * content length is greater than 64k
#[derive(Debug)]
pub struct JsonBody {
    /// The announced length, until it was checked.
    pub length: Option<usize>,
    /// What is wrong with the body.
    pub err: Option<JsonPayloadError>,
    /// The body, unless something is wrong with it.
    pub fut: Option<ReadBody>,
}

/// The json body of a response.
pub open spec fn is_json_body_of(res: ClientResponse, after: ClientResponse, r: JsonBody) -> bool {
    if !is_json(res.head.fields()) {
        r == (JsonBody { length: None, err: Some(JsonPayloadError::ContentType), fut: None })
            && after == res
    } else {
        &&& r.length == (match announced_length(res.head.fields()) {
            Ok(length) => length,
            Err(_) => None,
        })
        &&& r.err is None
        &&& r.fut matches Some(body)
        &&& unread(body, res.payload, JSON_LIMIT)
        &&& after == (ClientResponse { payload: Payload::NoPayload, ..res })
    }
}

impl JsonBody {
    /// There is a body, or something is wrong with it.
    pub open spec fn wf(self) -> bool {
        self.err is Some || self.fut is Some
    }

    /// Create `JsonBody` for request.
    pub fn new(res: &mut ClientResponse) -> (r: JsonBody)
        ensures
            is_json_body_of(*old(res), *final(res), r),
            r.wf(),
    {
        // check content-type
        let json = match map_get(&res.head.headers, "content-type") {
            Some(v) => {
                if is_text_bytes(v.as_slice()) {
                    let mime = parse_mime(v.as_slice());
                    json_type(&mime)
                } else {
                    false
                }
            },
            None => false,
        };
        if !json {
            return JsonBody {
                length: None,
                err: Some(JsonPayloadError::ContentType),
                fut: None,
            };
        }
        let length = match length_of(&res.head.headers) {
            Ok(length) => length,
            Err(_) => None,
        };
        JsonBody { length, err: None, fut: Some(ReadBody::new(res.take_payload(), JSON_LIMIT)) }
    }

    /// Change max size of payload. By default max size is 64Kb
    pub fn limit(self, limit: usize) -> (r: JsonBody)
        ensures
            self.wf() ==> r.wf(),
            r.length == self.length,
            r.err == self.err,
            match self.fut {
                Some(body) => r.fut == Some(ReadBody { limit, ..body }),
                None => r.fut is None,
            },
    {
        let mut r = self;
        if let Some(fut) = &mut r.fut {
            fut.limit = limit;
        }
        r
    }

    /// What is wrong with the body before it is read: what was found before, or
    /// an announced length beyond the limit. Told once.
    pub fn check(&mut self) -> (r: Option<JsonPayloadError>)
        requires
            old(self).wf(),
        ensures
            match old(self).err {
                Some(e) => r == Some(e) && *final(self) == (JsonBody { err: None, ..*old(self) }),
                None => {
                    &&& final(self).wf()
                    &&& *final(self) == (JsonBody { length: None, ..*old(self) })
                    &&& r == (if old(self).length matches Some(len) && len > old(self).fut->0.limit {
                        Some(JsonPayloadError::Payload(PayloadError::Overflow))
                    } else {
                        None
                    })
                },
            },
    {
        if let Some(err) = self.err.take() {
            return Some(err);
        }
        if let Some(len) = self.length.take() {
            if let Some(fut) = &self.fut {
                if len > fut.limit {
                    return Some(JsonPayloadError::Payload(PayloadError::Overflow));
                }
            }
        }
        None
    }
}

} // verus!
