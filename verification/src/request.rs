//! Request.

use ntex_http::HeaderMap;
use vstd::prelude::*;
use vstd::string::StringExecFns;

use crate::error::DecodeError;
use crate::headers::{fields, key, map_get, Fields};
use crate::message::{Head, RequestHead};
use crate::payload::Payload;
use crate::text::{ascii, ascii_bytes, is_text, is_text_bytes, lower_seq};
use crate::types::{version_text, Method, Uri, Version};

verus! {

/// Request
#[derive(Debug)]
pub struct Request {
    pub payload: Payload,
    pub head: RequestHead,
}

/// The bytes hold others, up to ASCII case.
pub open spec fn contains_ignore_case(s: Seq<u8>, part: Seq<u8>) -> bool {
    exists|i: int|
        0 <= i <= s.len() - part.len() && lower_seq(#[trigger] s.subrange(i, i + part.len()))
            == lower_seq(part)
}

/// Whether the bytes hold others, up to ASCII case.
pub fn holds_ignore_case(s: &[u8], part: &[u8]) -> (r: bool)
    ensures
        r == contains_ignore_case(s@, part@),
{
    if s.len() < part.len() {
        return false;
    }
    let mut i: usize = 0;
    while i <= s.len() - part.len()
        invariant
            part.len() <= s.len(),
            i <= s.len() - part.len() + 1,
            forall|j: int|
                0 <= j < i ==> lower_seq(#[trigger] s@.subrange(j, j + part@.len())) != lower_seq(
                    part@,
                ),
        decreases s.len() - i,
    {
        let piece = vstd::slice::slice_subrange(s, i, i + part.len());
        if crate::text::eq_ignore_ascii_case(piece, part) {
            assert(lower_seq(s@.subrange(i as int, i + part@.len())) == lower_seq(part@));
            return true;
        }
        if i == s.len() - part.len() {
            assert forall|j: int| 0 <= j <= s@.len() - part@.len() implies lower_seq(
                #[trigger] s@.subrange(j, j + part@.len()),
            ) != lower_seq(part@) by {
                if j == i {
                }
            }
            return false;
        }
        i += 1;
    }
    false
}

/// What the transfer coding of a message says: whether it is chunked, `None`
/// where it does not read as text.
pub open spec fn chunked_of(f: Fields) -> Option<bool> {
    if !f.contains_key(key("transfer-encoding"@)) {
        Some(false)
    } else if is_text(f[key("transfer-encoding"@)][0]) {
        Some(contains_ignore_case(f[key("transfer-encoding"@)][0], ascii("chunked"@)))
    } else {
        None
    }
}

impl Request {
    /// Create new Request instance
    pub fn new() -> (r: Request)
        ensures
            r.head.is_fresh(),
            r.head.is_clear(),
            r.payload is NoPayload,
    {
        Request { head: RequestHead::default(), payload: Payload::NoPayload }
    }

    /// Http message part of the request
    pub fn head(&self) -> (r: &RequestHead)
        ensures
            *r == self.head,
    {
        &self.head
    }

    /// Mutable reference to a http message part of the request
    pub fn head_mut(&mut self) -> (r: &mut RequestHead)
        ensures
            *r == old(self).head,
            *final(self) == (Request { head: *final(r), ..*old(self) }),
    {
        &mut self.head
    }

    /// Request's uri.
    pub fn uri(&self) -> (r: &Uri)
        ensures
            *r == self.head.uri,
    {
        &self.head.uri
    }

    /// Read the Request method.
    pub fn method(&self) -> (r: &Method)
        ensures
            *r == self.head.method,
    {
        &self.head.method
    }

    /// Read the Request Version.
    pub fn version(&self) -> (r: Version)
        ensures
            r == self.head.version,
    {
        self.head.version
    }

    /// The target path of this Request.
    pub fn path(&self) -> (r: &str)
        ensures
            r@ == self.head.uri@.path,
    {
        self.head.uri.path()
    }

    /// First line of the request in a log: version, method and path.
    pub fn title(&self) -> (r: String)
        ensures
            r@ == "Request "@ + version_text(self.head.version) + " "@ + self.head.method.name()
                + ":"@ + self.head.uri@.path,
    {
        let mut s = "Request ".to_owned();
        s.append(self.head.version.as_str());
        s.append(" ");
        s.append(self.head.method.as_str());
        s.append(":");
        s.append(self.path());
        s
    }

    /// Request's headers.
    pub fn headers(&self) -> (r: &HeaderMap)
        ensures
            *r == self.head.headers,
    {
        &self.head.headers
    }

    /// Create new Request instance with a payload
    pub fn with_payload(payload: Payload) -> (r: Request)
        ensures
            r.head.is_fresh(),
            r.head.is_clear(),
            r.payload == payload,
    {
        Request { head: RequestHead::default(), payload }
    }

    /// Mutable reference to the request's uri.
    pub fn uri_mut(&mut self) -> (r: &mut Uri)
        ensures
            *r == old(self).head.uri,
            *final(self) == (Request {
                head: RequestHead { uri: *final(r), ..old(self).head },
                ..*old(self)
            }),
    {
        &mut self.head.uri
    }

    /// Mutable reference to the message's headers.
    pub fn headers_mut(&mut self) -> (r: &mut HeaderMap)
        ensures
            *r == old(self).head.headers,
            *final(self) == (Request {
                head: RequestHead { headers: *final(r), ..old(self).head },
                ..*old(self)
            }),
    {
        &mut self.head.headers
    }

    /// Get request's payload
    pub fn payload(&mut self) -> (r: &mut Payload)
        ensures
            *r == old(self).payload,
            *final(self) == (Request { payload: *final(r), ..*old(self) }),
    {
        &mut self.payload
    }

    /// Get request's payload
    pub fn take_payload(&mut self) -> (r: Payload)
        ensures
            r == old(self).payload,
            *final(self) == (Request { payload: Payload::NoPayload, ..*old(self) }),
    {
        self.payload.take()
    }

    /// Replace request's payload, returns old one
    pub fn replace_payload(&mut self, payload: Payload) -> (r: Payload)
        ensures
            r == old(self).payload,
            *final(self) == (Request { payload, ..*old(self) }),
    {
        let old_payload = self.payload;
        self.payload = payload;
        old_payload
    }

    /// Split request into request head and payload
    pub fn into_parts(self) -> (r: (RequestHead, Payload))
        ensures
            r.0 == self.head,
            r.1 == self.payload,
    {
        (self.head, self.payload)
    }

    /// Check if request requires connection upgrade
    pub fn upgrade(&self) -> (r: bool)
        ensures
            r == (self.head.flags.upgrade || self.head.method is CONNECT),
    {
        self.head.upgrade() || self.head.method.is_connect()
    }

    /// Whether the body comes in chunked transfer coding.
    pub fn chunked(&self) -> (r: Result<bool, DecodeError>)
        ensures
            match chunked_of(self.head.fields()) {
                Some(b) => r == Ok::<bool, DecodeError>(b),
                None => r == Err::<bool, DecodeError>(DecodeError::Header),
            },
    {
        match map_get(&self.head.headers, "transfer-encoding") {
            Some(v) => {
                if is_text_bytes(v.as_slice()) {
                    proof {
                        reveal_strlit("chunked");
                    }
                    Ok(holds_ignore_case(v.as_slice(), ascii_bytes("chunked")))
                } else {
                    Err(DecodeError::Header)
                }
            },
            None => Ok(false),
        }
    }
}

} // verus!
