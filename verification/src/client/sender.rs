//! Sending requests.

use ntex_http::HeaderMap;
use vstd::prelude::*;
use vstd::utf8::encode_utf8;

use crate::body::Body;
use crate::client::error::SendRequestError;
use crate::headers::{
    fields, is_header_value, key, map_contains, map_insert, map_new, no_fields, replaced,
    valid_name, valid_value, Fields,
};
use crate::message::{RequestHead, RequestHeadType};
use crate::response::HttpError;
use crate::text::{ascii, ascii_bytes};
use crate::time::Millis;

verus! {

/// The fields of an optional header map.
pub open spec fn opt_fields(h: Option<HeaderMap>) -> Fields {
    match h {
        Some(h) => fields(h),
        None => no_fields(),
    }
}

/// The head with a header in place of those of its name: among its own headers,
/// or among those that are added to a shared head.
pub open spec fn is_head_with(
    after: RequestHeadType,
    before: RequestHeadType,
    name: Seq<char>,
    value: Seq<u8>,
) -> bool {
    match before {
        RequestHeadType::Owned(head) => {
            &&& after matches RequestHeadType::Owned(h)
            &&& h == (RequestHead { headers: h.headers, ..head })
            &&& h.fields() == replaced(head.fields(), key(name), value)
        },
        RequestHeadType::Rc(head, extra) => {
            &&& after matches RequestHeadType::Rc(h, Some(e))
            &&& h == head
            &&& fields(e) == replaced(opt_fields(extra), key(name), value)
        },
    }
}

/// The head has a header, by itself or among those that are added to it.
pub open spec fn has_header(head: RequestHeadType, name: Seq<char>) -> bool {
    head.head().fields().contains_key(key(name)) || opt_fields(head.extra()).contains_key(
        key(name),
    )
}

impl RequestHeadType {
    /// Whether the head has a header.
    pub fn contains_header(&self, name: &str) -> (r: bool)
        ensures
            r == has_header(*self, name@),
    {
        match self {
            RequestHeadType::Owned(head) => map_contains(&head.headers, name),
            RequestHeadType::Rc(head, extra) => map_contains(&head.headers, name) || match extra {
                Some(h) => map_contains(h, name),
                None => false,
            },
        }
    }

    /// Puts a header in place of those of its name.
    pub fn insert_header(&mut self, name: &str, value: &[u8])
        requires
            valid_name(name@),
            valid_value(value@),
        ensures
            is_head_with(*final(self), *old(self), name@, value@),
    {
        match self {
            RequestHeadType::Owned(head) => {
                map_insert(&mut head.headers, name, value);
            },
            RequestHeadType::Rc(_, extra) => {
                let mut h = match extra.take() {
                    Some(h) => h,
                    None => map_new(),
                };
                map_insert(&mut h, name, value);
                *extra = Some(h);
            },
        }
    }

    /// Sets a header unless the head has one of its name.
    pub fn set_header_if_none(&mut self, name: &str, value: &[u8]) -> (r: Result<(), HttpError>)
        requires
            valid_name(name@),
        ensures
            if has_header(*old(self), name@) {
                r is Ok && *final(self) == *old(self)
            } else if valid_value(value@) {
                r is Ok && is_head_with(*final(self), *old(self), name@, value@)
            } else {
                r == Err::<(), HttpError>(HttpError::HeaderValue) && *final(self) == *old(self)
            },
    {
        if !self.contains_header(name) {
            if is_header_value(value) {
                self.insert_header(name, value);
            } else {
                return Err(HttpError::HeaderValue);
            }
        }
        Ok(())
    }

    fn typed(self, body: Result<String, String>, content_type: &str) -> (r: Result<
        (RequestHeadType, Body),
        SendRequestError,
    >)
        requires
            content_type.is_ascii(),
            valid_value(ascii(content_type@)),
        ensures
            is_typed(self, body, content_type@, r),
    {
        let mut head = self;
        match body {
            Err(e) => Err(SendRequestError::Error(e)),
            Ok(text) => {
                proof {
                    reveal_strlit("content-type");
                }
                match head.set_header_if_none("content-type", ascii_bytes(content_type)) {
                    Ok(()) => Ok((head, Body::from_text(text.as_str()))),
                    Err(e) => Err(SendRequestError::Http(e)),
                }
            },
        }
    }

    /// A request with a json body: the serialized value, or the text of the
    /// error that serializing it made. A content type that was set is kept.
    pub fn send_json(self, body: Result<String, String>) -> (r: Result<
        (RequestHeadType, Body),
        SendRequestError,
    >)
        ensures
            is_typed(self, body, "application/json"@, r),
    {
        proof {
            reveal_strlit("application/json");
        }
        self.typed(body, "application/json")
    }

    /// A request with a form as its body: the serialized value, or the text of
    /// the error that serializing it made. A content type that was set is kept.
    pub fn send_form(self, body: Result<String, String>) -> (r: Result<
        (RequestHeadType, Body),
        SendRequestError,
    >)
        ensures
            is_typed(self, body, "application/x-www-form-urlencoded"@, r),
    {
        proof {
            reveal_strlit("application/x-www-form-urlencoded");
        }
        self.typed(body, "application/x-www-form-urlencoded")
    }
}

/// A request with a body of a content type.
pub open spec fn is_typed(
    head: RequestHeadType,
    body: Result<String, String>,
    content_type: Seq<char>,
    r: Result<(RequestHeadType, Body), SendRequestError>,
) -> bool {
    match body {
        Err(e) => r == Err::<(RequestHeadType, Body), SendRequestError>(SendRequestError::Error(e)),
        Ok(text) => {
            &&& r matches Ok((h, Body::Bytes(b)))
            &&& b@ == encode_utf8(text@)
            &&& if has_header(head, "content-type"@) {
                h == head
            } else {
                is_head_with(h, head, "content-type"@, ascii(content_type))
            }
        },
    }
}

/// The time that a response may take: that of the request, or where it names
/// none, that of the client.
pub fn response_timeout(timeout: Millis, client: Millis) -> (r: Millis)
    ensures
        r == (if timeout.0 == 0 {
            client
        } else {
            timeout
        }),
{
    if timeout.is_zero() {
        client
    } else {
        timeout
    }
}

} // verus!
