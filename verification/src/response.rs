//! Responses and how they are built.

use cookie::{Cookie, CookieJar};
use ntex_http::HeaderMap;
use vstd::prelude::*;
use vstd::utf8::encode_utf8;

use crate::body::{Body, BodySize, ResponseBody};
use crate::error::IoError;
use crate::h1::{error_status, ProtocolError};
use crate::cookies::{
    cookie_name, cookie_text, cookie_values, expiry_fits, has_utc_expiry, is_cookie, jar_add,
    jar_add_original, jar_changes, jar_delta, jar_new, jar_originals, jar_remove, lists_changes,
    next_cookie, no_changes, no_names, text_of_cookie, texts_are_values, with_cookie, with_values,
    without_change, without_cookie, Changes, CookieIter,
};
use crate::headers::{
    appended, fields, header_name, is_header_value, is_name_text, key, map_append, map_clone,
    map_contains, map_get_all, map_insert, map_remove, name_from_token, no_fields, replaced,
    valid_name, valid_value, values_of, views, Fields,
};
use crate::message::{flags_with, no_flags, type_of, ConnectionType, Flags, Head, ResponseHead};
use crate::text::{ascii, ascii_bytes, decimal, write_decimal};
use crate::types::{chars, StatusCode, Version};

verus! {

/// Errors of the parts of a message.
#[derive(Debug, Copy, Clone, PartialEq, Eq, Structural)]
pub enum HttpError {
    StatusCode,
    Method,
    Uri,
    HeaderName,
    HeaderValue,
    Http,
}

/// Text of the error.
pub open spec fn http_error_text(e: HttpError) -> Seq<char> {
    match e {
        HttpError::StatusCode => "Invalid status code"@,
        HttpError::Method => "Invalid HTTP method"@,
        HttpError::Uri => "Invalid URI"@,
        HttpError::HeaderName => "Invalid HTTP header name"@,
        HttpError::HeaderValue => "Invalid HTTP header value"@,
        HttpError::Http => "http error"@,
    }
}

/// An HTTP Response
#[derive(Debug)]
pub struct Response<B> {
    pub body: ResponseBody<B>,
    pub head: ResponseHead,
}

/// A head with a status, without headers and marks.
pub open spec fn plain_head(head: ResponseHead, status: StatusCode) -> bool {
    head.status == status && head.version == Version::HTTP_11 && head.is_clear()
}

/// The fields with a content type and nothing else.
pub open spec fn only_content_type(value: Seq<char>) -> Fields {
    replaced(no_fields(), key("content-type"@), ascii(value))
}

/// A response with a content type and a body that holds its bytes.
pub open spec fn plain_response(
    r: Response<Body>,
    status: StatusCode,
    content_type: Seq<char>,
    bytes: Seq<u8>,
) -> bool {
    &&& r.head.status == status
    &&& r.head.version == Version::HTTP_11
    &&& r.head.fields() == only_content_type(content_type)
    &&& r.head.flags == no_flags()
    &&& r.head.reason is None
    &&& r.body matches ResponseBody::Body(Body::Bytes(b))
    &&& b@ == bytes
}

/// A response without headers and body.
pub open spec fn empty_response(r: Response<Body>, status: StatusCode) -> bool {
    plain_head(r.head, status) && r.body == ResponseBody::Body(Body::Empty)
}

/// Error that can be converted to `Response`
pub trait ResponseError: Sized {
    /// Text of the error.
    spec fn text_spec(self) -> Seq<char>;

    /// The response that the error is answered with.
    spec fn answered_with(self, r: Response<Body>) -> bool;

    /// Text of the error.
    fn error_text(&self) -> (r: String)
        ensures
            r@ == self.text_spec(),
    ;

    /// Create response for error
    fn error_response(&self) -> (r: Response<Body>)
        ensures
            self.answered_with(r),
    ;
}

/// The response to an error that has no other: 500, with the text of the error.
pub open spec fn internal_error(r: Response<Body>, text: Seq<char>) -> bool {
    plain_response(r, StatusCode(500), "text/plain; charset=utf-8"@, encode_utf8(text))
}

/// The response to an error that has no other.
pub fn internal_error_response(text: &str) -> (r: Response<Body>)
    ensures
        internal_error(r, text@),
{
    content_response(StatusCode(500), "text/plain; charset=utf-8", Body::from_text(text))
}

proof fn content_types_are_values()
    ensures
        "text/plain; charset=utf-8".is_ascii(),
        valid_value(ascii("text/plain; charset=utf-8"@)),
        "application/octet-stream".is_ascii(),
        valid_value(ascii("application/octet-stream"@)),
        "application/json".is_ascii(),
        valid_value(ascii("application/json"@)),
{
    reveal_strlit("text/plain; charset=utf-8");
    reveal_strlit("application/octet-stream");
    reveal_strlit("application/json");
}

proof fn names_are_valid()
    ensures
        valid_name("content-type"@),
        valid_name("upgrade"@),
        valid_name("content-length"@),
{
    reveal_strlit("content-type");
    reveal_strlit("upgrade");
    reveal_strlit("content-length");
}

/// One of the content types that the library sets by itself.
pub open spec fn known_type(s: Seq<char>) -> bool {
    s == "text/plain; charset=utf-8"@ || s == "application/octet-stream"@
}

fn content_response(status: StatusCode, content_type: &str, body: Body) -> (r: Response<Body>)
    requires
        known_type(content_type@),
        body is Bytes,
    ensures
        plain_response(r, status, content_type@, body->Bytes_0@),
{
    let mut r = Response::<Body>::new(status);
    proof {
        content_types_are_values();
        names_are_valid();
    }
    map_insert(&mut r.head.headers, "content-type", ascii_bytes(content_type));
    r.body = ResponseBody::Body(body);
    r
}

impl ResponseError for HttpError {
    open spec fn text_spec(self) -> Seq<char> {
        http_error_text(self)
    }

    open spec fn answered_with(self, r: Response<Body>) -> bool {
        internal_error(r, self.text_spec())
    }

    fn error_text(&self) -> (r: String) {
        let s = match self {
            HttpError::StatusCode => "Invalid status code",
            HttpError::Method => "Invalid HTTP method",
            HttpError::Uri => "Invalid URI",
            HttpError::HeaderName => "Invalid HTTP header name",
            HttpError::HeaderValue => "Invalid HTTP header value",
            HttpError::Http => "http error",
        };
        s.to_owned()
    }

    fn error_response(&self) -> (r: Response<Body>) {
        let text = self.error_text();
        internal_error_response(text.as_str())
    }
}

impl ResponseError for IoError {
    open spec fn text_spec(self) -> Seq<char> {
        self.text@
    }

    open spec fn answered_with(self, r: Response<Body>) -> bool {
        internal_error(r, self.text_spec())
    }

    fn error_text(&self) -> (r: String) {
        self.text.clone()
    }

    fn error_response(&self) -> (r: Response<Body>) {
        internal_error_response(self.text.as_str())
    }
}

impl ResponseError for ProtocolError {
    open spec fn text_spec(self) -> Seq<char> {
        self.text()
    }

    open spec fn answered_with(self, r: Response<Body>) -> bool {
        empty_response(r, error_status(self))
    }

    fn error_text(&self) -> (r: String) {
        self.message()
    }

    fn error_response(&self) -> (r: Response<Body>) {
        Response::<Body>::new(self.status())
    }
}

impl Response<Body> {
    /// Create http response builder with specific status.
    pub fn build(status: StatusCode) -> (r: ResponseBuilder)
        ensures
            r.err is None,
            r.head matches Some(h) && plain_head(h, status),
    {
        ResponseBuilder::new(status)
    }

    /// Constructs a response
    pub fn new(status: StatusCode) -> (r: Response<Body>)
        ensures
            empty_response(r, status),
    {
        Response {
            head: ResponseHead::new(status, Version::HTTP_11),
            body: ResponseBody::Body(Body::Empty),
        }
    }

    /// Convert response to response with body
    pub fn into_body<B>(self) -> (r: Response<B>)
        ensures
            r.head == self.head,
            r.body == ResponseBody::<B>::Other(
                match self.body {
                    ResponseBody::Body(b) => b,
                    ResponseBody::Other(b) => b,
                },
            ),
    {
        let b = match self.body {
            ResponseBody::Body(b) => b,
            ResponseBody::Other(b) => b,
        };
        Response { head: self.head, body: ResponseBody::Other(b) }
    }

    /// The response that an error is answered with.
    pub fn from_error<E: ResponseError>(err: &E) -> (r: Response<Body>)
        ensures
            err.answered_with(r),
    {
        err.error_response()
    }

    /// The response of a call that may have failed.
    pub fn from_result<E: ResponseError>(res: Result<Response<Body>, E>) -> (r: Response<Body>)
        ensures
            match res {
                Ok(val) => r == val,
                Err(e) => e.answered_with(r),
            },
    {
        match res {
            Ok(val) => val,
            Err(err) => err.error_response(),
        }
    }

    /// A response with a text.
    pub fn from_text(val: &str) -> (r: Response<Body>)
        ensures
            plain_response(
                r,
                StatusCode(200),
                "text/plain; charset=utf-8"@,
                encode_utf8(val@),
            ),
    {
        content_response(StatusCode(200), "text/plain; charset=utf-8", Body::from_text(val))
    }

    /// A response with bytes.
    pub fn from_bytes(val: &[u8]) -> (r: Response<Body>)
        ensures
            plain_response(r, StatusCode(200), "application/octet-stream"@, val@),
    {
        content_response(StatusCode(200), "application/octet-stream", Body::from_slice(val))
    }
}

impl<B> Response<B> {
    /// Constructs a response with body
    pub fn with_body(status: StatusCode, body: B) -> (r: Response<B>)
        ensures
            plain_head(r.head, status),
            r.body == ResponseBody::Body(body),
    {
        Response {
            head: ResponseHead::new(status, Version::HTTP_11),
            body: ResponseBody::Body(body),
        }
    }

    /// Http message part of the response
    pub fn head(&self) -> (r: &ResponseHead)
        ensures
            *r == self.head,
    {
        &self.head
    }

    /// Mutable reference to a http message part of the response
    pub fn head_mut(&mut self) -> (r: &mut ResponseHead)
        ensures
            *r == old(self).head,
            *final(self) == (Response { head: *final(r), ..*old(self) }),
    {
        &mut self.head
    }

    /// Get the response status code
    pub fn status(&self) -> (r: StatusCode)
        ensures
            r == self.head.status,
    {
        self.head.status
    }

    /// Set the `StatusCode` for this response
    pub fn status_mut(&mut self) -> (r: &mut StatusCode)
        ensures
            *r == old(self).head.status,
            *final(self) == (Response {
                head: ResponseHead { status: *final(r), ..old(self).head },
                ..*old(self)
            }),
    {
        &mut self.head.status
    }

    /// Get the headers from the response
    pub fn headers(&self) -> (r: &HeaderMap)
        ensures
            *r == self.head.headers,
    {
        &self.head.headers
    }

    /// Get a mutable reference to the headers
    pub fn headers_mut(&mut self) -> (r: &mut HeaderMap)
        ensures
            *r == old(self).head.headers,
            *final(self) == (Response {
                head: ResponseHead { headers: *final(r), ..old(self).head },
                ..*old(self)
            }),
    {
        &mut self.head.headers
    }

    /// Get an iterator for the cookies set by this response
    pub fn cookies(&self) -> (r: CookieIter)
        ensures
            r.all() == values_of(self.head.fields(), key("set-cookie"@)),
            r.pos == 0,
    {
        let r = CookieIter { values: map_get_all(&self.head.headers, "set-cookie"), pos: 0 };
        assert(r.all() =~= values_of(self.head.fields(), key("set-cookie"@)));
        r
    }

    /// Add a cookie to this response. One whose text is no header value, or whose
    /// expiry has no date in UTC, is refused.
    pub fn add_cookie(&mut self, cookie: &Cookie<'static>) -> (r: Result<(), HttpError>)
        ensures
            ({
                let value = encode_utf8(cookie_text(*cookie));
                if expiry_fits(*cookie) && valid_value(value) {
                    &&& r is Ok
                    &&& final(self).body == old(self).body
                    &&& final(self).head == (ResponseHead {
                        headers: final(self).head.headers,
                        ..old(self).head
                    })
                    &&& final(self).head.fields() == appended(
                        old(self).head.fields(),
                        key("set-cookie"@),
                        value,
                    )
                } else {
                    r == Err::<(), HttpError>(HttpError::HeaderValue) && *final(self) == *old(self)
                }
            }),
    {
        if !has_utc_expiry(cookie) {
            return Err(HttpError::HeaderValue);
        }
        let text = text_of_cookie(cookie);
        if is_header_value(text.as_str().as_bytes()) {
            proof {
                reveal_strlit("set-cookie");
            }
            map_append(&mut self.head.headers, "set-cookie", text.as_str().as_bytes());
            Ok(())
        } else {
            Err(HttpError::HeaderValue)
        }
    }

    /// Remove all cookies with the given name from this response. Returns
    /// the number of cookies removed. Those that stay are listed the last one
    /// first.
    pub fn del_cookie(&mut self, name: &str) -> (r: usize)
        ensures
            ({
                let values = values_of(old(self).head.fields(), key("set-cookie"@));
                let kept = without_cookie(values, name@);
                &&& r == values.len() - kept.len()
                &&& final(self).body == old(self).body
                &&& final(self).head == (ResponseHead {
                    headers: final(self).head.headers,
                    ..old(self).head
                })
                &&& final(self).head.fields() == with_values(
                    old(self).head.fields(),
                    key("set-cookie"@),
                    kept,
                )
            }),
    {
        let ghost k = key("set-cookie"@);
        let ghost f0 = self.head.fields();
        let vals = map_get_all(&self.head.headers, "set-cookie");
        let ghost all = views(vals@);
        map_remove(&mut self.head.headers, "set-cookie");
        let mut count: usize = 0;
        let mut i: usize = vals.len();
        proof {
            reveal_strlit("set-cookie");
            assert(without_cookie(all.skip(all.len() as int), name@) =~= Seq::empty());
        }
        while i > 0
            invariant
                i <= vals.len(),
                all == views(vals@),
                k == key("set-cookie"@),
                valid_name("set-cookie"@),
                f0 == old(self).head.fields(),
                count <= vals.len() - i,
                count == vals.len() - i - without_cookie(all.skip(i as int), name@).len(),
                self.body == old(self).body,
                self.head == (ResponseHead { headers: self.head.headers, ..old(self).head }),
                self.head.fields() == with_values(f0, k, without_cookie(all.skip(i as int), name@)),
                forall|j: int| 0 <= j < vals@.len() ==> valid_value((#[trigger] vals@[j])@),
            decreases i,
        {
            let ghost before = without_cookie(all.skip(i as int), name@);
            i -= 1;
            let v = vals[i].as_slice();
            proof {
                assert(all.skip(i as int).skip(1) =~= all.skip(i + 1));
                assert(all.skip(i as int)[0] == v@);
            }
            if is_cookie(v, name) {
                count = count + 1;
            } else {
                let ghost f1 = self.head.fields();
                map_append(&mut self.head.headers, "set-cookie", v);
                proof {
                    assert(values_of(f1, k) =~= before);
                    assert(self.head.fields() =~= with_values(f0, k, before.push(v@)));
                }
            }
        }
        proof {
            assert(all.skip(0) =~= all);
        }
        count
    }

    /// Connection upgrade status
    pub fn upgrade(&self) -> (r: bool)
        ensures
            r == (type_of(self.head.flags, self.head.version) == ConnectionType::Upgrade),
    {
        self.head.upgrade()
    }

    /// Keep-alive status for this connection
    pub fn keep_alive(&self) -> (r: bool)
        ensures
            r == (type_of(self.head.flags, self.head.version) == ConnectionType::KeepAlive),
    {
        self.head.keep_alive()
    }

    /// Get body of this response
    pub fn body(&self) -> (r: &ResponseBody<B>)
        ensures
            *r == self.body,
    {
        &self.body
    }

    /// Set a body
    pub fn set_body<B2>(self, body: B2) -> (r: Response<B2>)
        ensures
            r.head == self.head,
            r.body == ResponseBody::Body(body),
    {
        Response { head: self.head, body: ResponseBody::Body(body) }
    }

    /// Split response and body
    pub fn into_parts(self) -> (r: (Response<()>, ResponseBody<B>))
        ensures
            r.0.head == self.head,
            r.0.body == ResponseBody::Body(()),
            r.1 == self.body,
    {
        (Response { head: self.head, body: ResponseBody::Body(()) }, self.body)
    }

    /// Drop request's body
    pub fn drop_body(self) -> (r: Response<()>)
        ensures
            r.head == self.head,
            r.body == ResponseBody::Body(()),
    {
        Response { head: self.head, body: ResponseBody::Body(()) }
    }

    /// Set a body and return previous body value
    pub fn replace_body<B2>(self, body: B2) -> (r: (Response<B2>, ResponseBody<B>))
        ensures
            r.0.head == self.head,
            r.0.body == ResponseBody::Body(body),
            r.1 == self.body,
    {
        (Response { head: self.head, body: ResponseBody::Body(body) }, self.body)
    }

    /// Set a body that is made of the head and the body of the response.
    pub fn map_body<F, B2>(self, f: F) -> (r: Response<B2>) where
        F: FnOnce(&mut ResponseHead, ResponseBody<B>) -> ResponseBody<B2>,

        requires
            forall|head: &mut ResponseHead|
                *head == self.head ==> #[trigger] f.requires((head, self.body)),
        ensures
            exists|head: &mut ResponseHead| #[trigger]
                f.ensures((head, self.body), r.body) && *head == self.head && *final(head)
                    == r.head,
    {
        let Response { body, head } = self;
        let mut head = head;
        let body = f(&mut head, body);
        Response { body, head }
    }

    /// Extract response body
    pub fn take_body(&mut self) -> (r: ResponseBody<B>)
        ensures
            r == old(self).body,
            final(self).body == ResponseBody::<B>::Other(Body::NoBody),
            final(self).head == old(self).head,
    {
        self.body.take_body()
    }
}

/// An HTTP response builder
///
/// This type can be used to construct an instance of `Response` through a
/// builder-like pattern.
#[derive(Debug)]
pub struct ResponseBuilder {
    pub head: Option<ResponseHead>,
    pub err: Option<HttpError>,
    pub cookies: Option<CookieJar>,
}

/// The header name that a text stands for.
pub open spec fn name_of(text: Seq<char>) -> Option<Seq<char>> {
    let b = encode_utf8(text);
    if is_name_text(b) {
        Some(key(chars(b)))
    } else {
        None
    }
}

/// A header that a builder is given: the error that it makes, if any.
pub open spec fn header_error(name: Seq<char>, value: Seq<u8>) -> Option<HttpError> {
    if name_of(name) is None {
        Some(HttpError::HeaderName)
    } else if !valid_value(value) {
        Some(HttpError::HeaderValue)
    } else {
        None
    }
}

impl ResponseBuilder {
    /// The builder still changes its head: there is one, and no error came.
    pub open spec fn is_open(self) -> bool {
        self.head is Some && self.err is None
    }

    /// The builder with other marks, where it still changes its head.
    pub open spec fn with_flags(self, other: ResponseBuilder, flags: Flags) -> bool {
        if other.is_open() {
            &&& self.err is None
            &&& self.head == Some(ResponseHead { flags, ..other.head->0 })
            &&& self.cookies == other.cookies
        } else {
            self == other
        }
    }

    /// The builder with other header fields, or with an error, where it still
    /// changes its head.
    pub open spec fn with_fields(
        self,
        other: ResponseBuilder,
        error: Option<HttpError>,
        f: Fields,
    ) -> bool {
        if other.is_open() {
            self.cookies == other.cookies && match error {
                Some(e) => self.err == Some(e) && self.head == other.head,
                None => {
                    &&& self.err is None
                    &&& self.head matches Some(h)
                    &&& h == (ResponseHead { headers: h.headers, ..other.head->0 })
                    &&& h.fields() == f
                },
            }
        } else {
            self == other
        }
    }

    /// Create response builder
    pub fn new(status: StatusCode) -> (r: ResponseBuilder)
        ensures
            r.err is None,
            r.head matches Some(h) && plain_head(h, status),
            r.cookies is None,
    {
        ResponseBuilder {
            head: Some(ResponseHead::new(status, Version::HTTP_11)),
            err: None,
            cookies: None,
        }
    }

    /// Set HTTP status code of this response.
    pub fn status(&mut self, status: StatusCode) -> (r: &mut Self)
        ensures
            *final(self) == *final(r),
            *r == if old(self).is_open() {
                ResponseBuilder {
                    head: Some(ResponseHead { status, ..old(self).head->0 }),
                    ..*old(self)
                }
            } else {
                *old(self)
            },
    {
        if self.err.is_none() {
            if let Some(head) = &mut self.head {
                head.status = status;
            }
        }
        self
    }

    fn put_header(&mut self, name: &str, value: &[u8], replace: bool)
        ensures
            final(self).with_fields(
                *old(self),
                header_error(name@, value@),
                if replace {
                    replaced(old(self).head->0.fields(), name_of(name@)->0, value@)
                } else {
                    appended(old(self).head->0.fields(), name_of(name@)->0, value@)
                },
            ),
    {
        if self.err.is_none() {
            if let Some(head) = &mut self.head {
                match header_name(name.as_bytes()) {
                    Some(k) => {
                        if is_header_value(value) {
                            proof {
                                name_from_token(encode_utf8(name@));
                            }
                            if replace {
                                map_insert(&mut head.headers, k.as_str(), value);
                            } else {
                                map_append(&mut head.headers, k.as_str(), value);
                            }
                        } else {
                            self.err = Some(HttpError::HeaderValue);
                        }
                    },
                    None => {
                        self.err = Some(HttpError::HeaderName);
                    },
                }
            }
        }
    }

    /// Append a header to existing headers.
    pub fn header(&mut self, name: &str, value: &[u8]) -> (r: &mut Self)
        ensures
            *final(self) == *final(r),
            r.with_fields(
                *old(self),
                header_error(name@, value@),
                appended(old(self).head->0.fields(), name_of(name@)->0, value@),
            ),
    {
        self.put_header(name, value, false);
        self
    }

    /// Set a header.
    pub fn set_header(&mut self, name: &str, value: &[u8]) -> (r: &mut Self)
        ensures
            *final(self) == *final(r),
            r.with_fields(
                *old(self),
                header_error(name@, value@),
                replaced(old(self).head->0.fields(), name_of(name@)->0, value@),
            ),
    {
        self.put_header(name, value, true);
        self
    }

    /// Set the custom reason for the response.
    pub fn reason(&mut self, reason: &'static str) -> (r: &mut Self)
        ensures
            *final(self) == *final(r),
            *r == if old(self).is_open() {
                ResponseBuilder {
                    head: Some(ResponseHead { reason: Some(reason), ..old(self).head->0 }),
                    ..*old(self)
                }
            } else {
                *old(self)
            },
    {
        if self.err.is_none() {
            if let Some(head) = &mut self.head {
                head.reason = Some(reason);
            }
        }
        self
    }

    fn mark(&mut self, ctype: ConnectionType)
        ensures
            final(self).with_flags(*old(self), flags_with(old(self).head->0.flags, ctype)),
    {
        if self.err.is_none() {
            if let Some(head) = &mut self.head {
                head.set_connection_type(ctype);
            }
        }
    }

    /// Set connection type to KeepAlive
    pub fn keep_alive(&mut self) -> (r: &mut Self)
        ensures
            *final(self) == *final(r),
            r.with_flags(
                *old(self),
                flags_with(old(self).head->0.flags, ConnectionType::KeepAlive),
            ),
    {
        self.mark(ConnectionType::KeepAlive);
        self
    }

    /// Set connection type to Upgrade
    pub fn upgrade(&mut self, value: &[u8]) -> (r: &mut Self)
        ensures
            *final(self) == *final(r),
            !old(self).is_open() ==> *r == *old(self),
            r.cookies == old(self).cookies,
            old(self).is_open() ==> {
                let h0 = old(self).head->0;
                let flags = flags_with(h0.flags, ConnectionType::Upgrade);
                if valid_value(value@) {
                    &&& r.err is None
                    &&& r.head matches Some(h)
                    &&& h == (ResponseHead { headers: h.headers, flags, ..h0 })
                    &&& h.fields() == replaced(h0.fields(), key("upgrade"@), value@)
                } else {
                    &&& r.err == Some(HttpError::HeaderValue)
                    &&& r.head == Some(ResponseHead { flags, ..h0 })
                }
            },
    {
        self.mark(ConnectionType::Upgrade);
        if self.err.is_none() {
            if let Some(head) = &mut self.head {
                if is_header_value(value) {
                    proof {
                        names_are_valid();
                    }
                    map_insert(&mut head.headers, "upgrade", value);
                } else {
                    self.err = Some(HttpError::HeaderValue);
                }
            }
        }
        self
    }

    /// Force close connection, even if it is marked as keep-alive
    pub fn force_close(&mut self) -> (r: &mut Self)
        ensures
            *final(self) == *final(r),
            r.with_flags(*old(self), flags_with(old(self).head->0.flags, ConnectionType::Close)),
    {
        self.mark(ConnectionType::Close);
        self
    }

    /// Disable chunked transfer encoding for HTTP/1.1 streaming responses.
    pub fn no_chunking(&mut self) -> (r: &mut Self)
        ensures
            *final(self) == *final(r),
            r.with_flags(*old(self), Flags { no_chunking: true, ..old(self).head->0.flags }),
    {
        if self.err.is_none() {
            if let Some(head) = &mut self.head {
                head.no_chunking(true);
            }
        }
        self
    }

    /// This method calls provided closure with builder reference if value is
    /// true.
    pub fn if_true<F>(&mut self, value: bool, f: F) -> (r: &mut Self) where
        F: FnOnce(&mut ResponseBuilder),

        requires
            value ==> forall|b: &mut ResponseBuilder|
                *b == *old(self) ==> #[trigger] f.requires((b,)),
        ensures
            *final(self) == *final(r),
            if value {
                exists|b: &mut ResponseBuilder| #[trigger]
                    f.ensures((b,), ()) && *b == *old(self) && *final(b) == *r
            } else {
                *r == *old(self)
            },
    {
        if value {
            f(self);
        }
        self
    }

    /// This method calls provided closure with builder reference if value is
    /// Some.
    pub fn if_some<T, F>(&mut self, value: Option<T>, f: F) -> (r: &mut Self) where
        F: FnOnce(T, &mut ResponseBuilder),

        requires
            value matches Some(val) ==> forall|b: &mut ResponseBuilder|
                *b == *old(self) ==> #[trigger] f.requires((val, b)),
        ensures
            *final(self) == *final(r),
            match value {
                Some(val) => exists|b: &mut ResponseBuilder| #[trigger]
                    f.ensures((val, b), ()) && *b == *old(self) && *final(b) == *r,
                None => *r == *old(self),
            },
    {
        if let Some(val) = value {
            f(val, self);
        }
        self
    }

    /// Set response content type
    pub fn content_type(&mut self, value: &[u8]) -> (r: &mut Self)
        ensures
            *final(self) == *final(r),
            r.with_fields(
                *old(self),
                if valid_value(value@) {
                    None
                } else {
                    Some(HttpError::HeaderValue)
                },
                replaced(old(self).head->0.fields(), key("content-type"@), value@),
            ),
    {
        if self.err.is_none() {
            if let Some(head) = &mut self.head {
                if is_header_value(value) {
                    proof {
                        names_are_valid();
                    }
                    map_insert(&mut head.headers, "content-type", value);
                } else {
                    self.err = Some(HttpError::HeaderValue);
                }
            }
        }
        self
    }

    /// Set content length
    pub fn content_length(&mut self, len: u64) -> (r: &mut Self)
        ensures
            *final(self) == *final(r),
            r.with_fields(
                *old(self),
                None,
                appended(
                    old(self).head->0.fields(),
                    key("content-length"@),
                    decimal(len as nat),
                ),
            ),
    {
        if self.err.is_none() {
            if let Some(head) = &mut self.head {
                let mut digits: Vec<u8> = Vec::new();
                write_decimal(len, &mut digits);
                proof {
                    names_are_valid();
                    crate::text::decimal_reads_back(len as nat);
                    assert(digits@ =~= decimal(len as nat));
                    assert forall|i: int| 0 <= i < digits@.len() implies
                        crate::headers::is_value_byte(#[trigger] digits@[i]) by {
                        assert(crate::text::is_digit(digits@[i]));
                    }
                }
                map_append(&mut head.headers, "content-length", digits.as_slice());
            }
        }
        self
    }

    /// Set a cookie
    pub fn cookie(&mut self, cookie: &Cookie<'static>) -> (r: &mut Self)
        ensures
            *final(self) == *final(r),
            *r == (ResponseBuilder { cookies: r.cookies, ..*old(self) }),
            r.cookies is Some,
            jar_changes(r.cookies->0) == with_cookie(changes_of(old(self).cookies), *cookie),
            jar_originals(r.cookies->0) == originals_of(old(self).cookies),
    {
        let mut jar = match self.cookies.take() {
            Some(jar) => jar,
            None => jar_new(),
        };
        jar_add(&mut jar, cookie);
        self.cookies = Some(jar);
        self
    }

    /// Remove cookie. The client is told to drop it.
    pub fn del_cookie(&mut self, cookie: &Cookie<'static>) -> (r: &mut Self)
        ensures
            *final(self) == *final(r),
            *r == (ResponseBuilder { cookies: r.cookies, ..*old(self) }),
            r.cookies is Some,
            without_change(
                changes_of(old(self).cookies),
                originals_of(old(self).cookies).insert(cookie_name(*cookie)),
                cookie_name(*cookie),
                jar_changes(r.cookies->0),
            ),
            jar_originals(r.cookies->0) == originals_of(old(self).cookies).insert(
                cookie_name(*cookie),
            ),
    {
        let mut jar = match self.cookies.take() {
            Some(jar) => jar,
            None => jar_new(),
        };
        jar_add_original(&mut jar, cookie);
        jar_remove(&mut jar, cookie);
        self.cookies = Some(jar);
        self
    }

    /// Set a body and generate `Response`.
    ///
    /// `ResponseBuilder` can not be used after this call. Where an error came
    /// before, the response is the one that the error is answered with.
    pub fn message_body<B>(&mut self, body: B) -> (r: Response<B>)
        requires
            old(self).err is Some || old(self).head is Some,
        ensures
            built(*old(self), *final(self), old(self).head->0, body, r),
    {
        if let Some(e) = self.err.take() {
            return e.error_response().into_body();
        }
        let mut head = self.head.take().unwrap();
        let ghost head0 = head;
        if let Some(jar) = &self.cookies {
            let cookies = jar_delta(jar);
            let ghost l = cookies@;
            let ghost m = jar_changes(*jar);
            let mut i: usize = 0;
            proof {
                assert(cookie_values(l.take(0)) =~= Seq::empty());
                assert(values_of(head.fields(), key("set-cookie"@)) + Seq::<Seq<u8>>::empty()
                    =~= values_of(head.fields(), key("set-cookie"@)));
                assert(with_values(
                    head.fields(),
                    key("set-cookie"@),
                    values_of(head.fields(), key("set-cookie"@)),
                ) =~= head.fields() || values_of(
                    head.fields(),
                    key("set-cookie"@),
                ).len() == 0);
            }
            while i < cookies.len()
                invariant
                    i <= cookies.len(),
                    cookies@ == l,
                    lists_changes(l, m),
                    self.head is None,
                    self.err is None,
                    self.cookies == old(self).cookies,
                    old(self).err is None,
                    old(self).head == Some(head0),
                    self.cookies == Some(*jar),
                    m == jar_changes(*jar),
                    head == (ResponseHead { headers: head.headers, ..head0 }),
                    more_values(
                        head0.fields(),
                        key("set-cookie"@),
                        cookie_values(l.take(i as int)),
                        head.fields(),
                    ),
                    forall|j: int|
                        0 <= j < i ==> expiry_fits(#[trigger] l[j]) && valid_value(
                            encode_utf8(cookie_text(l[j])),
                        ),
                decreases cookies.len() - i,
            {
                if !has_utc_expiry(&cookies[i]) {
                    proof {
                        assert(m.contains_key(cookie_name(l[i as int])));
                        assert(!texts_are_values(m));
                    }
                    return HttpError::HeaderValue.error_response().into_body();
                }
                let text = text_of_cookie(&cookies[i]);
                let ghost value = encode_utf8(text@);
                if !is_header_value(text.as_str().as_bytes()) {
                    proof {
                        assert(m.contains_key(cookie_name(l[i as int])));
                        assert(!texts_are_values(m));
                    }
                    return HttpError::HeaderValue.error_response().into_body();
                }
                proof {
                    reveal_strlit("set-cookie");
                }
                let ghost before = head.fields();
                map_append(&mut head.headers, "set-cookie", text.as_str().as_bytes());
                proof {
                    let k = key("set-cookie"@);
                    assert(cookie_values(l.take(i + 1)) =~= cookie_values(l.take(i as int)).push(
                        value,
                    ));
                    assert((values_of(head0.fields(), k) + cookie_values(l.take(i as int))).push(
                        value,
                    ) =~= values_of(head0.fields(), k) + cookie_values(l.take(i + 1)));
                    assert(head.fields().remove(k) =~= before.remove(k));
                }
                i += 1;
            }
            proof {
                assert(l.take(l.len() as int) =~= l);
                assert(texts_are_values(m)) by {
                    assert forall|k: Seq<char>| #[trigger] m.contains_key(k) implies m[k].2
                        && valid_value(encode_utf8(m[k].1)) by {
                        let j = choose|j: int|
                            0 <= j < l.len() && cookie_name(#[trigger] l[j]) == k;
                        assert(expiry_fits(l[j]) && valid_value(encode_utf8(cookie_text(l[j]))));
                    }
                }
                assert(lists_changes(l, m));
            }
        } else {
            proof {
                let l = Seq::<Cookie<'static>>::empty();
                let k = key("set-cookie"@);
                assert(lists_changes(l, no_changes()));
                assert(cookie_values(l) =~= Seq::<Seq<u8>>::empty());
                assert(values_of(head.fields(), k) + Seq::<Seq<u8>>::empty() =~= values_of(
                    head.fields(),
                    k,
                ));
                assert(more_values(head.fields(), k, cookie_values(l), head.fields()));
            }
        }
        Response { head, body: ResponseBody::Body(body) }
    }

    /// Set a body and generate `Response`.
    ///
    /// `ResponseBuilder` can not be used after this call.
    pub fn body(&mut self, body: Body) -> (r: Response<Body>)
        requires
            old(self).err is Some || old(self).head is Some,
        ensures
            built(*old(self), *final(self), old(self).head->0, body, r),
    {
        self.message_body(body)
    }

    /// Set an empty body and generate `Response`
    ///
    /// `ResponseBuilder` can not be used after this call.
    pub fn finish(&mut self) -> (r: Response<Body>)
        requires
            old(self).err is Some || old(self).head is Some,
        ensures
            built(*old(self), *final(self), old(self).head->0, Body::Empty, r),
    {
        self.message_body(Body::Empty)
    }

    /// Set a streaming body and generate `Response`.
    ///
    /// `ResponseBuilder` can not be used after this call.
    pub fn streaming(&mut self) -> (r: Response<Body>)
        requires
            old(self).err is Some || old(self).head is Some,
        ensures
            built(
                *old(self),
                *final(self),
                old(self).head->0,
                Body::Message(BodySize::Stream),
                r,
            ),
    {
        self.message_body(Body::Message(BodySize::Stream))
    }

    /// Set a json body and generate `Response`
    ///
    /// `json` is the serialized value, or the text of the error that
    /// serializing it made. A content type that was set is kept.
    /// `ResponseBuilder` can not be used after this call.
    pub fn json(&mut self, json: Result<String, String>) -> (r: Response<Body>)
        requires
            json is Ok ==> old(self).err is Some || old(self).head is Some,
        ensures
            match json {
                Err(text) => internal_error(r, text@) && *final(self) == *old(self),
                Ok(text) => exists|head: ResponseHead, body: Vec<u8>| #[trigger]
                    json_parts(*old(self), head, body, text@) && built(
                        *old(self),
                        *final(self),
                        head,
                        Body::Bytes(body),
                        r,
                    ),
            },
    {
        match json {
            Ok(text) => {
                let ghost before = *self;
                if self.err.is_none() {
                    if let Some(head) = &mut self.head {
                        if !map_contains(&head.headers, "content-type") {
                            proof {
                                names_are_valid();
                                content_types_are_values();
                            }
                            map_append(
                                &mut head.headers,
                                "content-type",
                                ascii_bytes("application/json"),
                            );
                        }
                    }
                }
                let body = Body::from_text(text.as_str());
                proof {
                    assert(json_parts(before, self.head->0, body->Bytes_0, text@));
                }
                self.message_body(body)
            },
            Err(e) => internal_error_response(e.as_str()),
        }
    }

    /// This method construct new `ResponseBuilder`
    pub fn take(&mut self) -> (r: ResponseBuilder)
        ensures
            r == *old(self),
            final(self).head is None,
            final(self).err is None,
            final(self).cookies is None,
    {
        ResponseBuilder {
            head: self.head.take(),
            err: self.err.take(),
            cookies: self.cookies.take(),
        }
    }

    /// Convert `Response` to a `ResponseBuilder`. Body get dropped. If the
    /// response has cookies, they are loaded into a jar.
    pub fn from_response<B>(res: Response<B>) -> (r: ResponseBuilder)
        ensures
            r.err is None,
            r.head == Some(res.head),
            loaded(values_of(res.head.fields(), key("set-cookie"@)), r.cookies),
    {
        let cookies = load_cookies(&res.head.headers);
        ResponseBuilder { head: Some(res.head), err: None, cookies }
    }

    /// Convert `ResponseHead` to a `ResponseBuilder`: a copy of status, version,
    /// reason, headers and chunking, without the marks of the connection. If the
    /// response has cookies, they are loaded into a jar.
    pub fn from_head(head: &ResponseHead) -> (r: ResponseBuilder)
        ensures
            r.err is None,
            r.head matches Some(h) && h.status == head.status && h.version == head.version
                && h.reason == head.reason && h.fields() == head.fields() && h.flags == (Flags {
                no_chunking: head.flags.no_chunking,
                ..no_flags()
            }) && h.headers_vec@.len() == 0,
            loaded(values_of(head.fields(), key("set-cookie"@)), r.cookies),
    {
        let mut msg = ResponseHead::new(head.status, head.version);
        msg.reason = head.reason;
        msg.headers = map_clone(&head.headers);
        msg.no_chunking(!head.chunked());
        let cookies = load_cookies(&head.headers);
        ResponseBuilder { head: Some(msg), err: None, cookies }
    }
}

/// Cookies that a builder adds or removes.
pub open spec fn changes_of(jar: Option<CookieJar>) -> Changes {
    match jar {
        Some(jar) => jar_changes(jar),
        None => no_changes(),
    }
}

/// Names of the cookies that a builder was started with.
pub open spec fn originals_of(jar: Option<CookieJar>) -> Set<Seq<char>> {
    match jar {
        Some(jar) => jar_originals(jar),
        None => no_names(),
    }
}

/// The fields with more values of a name, after those it has.
pub open spec fn more_values(
    before: Fields,
    name: Seq<char>,
    values: Seq<Seq<u8>>,
    after: Fields,
) -> bool {
    &&& after.remove(name) == before.remove(name)
    &&& values_of(after, name) == values_of(before, name) + values
}

/// The response that a builder with the given head makes of a body: the one that
/// an error is answered with, or one with the cookies in some order.
pub open spec fn built<B>(
    b: ResponseBuilder,
    after: ResponseBuilder,
    head: ResponseHead,
    body: B,
    r: Response<B>,
) -> bool {
    &&& after.err is None
    &&& after.cookies == b.cookies
    &&& match b.err {
        Some(e) => after.head == b.head && answered(e, r),
        None => {
            &&& after.head is None
            &&& if texts_are_values(changes_of(b.cookies)) {
                &&& r.body == ResponseBody::Body(body)
                &&& r.head == (ResponseHead { headers: r.head.headers, ..head })
                &&& exists|l: Seq<Cookie<'static>>| #[trigger]
                    lists_changes(l, changes_of(b.cookies)) && more_values(
                        head.fields(),
                        key("set-cookie"@),
                        cookie_values(l),
                        r.head.fields(),
                    )
            } else {
                answered(HttpError::HeaderValue, r)
            }
        },
    }
}

/// The response that an error is answered with.
pub open spec fn answered<B>(e: HttpError, r: Response<B>) -> bool {
    r.body matches ResponseBody::Other(b) && internal_error(
        Response { head: r.head, body: ResponseBody::Body(b) },
        http_error_text(e),
    )
}

/// The head and the bytes of a response with a json body: a content type that
/// was set is kept.
pub open spec fn json_parts(
    b: ResponseBuilder,
    head: ResponseHead,
    body: Vec<u8>,
    text: Seq<char>,
) -> bool {
    &&& body@ == encode_utf8(text)
    &&& b.is_open() ==> {
        let h0 = b.head->0;
        &&& head == (ResponseHead { headers: head.headers, ..h0 })
        &&& head.fields() == (if h0.fields().contains_key(key("content-type"@)) {
            h0.fields()
        } else {
            appended(h0.fields(), key("content-type"@), ascii("application/json"@))
        })
    }
}

/// Names of the cookies among header values, up to the first value that does not
/// read as text.
pub open spec fn names_from(values: Seq<Seq<u8>>, pos: int) -> Set<Seq<char>>
    decreases values.len() - pos,
{
    if pos < 0 || pos >= values.len() {
        Set::empty()
    } else {
        match next_cookie(values, pos) {
            (Some(c), next) => if pos < next <= values.len() {
                names_from(values, next).insert(c.0)
            } else {
                Set::empty()
            },
            (None, _) => Set::empty(),
        }
    }
}

/// The jar of a builder that is started with the cookies of a response.
pub open spec fn loaded(values: Seq<Seq<u8>>, jar: Option<CookieJar>) -> bool {
    &&& jar is None <==> next_cookie(values, 0).0 is None
    &&& changes_of(jar) == no_changes()
    &&& originals_of(jar) == names_from(values, 0)
}

fn load_cookies(headers: &HeaderMap) -> (r: Option<CookieJar>)
    ensures
        loaded(values_of(fields(*headers), key("set-cookie"@)), r),
{
    let mut iter = CookieIter { values: map_get_all(headers, "set-cookie"), pos: 0 };
    let ghost values = iter.all();
    assert(values =~= values_of(fields(*headers), key("set-cookie"@)));
    let mut jar: Option<CookieJar> = None;
    let ghost mut seen: Set<Seq<char>> = Set::empty();
    proof {
        assert(names_from(values, 0) =~= seen.union(names_from(values, 0)));
    }
    loop
        invariant_except_break
            iter.all() == values,
            iter.pos <= iter.values@.len(),
            names_from(values, 0) == seen.union(names_from(values, iter.pos as int)),
            changes_of(jar) == no_changes(),
            originals_of(jar) == seen,
            jar is None ==> iter.pos == 0 && seen == Set::<Seq<char>>::empty(),
            jar is Some ==> next_cookie(values, 0).0 is Some,
        ensures
            loaded(values, jar),
        decreases iter.values@.len() - iter.pos,
    {
        let ghost pos = iter.pos as int;
        match iter.next() {
            Some(c) => {
                let mut j = match jar {
                    Some(j) => j,
                    None => jar_new(),
                };
                jar_add_original(&mut j, &c);
                proof {
                    let n = cookie_name(c);
                    assert(seen.union(names_from(values, pos)) =~= seen.insert(n).union(
                        names_from(values, iter.pos as int),
                    ));
                    seen = seen.insert(n);
                }
                jar = Some(j);
            },
            None => {
                proof {
                    assert(seen.union(Set::<Seq<char>>::empty()) =~= seen);
                }
                break;
            },
        }
    }
    jar
}

} // verus!
