//! Helpers for tests of services.

use cookie::{Cookie, CookieJar};
use ntex_http::HeaderMap;
use vstd::prelude::*;
use vstd::utf8::encode_utf8;

use crate::client::request::{is_request_to, ClientRequest};
use crate::client::ws::{cookie_line, first_holds, write_cookies};
use crate::client::Client;
use crate::cookies::{
    jar_add, jar_changes, jar_delta, jar_new, lists_changes, no_changes, with_cookie,
};
use crate::headers::{
    appended, fields, header_name, key, map_append, map_get, map_insert, map_new, name_from_token,
    no_fields, replaced,
};
use crate::message::{no_flags, Flags};
use crate::payload::Payload;
use crate::request::{holds_ignore_case, Request};
use crate::response::{header_error, name_of};
use crate::text::{ascii_bytes, decimal, is_text_bytes};
use crate::types::{chars, root_uri, Method, Uri, Version};

verus! {

/// Parts of a request that is put together.
#[derive(Debug)]
pub struct Inner {
    pub version: Version,
    pub method: Method,
    pub uri: Uri,
    pub headers: HeaderMap,
    pub cookies: CookieJar,
    /// Bytes of the payload.
    pub payload: Option<Vec<u8>>,
}

/// Test `Request` builder
#[derive(Debug)]
pub struct TestRequest {
    pub inner: Option<Inner>,
}

impl Default for TestRequest {
    fn default() -> (r: TestRequest)
        ensures
            r.inner matches Some(i) && i.version == Version::HTTP_11 && i.method == Method::GET
                && i.uri@ == root_uri() && fields(i.headers) == no_fields() && jar_changes(
                i.cookies,
            ) == no_changes() && i.payload is None,
    {
        TestRequest {
            inner: Some(
                Inner {
                    method: Method::GET,
                    uri: Uri::default(),
                    version: Version::HTTP_11,
                    headers: map_new(),
                    cookies: jar_new(),
                    payload: None,
                },
            ),
        }
    }
}

/// The request that parts make: the marks follow from its headers.
pub open spec fn is_finished(i: Inner, r: Request) -> bool {
    let f = fields(i.headers);
    &&& r.payload == Payload::H1
    &&& r.head.uri == i.uri
    &&& r.head.method == i.method
    &&& r.head.version == i.version
    &&& r.head.id == 0
    &&& r.head.headers_vec@.len() == 0
    &&& r.head.flags == (if first_holds(f, "connection"@, "upgrade"@) {
        Flags { upgrade: true, ..no_flags() }
    } else {
        no_flags()
    })
    &&& exists|l: Seq<Cookie<'static>>| #[trigger]
        lists_changes(l, jar_changes(i.cookies)) && r.head.fields() == (if l.len() == 0 {
            f
        } else {
            replaced(f, key("cookie"@), cookie_line(l))
        })
}

impl TestRequest {
    /// Create `TestRequest` and set request uri.
    pub fn with_uri(uri: Uri) -> (r: TestRequest)
        ensures
            r.inner matches Some(i) && i.version == Version::HTTP_11 && i.method == Method::GET
                && i.uri == uri && fields(i.headers) == no_fields() && jar_changes(i.cookies)
                == no_changes() && i.payload is None,
    {
        let mut r = TestRequest::default();
        if let Some(i) = &mut r.inner {
            i.uri = uri;
        }
        r
    }

    /// Create `TestRequest` and set header.
    pub fn with_header(name: &str, value: &[u8]) -> (r: TestRequest)
        requires
            header_error(name@, value@) is None,
        ensures
            r.inner matches Some(i) && i.version == Version::HTTP_11 && i.method == Method::GET
                && i.uri@ == root_uri() && fields(i.headers) == appended(
                no_fields(),
                name_of(name@)->0,
                value@,
            ) && jar_changes(i.cookies) == no_changes() && i.payload is None,
    {
        let mut r = TestRequest::default();
        let _ = r.header(name, value);
        r
    }

    /// Set HTTP version of this request.
    pub fn version(&mut self, ver: Version) -> (r: &mut Self)
        requires
            old(self).inner is Some,
        ensures
            *final(self) == *final(r),
            r.inner == Some(Inner { version: ver, ..old(self).inner->0 }),
    {
        if let Some(i) = &mut self.inner {
            i.version = ver;
        }
        self
    }

    /// Set HTTP method of this request.
    pub fn method(&mut self, meth: Method) -> (r: &mut Self)
        requires
            old(self).inner is Some,
        ensures
            *final(self) == *final(r),
            r.inner == Some(Inner { method: meth, ..old(self).inner->0 }),
    {
        if let Some(i) = &mut self.inner {
            i.method = meth;
        }
        self
    }

    /// Set HTTP Uri of this request.
    pub fn uri(&mut self, uri: Uri) -> (r: &mut Self)
        requires
            old(self).inner is Some,
        ensures
            *final(self) == *final(r),
            r.inner == Some(Inner { uri, ..old(self).inner->0 }),
    {
        if let Some(i) = &mut self.inner {
            i.uri = uri;
        }
        self
    }

    /// Set a header.
    pub fn header(&mut self, name: &str, value: &[u8]) -> (r: &mut Self)
        requires
            old(self).inner is Some,
            header_error(name@, value@) is None,
        ensures
            *final(self) == *final(r),
            r.inner matches Some(i) && i == (Inner { headers: i.headers, ..old(self).inner->0 })
                && fields(i.headers) == appended(
                fields(old(self).inner->0.headers),
                name_of(name@)->0,
                value@,
            ),
    {
        if let Some(i) = &mut self.inner {
            if let Some(k) = header_name(name.as_bytes()) {
                proof {
                    name_from_token(encode_utf8(name@));
                }
                map_append(&mut i.headers, k.as_str(), value);
            }
        }
        self
    }

    /// Set cookie for this request.
    pub fn cookie(&mut self, cookie: &Cookie<'static>) -> (r: &mut Self)
        requires
            old(self).inner is Some,
        ensures
            *final(self) == *final(r),
            r.inner matches Some(i) && i == (Inner { cookies: i.cookies, ..old(self).inner->0 })
                && jar_changes(i.cookies) == with_cookie(
                jar_changes(old(self).inner->0.cookies),
                *cookie,
            ),
    {
        if let Some(i) = &mut self.inner {
            jar_add(&mut i.cookies, cookie);
        }
        self
    }

    /// Set request payload.
    pub fn set_payload(&mut self, data: Vec<u8>) -> (r: &mut Self)
        requires
            old(self).inner is Some,
        ensures
            *final(self) == *final(r),
            r.inner == Some(Inner { payload: Some(data), ..old(self).inner->0 }),
    {
        if let Some(i) = &mut self.inner {
            i.payload = Some(data);
        }
        self
    }

    /// Take test request.
    pub fn take(&mut self) -> (r: TestRequest)
        ensures
            r == *old(self),
            final(self).inner is None,
    {
        TestRequest { inner: self.inner.take() }
    }

    /// Complete request creation and generate `Request` instance, and the bytes
    /// of its payload.
    pub fn finish(&mut self) -> (r: (Request, Option<Vec<u8>>))
        requires
            old(self).inner is Some,
        ensures
            final(self).inner is None,
            is_finished(old(self).inner->0, r.0),
            r.1 == old(self).inner->0.payload,
    {
        let Inner { version, method, uri, headers, cookies, payload } = self.inner.take().unwrap();
        let mut req = Request::with_payload(Payload::H1);
        req.head.uri = uri;
        req.head.method = method;
        req.head.version = version;
        req.head.headers = headers;
        if let Some(conn) = map_get(&req.head.headers, "connection") {
            if is_text_bytes(conn.as_slice()) {
                proof {
                    reveal_strlit("upgrade");
                }
                if holds_ignore_case(conn.as_slice(), ascii_bytes("upgrade")) {
                    req.head.set_upgrade();
                }
            }
        }
        let delta = jar_delta(&cookies);
        let ghost l = delta@;
        assert(lists_changes(l, jar_changes(cookies)));
        if delta.len() != 0 {
            let line = write_cookies(&delta);
            proof {
                reveal_strlit("cookie");
            }
            map_insert(&mut req.head.headers, "cookie", line.as_slice());
        }
        (req, payload)
    }
}

/// One decimal digit.
fn digit_text(d: u64) -> (r: &'static str)
    requires
        d < 10,
    ensures
        r@ == seq![(48 + d) as u8 as char],
{
    proof {
        reveal_strlit("0");
        reveal_strlit("1");
        reveal_strlit("2");
        reveal_strlit("3");
        reveal_strlit("4");
        reveal_strlit("5");
        reveal_strlit("6");
        reveal_strlit("7");
        reveal_strlit("8");
        reveal_strlit("9");
    }
    let r = match d {
        0 => "0",
        1 => "1",
        2 => "2",
        3 => "3",
        4 => "4",
        5 => "5",
        6 => "6",
        7 => "7",
        8 => "8",
        _ => "9",
    };
    assert(r@ =~= seq![(48 + d) as u8 as char]);
    r
}

/// A number as decimal text.
fn decimal_text(n: u64) -> (r: String)
    ensures
        r@ == chars(decimal(n as nat)),
    decreases n,
{
    if n < 10 {
        let r = digit_text(n).to_owned();
        assert(r@ =~= chars(decimal(n as nat)));
        r
    } else {
        let mut r = decimal_text(n / 10);
        r.append(digit_text(n % 10));
        assert(r@ =~= chars(decimal(n as nat)));
        r
    }
}

/// The address of a path on a server of this machine.
pub open spec fn local_url(scheme: Seq<char>, port: u16, uri: Seq<char>) -> Seq<char> {
    scheme + "://localhost:"@ + chars(decimal(port as nat)) + (if uri.len() > 0 && uri[0] == '/' {
        uri
    } else {
        "/"@ + uri
    })
}

/// Test server controller
#[derive(Debug)]
pub struct TestServer {
    /// Port of the server.
    pub port: u16,
    /// Client of the server.
    pub client: Client,
}

impl TestServer {
    fn address(&self, scheme: &str, uri: &str) -> (r: String)
        ensures
            r@ == local_url(scheme@, self.port, uri@),
    {
        let mut s = scheme.to_owned();
        s.append("://localhost:");
        s.append(decimal_text(self.port as u64).as_str());
        if !(uri.unicode_len() > 0 && uri.get_char(0) == '/') {
            s.append("/");
        }
        s.append(uri);
        assert(s@ =~= local_url(scheme@, self.port, uri@));
        s
    }

    /// Construct test server url
    pub fn url(&self, uri: &str) -> (r: String)
        ensures
            r@ == local_url("http"@, self.port, uri@),
    {
        self.address("http", uri)
    }

    /// Construct test https server url
    pub fn surl(&self, uri: &str) -> (r: String)
        ensures
            r@ == local_url("https"@, self.port, uri@),
    {
        self.address("https", uri)
    }

    /// Create client request
    pub fn request(&self, method: Method, path: &str) -> (r: ClientRequest)
        ensures
            is_request_to(
                r,
                method,
                local_url("http"@, self.port, path@),
                fields(self.client.config.headers),
            ),
    {
        let url = self.url(path);
        self.client.request(method, url.as_str())
    }

    /// Create secure client request
    pub fn srequest(&self, method: Method, path: &str) -> (r: ClientRequest)
        ensures
            is_request_to(
                r,
                method,
                local_url("https"@, self.port, path@),
                fields(self.client.config.headers),
            ),
    {
        let url = self.surl(path);
        self.client.request(method, url.as_str())
    }
}

} // verus!
