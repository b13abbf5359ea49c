//! Websockets client

use cookie::{Cookie, CookieJar};
use nanorand::{Rng, WyRand};

use vstd::prelude::*;
use vstd::string::StringExecFns;
use vstd::utf8::{encode_utf8, is_ascii_chars_encode_utf8};

use crate::client::builder::{
    authorization_is_name, base64_encode, base64_text, basic_auth_value, basic_value,
    bearer_auth_value, bearer_value, credentials,
};
use crate::client::error::{InvalidUrl, SendRequestError};
use crate::client::response::ClientResponse;
use crate::client::request::{head_to, is_head_to, target_of};
use crate::cookies::{
    cookie_name, cookie_value, jar_add, jar_changes, jar_delta, jar_new, lists_changes,
    name_of_cookie, no_changes, value_of_cookie, with_cookie,
};
use crate::headers::{
    appended, fields, header_name, is_header_value, is_value_byte, key, map_append, map_contains,
    map_get, map_insert, name_from_token, no_fields, replaced, valid_value, Fields,
};
use crate::helpers::{encoding_is_plain, is_reserved, percent_encode, percent_encoded};
use crate::message::{flags_with, ConnectionType, RequestHead, ResponseHead};
use crate::payload::Payload;
use crate::request::{contains_ignore_case, holds_ignore_case};
use crate::response::{header_error, name_of, HttpError};
use crate::text::{ascii, ascii_bytes, bytes_eq, copy_bytes, is_text, is_text_bytes, str_eq};
use crate::time::Millis;
use crate::types::{Method, StatusCode, UriParts};

verus! {

/// What opening a websocket can fail with.
#[derive(Debug)]
pub enum WsClientError {
    /// The request is wrong.
    Http(HttpError),
    /// The target is wrong.
    Url(InvalidUrl),
    /// The request could not be sent.
    Send(SendRequestError),
    /// Invalid response status
    InvalidResponseStatus(StatusCode),
    /// Invalid upgrade header
    InvalidUpgradeHeader,
    /// Invalid connection header
    InvalidConnectionHeader(Vec<u8>),
    /// Missing CONNECTION header
    MissingConnectionHeader,
    /// Missing SEC-WEBSOCKET-ACCEPT header
    MissingWebSocketAcceptHeader,
    /// Invalid challenge response: what was expected and what came
    InvalidChallengeResponse(Vec<u8>, Vec<u8>),
}

/// `WebSocket` connection
#[derive(Debug)]
pub struct WsRequest {
    /// Head of the request.
    pub head: RequestHead,
    /// What is wrong with it.
    pub err: Option<HttpError>,
    /// Origin of the request.
    pub origin: Option<Vec<u8>>,
    /// Supported websocket protocols.
    pub protocols: Option<String>,
    /// Address of the server.
    pub addr: Option<String>,
    /// Max frame size.
    pub max_size: usize,
    /// Frames are not masked.
    pub server_mode: bool,
    /// Cookies of the request.
    pub cookies: Option<CookieJar>,
    /// Time within which the websocket has to be open. Zero sets no limit.
    pub timeout: Millis,
}

/// A websocket request of the given target, fields and time limit, with default
/// settings.
pub open spec fn is_ws_request(
    r: WsRequest,
    url: Seq<char>,
    f: Fields,
    timeout: Millis,
) -> bool {
    &&& r.err == target_of(url).1
    &&& is_head_to(r.head, Method::GET, target_of(url).0, f)
    &&& r.origin is None
    &&& r.protocols is None
    &&& r.addr is None
    &&& r.max_size == 65_536
    &&& !r.server_mode
    &&& r.cookies is None
    &&& r.timeout == timeout
}

/// The texts one after another, with commas between them.
pub open spec fn with_commas(texts: Seq<&str>) -> Seq<char>
    decreases texts.len(),
{
    if texts.len() == 0 {
        Seq::empty()
    } else if texts.len() == 1 {
        texts[0]@
    } else {
        with_commas(texts.drop_last()) + ","@ + texts.last()@
    }
}

/// A request that differs from another in its headers, or in what is wrong with
/// it.
pub open spec fn with_header(
    r: WsRequest,
    other: WsRequest,
    error: Option<HttpError>,
    f: Fields,
) -> bool {
    match error {
        Some(e) => r == (WsRequest { err: Some(e), ..other }),
        None => {
            &&& r == (WsRequest {
                head: RequestHead { headers: r.head.headers, ..other.head },
                ..other
            })
            &&& r.head.fields() == f
        },
    }
}

impl WsRequest {
    /// Create new websocket connection, to be opened within the given time
    pub fn new(url: &str, timeout: Millis) -> (r: WsRequest)
        ensures
            is_ws_request(r, url@, no_fields(), timeout),
    {
        let (head, err) = head_to(Method::GET, url);
        WsRequest {
            head,
            err,
            origin: None,
            protocols: None,
            addr: None,
            max_size: 65_536,
            server_mode: false,
            cookies: None,
            timeout,
        }
    }

    /// Set socket address of the server.
    ///
    /// This address is used for connection. If address is not
    /// provided url's host name get resolved.
    pub fn address(self, addr: String) -> (r: WsRequest)
        ensures
            r == (WsRequest { addr: Some(addr), ..self }),
    {
        let mut r = self;
        r.addr = Some(addr);
        r
    }

    /// Set supported websocket protocols
    pub fn protocols(self, protos: &Vec<&str>) -> (r: WsRequest)
        ensures
            r.protocols matches Some(p) && p@ == with_commas(protos@),
            r == (WsRequest { protocols: r.protocols, ..self }),
    {
        let mut r = self;
        let mut text = "".to_owned();
        let mut i: usize = 0;
        proof {
            reveal_strlit("");
            assert(text@ =~= with_commas(protos@.take(0)));
        }
        while i < protos.len()
            invariant
                i <= protos.len(),
                text@ == with_commas(protos@.take(i as int)),
            decreases protos.len() - i,
        {
            let ghost before = text@;
            if i > 0 {
                text.append(",");
            }
            text.append(protos[i]);
            proof {
                let now = protos@.take(i + 1);
                assert(now.drop_last() =~= protos@.take(i as int));
                assert(now.last() == protos@[i as int]);
                if i == 0 {
                    assert(text@ =~= protos@[0]@);
                    assert(now[0] == protos@[0]);
                }
            }
            i += 1;
        }
        assert(protos@.take(protos@.len() as int) =~= protos@);
        r.protocols = Some(text);
        r
    }

    /// Set a cookie
    pub fn cookie(self, cookie: &Cookie<'static>) -> (r: WsRequest)
        ensures
            r == (WsRequest { cookies: r.cookies, ..self }),
            r.cookies is Some,
            jar_changes(r.cookies->0) == with_cookie(
                match self.cookies {
                    Some(jar) => jar_changes(jar),
                    None => no_changes(),
                },
                *cookie,
            ),
    {
        let mut r = self;
        let mut jar = match r.cookies.take() {
            Some(jar) => jar,
            None => jar_new(),
        };
        jar_add(&mut jar, cookie);
        r.cookies = Some(jar);
        r
    }

    /// Set request Origin
    pub fn origin(self, origin: &[u8]) -> (r: WsRequest)
        ensures
            if valid_value(origin@) {
                &&& r == (WsRequest { origin: r.origin, ..self })
                &&& r.origin matches Some(o)
                &&& o@ == origin@
            } else {
                r == (WsRequest { err: Some(HttpError::HeaderValue), ..self })
            },
    {
        let mut r = self;
        if is_header_value(origin) {
            r.origin = Some(copy_bytes(origin));
        } else {
            r.err = Some(HttpError::HeaderValue);
        }
        r
    }

    /// Set max frame size
    ///
    /// By default max size is set to 64kb
    pub fn max_frame_size(self, size: usize) -> (r: WsRequest)
        ensures
            r == (WsRequest { max_size: size, ..self }),
    {
        let mut r = self;
        r.max_size = size;
        r
    }

    /// Disable payload masking. By default ws client masks frame payload.
    pub fn server_mode(self) -> (r: WsRequest)
        ensures
            r == (WsRequest { server_mode: true, ..self }),
    {
        let mut r = self;
        r.server_mode = true;
        r
    }

    /// Append a header.
    ///
    /// Header gets appended to existing header.
    /// To override header use `set_header()` method.
    pub fn header(self, name: &str, value: &[u8]) -> (r: WsRequest)
        ensures
            with_header(
                r,
                self,
                header_error(name@, value@),
                appended(self.head.fields(), name_of(name@)->0, value@),
            ),
    {
        let mut r = self;
        match header_name(name.as_bytes()) {
            Some(k) => {
                if is_header_value(value) {
                    proof {
                        name_from_token(encode_utf8(name@));
                    }
                    map_append(&mut r.head.headers, k.as_str(), value);
                } else {
                    r.err = Some(HttpError::HeaderValue);
                }
            },
            None => {
                r.err = Some(HttpError::HeaderName);
            },
        }
        r
    }

    /// Insert a header, replaces existing header.
    pub fn set_header(self, name: &str, value: &[u8]) -> (r: WsRequest)
        ensures
            with_header(
                r,
                self,
                header_error(name@, value@),
                replaced(self.head.fields(), name_of(name@)->0, value@),
            ),
    {
        let mut r = self;
        match header_name(name.as_bytes()) {
            Some(k) => {
                if is_header_value(value) {
                    proof {
                        name_from_token(encode_utf8(name@));
                    }
                    map_insert(&mut r.head.headers, k.as_str(), value);
                } else {
                    r.err = Some(HttpError::HeaderValue);
                }
            },
            None => {
                r.err = Some(HttpError::HeaderName);
            },
        }
        r
    }

    /// Insert a header only if it is not yet set.
    pub fn set_header_if_none(self, name: &str, value: &[u8]) -> (r: WsRequest)
        ensures
            if name_of(name@) is Some && self.head.fields().contains_key(name_of(name@)->0) {
                r == self
            } else {
                with_header(
                    r,
                    self,
                    header_error(name@, value@),
                    replaced(self.head.fields(), name_of(name@)->0, value@),
                )
            },
    {
        let mut r = self;
        match header_name(name.as_bytes()) {
            Some(k) => {
                proof {
                    name_from_token(encode_utf8(name@));
                }
                if !map_contains(&r.head.headers, k.as_str()) {
                    if is_header_value(value) {
                        map_insert(&mut r.head.headers, k.as_str(), value);
                    } else {
                        r.err = Some(HttpError::HeaderValue);
                    }
                }
            },
            None => {
                r.err = Some(HttpError::HeaderName);
            },
        }
        r
    }

    /// Set HTTP basic authorization header
    pub fn basic_auth(self, username: &str, password: Option<&str>) -> (r: WsRequest)
        requires
            encode_utf8(credentials(username@, password)).len() <= usize::MAX / 2,
        ensures
            with_header(
                r,
                self,
                None,
                appended(
                    self.head.fields(),
                    key("authorization"@),
                    encode_utf8(basic_value(username@, password)),
                ),
            ),
    {
        let value = basic_auth_value(username, password);
        proof {
            authorization_is_name();
        }
        self.header("authorization", value.as_str().as_bytes())
    }

    /// Set HTTP bearer authentication header
    pub fn bearer_auth(self, token: &str) -> (r: WsRequest)
        ensures
            with_header(
                r,
                self,
                if valid_value(encode_utf8(bearer_value(token@))) {
                    None
                } else {
                    Some(HttpError::HeaderValue)
                },
                appended(
                    self.head.fields(),
                    key("authorization"@),
                    encode_utf8(bearer_value(token@)),
                ),
            ),
    {
        let value = bearer_auth_value(token);
        proof {
            authorization_is_name();
        }
        self.header("authorization", value.as_str().as_bytes())
    }
}

// ---------------------------------------------------------------------------
// Opening a websocket
// ---------------------------------------------------------------------------

/// What is wrong with the target of a websocket.
pub open spec fn url_error(uri: UriParts) -> Option<InvalidUrl> {
    if uri.host is None {
        Some(InvalidUrl::MissingHost)
    } else {
        match uri.scheme {
            None => Some(InvalidUrl::MissingScheme),
            Some(s) => if s == "http"@ || s == "ws"@ || s == "https"@ || s == "wss"@ {
                None
            } else {
                Some(InvalidUrl::UnknownScheme)
            },
        }
    }
}

/// A cookie as it is sent.
pub open spec fn cookie_pair(c: Cookie<'static>) -> Seq<u8> {
    percent_encoded(encode_utf8(cookie_name(c))) + seq![61u8] + percent_encoded(
        encode_utf8(cookie_value(c)),
    )
}

/// Cookies as they are sent, with separators between them.
pub open spec fn cookie_line(l: Seq<Cookie<'static>>) -> Seq<u8>
    decreases l.len(),
{
    if l.len() == 0 {
        Seq::empty()
    } else if l.len() == 1 {
        cookie_pair(l[0])
    } else {
        cookie_line(l.drop_last()) + seq![59u8, 32u8] + cookie_pair(l.last())
    }
}

/// Cookies as they are sent.
pub fn write_cookies(cookies: &Vec<Cookie<'static>>) -> (r: Vec<u8>)
    ensures
        r@ == cookie_line(cookies@),
        valid_value(r@),
{
    let mut line: Vec<u8> = Vec::new();
    let mut i: usize = 0;
    assert(line@ =~= cookie_line(cookies@.take(0)));
    while i < cookies.len()
        invariant
            i <= cookies.len(),
            line@ == cookie_line(cookies@.take(i as int)),
            valid_value(line@),
        decreases cookies.len() - i,
    {
        let ghost before = line@;
        if i > 0 {
            line.push(59);
            line.push(32);
        }
        let ghost mid = line@;
        let name = name_of_cookie(&cookies[i]);
        let value = value_of_cookie(&cookies[i]);
        percent_encode(name.as_str().as_bytes(), &mut line);
        line.push(61);
        percent_encode(value.as_str().as_bytes(), &mut line);
        proof {
            let c = cookies@[i as int];
            let now = cookies@.take(i + 1);
            let n = percent_encoded(encode_utf8(cookie_name(c)));
            let v = percent_encoded(encode_utf8(cookie_value(c)));
            encoding_is_plain(encode_utf8(cookie_name(c)));
            encoding_is_plain(encode_utf8(cookie_value(c)));
            assert(now.drop_last() =~= cookies@.take(i as int));
            assert(now.last() == c);
            assert(line@ =~= mid + cookie_pair(c));
            if i == 0 {
                assert(now[0] == c);
                assert(line@ =~= cookie_pair(c));
            } else {
                assert(mid =~= before + seq![59u8, 32u8]);
            }
            assert forall|j: int| 0 <= j < line@.len() implies is_value_byte(
                #[trigger] line@[j],
            ) by {
                let k = j - mid.len();
                if j < mid.len() {
                    assert(line@[j] == mid[j]);
                    if j < before.len() {
                        assert(mid[j] == before[j]);
                    }
                } else if k < n.len() {
                    assert(line@[j] == n[k]);
                    assert(!is_reserved(n[k]));
                } else if k > n.len() {
                    assert(line@[j] == v[k - n.len() - 1]);
                    assert(!is_reserved(v[k - n.len() - 1]));
                }
            }
        }
        i += 1;
    }
    assert(cookies@.take(cookies@.len() as int) =~= cookies@);
    line
}

/// The head of a request that opens a websocket.
pub open spec fn is_handshake(r: WsRequest, sec_key: Seq<u8>, head: RequestHead) -> bool {
    let f0 = r.head.fields();
    let f1 = if f0.contains_key(key("host"@)) {
        f0
    } else {
        replaced(f0, key("host"@), encode_utf8(r.head.uri@.host->0))
    };
    &&& head == (RequestHead {
        headers: head.headers,
        flags: flags_with(r.head.flags, ConnectionType::Upgrade),
        ..r.head
    })
    &&& match r.cookies {
        None => head.fields() == handshake_fields(r, sec_key, f1),
        Some(jar) => exists|l: Seq<Cookie<'static>>| #[trigger]
            lists_changes(l, jar_changes(jar)) && head.fields() == handshake_fields(
                r,
                sec_key,
                replaced(f1, key("cookie"@), cookie_line(l)),
            ),
    }
}

/// The fields that open a websocket, added to others.
pub open spec fn handshake_fields(r: WsRequest, sec_key: Seq<u8>, f: Fields) -> Fields {
    let f1 = match r.origin {
        Some(o) => replaced(f, key("origin"@), o@),
        None => f,
    };
    let f2 = replaced(f1, key("upgrade"@), ascii("websocket"@));
    let f3 = replaced(f2, key("sec-websocket-version"@), ascii("13"@));
    let f4 = match r.protocols {
        Some(p) => replaced(f3, key("sec-websocket-protocol"@), encode_utf8(p@)),
        None => f3,
    };
    replaced(f4, key("sec-websocket-key"@), encode_utf8(base64_text(sec_key)))
}

/// A request that was checked and is ready to be sent.
#[derive(Debug)]
pub struct Handshake {
    /// Head of the request.
    pub head: RequestHead,
    /// Address of the server.
    pub addr: Option<String>,
    /// Max frame size.
    pub max_size: usize,
    /// Frames are not masked.
    pub server_mode: bool,
    /// Key of the request, as it is sent.
    pub key: String,
    /// Time within which the websocket has to be open, where there is a limit.
    pub timeout: Option<Millis>,
}

/// The time limit that a setting stands for: zero sets none.
pub open spec fn time_limit(timeout: Millis) -> Option<Millis> {
    if timeout.0 == 0 {
        None
    } else {
        Some(timeout)
    }
}

/// `fill` of `nanorand::WyRand` on 16 bytes: they are random, so nothing is told
/// of them but their number.
#[verifier::external_body]
fn random_bytes() -> (r: Vec<u8>)
    ensures
        r@.len() == 16,
{
    let mut key = [0u8; 16];
    WyRand::new().fill(&mut key);
    key.to_vec()
}

impl WsRequest {
    /// The parts that are sent as headers can stand there.
    pub open spec fn can_send(self) -> bool {
        &&& self.head.uri@.host matches Some(h) ==> valid_value(encode_utf8(h))
        &&& self.protocols matches Some(p) ==> valid_value(encode_utf8(p@))
        &&& self.origin matches Some(o) ==> valid_value(o@)
    }

    /// Checks the request, and makes the head that opens the websocket under the
    /// given key.
    pub fn handshake(self, sec_key: &[u8]) -> (r: Result<Handshake, WsClientError>)
        requires
            self.can_send(),
            sec_key@.len() <= usize::MAX / 2,
        ensures
            self.err is None && self.head.uri@.host is Some ==> (r is Ok <==> (
            self.head.uri@.scheme == Some("http"@) || self.head.uri@.scheme == Some("https"@)
                || self.head.uri@.scheme == Some("ws"@) || self.head.uri@.scheme == Some("wss"@))),
            match self.err {
                Some(e) => r == Err::<Handshake, WsClientError>(WsClientError::Http(e)),
                None => match url_error(self.head.uri@) {
                    Some(e) => r == Err::<Handshake, WsClientError>(WsClientError::Url(e)),
                    None => {
                        &&& r matches Ok(h)
                        &&& is_handshake(self, sec_key@, h.head)
                        &&& h.addr == self.addr
                        &&& h.max_size == self.max_size
                        &&& h.server_mode == self.server_mode
                        &&& h.key@ == base64_text(sec_key@)
                        &&& h.timeout == time_limit(self.timeout)
                    },
                },
            },
    {
        if let Some(e) = self.err {
            return Err(WsClientError::Http(e));
        }
        // validate uri
        let ghost this = self;
        let WsRequest {
            head,
            err: _,
            origin,
            protocols,
            addr,
            max_size,
            server_mode,
            cookies,
            timeout,
        } = self;
        let mut head = head;
        match &head.uri.host {
            None => {
                return Err(WsClientError::Url(InvalidUrl::MissingHost));
            },
            Some(host) => {
                match &head.uri.scheme {
                    None => {
                        return Err(WsClientError::Url(InvalidUrl::MissingScheme));
                    },
                    Some(scheme) => {
                        let s = scheme.as_str();
                        if !(str_eq(s, "http") || str_eq(s, "ws") || str_eq(s, "https") || str_eq(
                            s,
                            "wss",
                        )) {
                            return Err(WsClientError::Url(InvalidUrl::UnknownScheme));
                        }
                    },
                }
                if !map_contains(&head.headers, "host") {
                    proof {
                        reveal_strlit("host");
                    }
                    map_insert(&mut head.headers, "host", host.as_str().as_bytes());
                }
            },
        }
        let ghost f1 = head.fields();
        // set cookies
        let ghost mut l: Seq<Cookie<'static>> = Seq::empty();
        if let Some(jar) = &cookies {
            let delta = jar_delta(jar);
            let line = write_cookies(&delta);
            proof {
                reveal_strlit("cookie");
                l = delta@;
            }
            map_insert(&mut head.headers, "cookie", line.as_slice());
        }
        let ghost f2 = head.fields();
        let key = add_handshake(&mut head, &origin, &protocols, sec_key);
        proof {
            assert(head.fields() == handshake_fields(this, sec_key@, f2));
            if cookies is Some {
                assert(lists_changes(l, jar_changes(cookies->0)));
            }
        }
        let timeout = if timeout.is_zero() {
            None
        } else {
            Some(timeout)
        };
        Ok(Handshake { head, addr, max_size, server_mode, key, timeout })
    }

    /// Checks the request, and makes the head that opens the websocket under a
    /// random key.
    pub fn connect(self) -> (r: Result<Handshake, WsClientError>)
        requires
            self.can_send(),
        ensures
            match self.err {
                Some(e) => r == Err::<Handshake, WsClientError>(WsClientError::Http(e)),
                None => match url_error(self.head.uri@) {
                    Some(e) => r == Err::<Handshake, WsClientError>(WsClientError::Url(e)),
                    None => {
                        &&& r matches Ok(h)
                        &&& exists|sec_key: Seq<u8>| #[trigger]
                            is_handshake(self, sec_key, h.head) && sec_key.len() == 16 && h.key@
                                == base64_text(sec_key)
                        &&& h.addr == self.addr
                        &&& h.max_size == self.max_size
                        &&& h.server_mode == self.server_mode
                        &&& h.timeout == time_limit(self.timeout)
                    },
                },
            },
    {
        let sec_key = random_bytes();
        self.handshake(sec_key.as_slice())
    }
}

fn add_handshake(
    head: &mut RequestHead,
    origin: &Option<Vec<u8>>,
    protocols: &Option<String>,
    sec_key: &[u8],
) -> (r: String)
    requires
        origin matches Some(o) ==> valid_value(o@),
        protocols matches Some(p) ==> valid_value(encode_utf8(p@)),
        sec_key@.len() <= usize::MAX / 2,
    ensures
        r@ == base64_text(sec_key@),
        *final(head) == (RequestHead {
            headers: final(head).headers,
            flags: flags_with(old(head).flags, ConnectionType::Upgrade),
            ..*old(head)
        }),
        forall|w: WsRequest|
            w.origin == *origin && w.protocols == *protocols ==> final(head).fields()
                == #[trigger] handshake_fields(w, sec_key@, old(head).fields()),
{
    // origin
    if let Some(origin) = origin {
        proof {
            reveal_strlit("origin");
        }
        map_insert(&mut head.headers, "origin", origin.as_slice());
    }
    head.set_connection_type(ConnectionType::Upgrade);
    proof {
        reveal_strlit("upgrade");
        reveal_strlit("websocket");
        reveal_strlit("sec-websocket-version");
        reveal_strlit("13");
    }
    map_insert(&mut head.headers, "upgrade", ascii_bytes("websocket"));
    map_insert(&mut head.headers, "sec-websocket-version", ascii_bytes("13"));
    if let Some(protocols) = protocols {
        proof {
            reveal_strlit("sec-websocket-protocol");
        }
        map_insert(&mut head.headers, "sec-websocket-protocol", protocols.as_str().as_bytes());
    }
    let key = base64_encode(sec_key);
    proof {
        reveal_strlit("sec-websocket-key");
        is_ascii_chars_encode_utf8(key@);
    }
    map_insert(&mut head.headers, "sec-websocket-key", key.as_str().as_bytes());
    key
}

/// The first value of a name holds a text, up to ASCII case.
pub open spec fn first_holds(f: Fields, name: Seq<char>, text: Seq<char>) -> bool {
    f.contains_key(key(name)) && is_text(f[key(name)][0]) && contains_ignore_case(
        f[key(name)][0],
        ascii(text),
    )
}

/// What is wrong with the answer to a request for a websocket. `expected` is the
/// accept value that belongs to the key of the request.
pub open spec fn is_answer_error(head: ResponseHead, expected: Seq<u8>, r: Option<WsClientError>) -> bool {
    let f = head.fields();
    if head.status.0 != 101 {
        r == Some(WsClientError::InvalidResponseStatus(head.status))
    } else if !first_holds(f, "upgrade"@, "websocket"@) {
        r == Some(WsClientError::InvalidUpgradeHeader)
    } else if !f.contains_key(key("connection"@)) {
        r == Some(WsClientError::MissingConnectionHeader)
    } else if !first_holds(f, "connection"@, "upgrade"@) {
        r matches Some(WsClientError::InvalidConnectionHeader(v)) && v@ == f[key(
            "connection"@,
        )][0]
    } else if !f.contains_key(key("sec-websocket-accept"@)) {
        r == Some(WsClientError::MissingWebSocketAcceptHeader)
    } else if f[key("sec-websocket-accept"@)][0] != expected {
        r matches Some(WsClientError::InvalidChallengeResponse(e, v)) && e@ == expected && v@
            == f[key("sec-websocket-accept"@)][0]
    } else {
        r is None
    }
}

/// Checks the answer to a request for a websocket.
pub fn verify_answer(head: &ResponseHead, expected: &[u8]) -> (r: Option<WsClientError>)
    ensures
        is_answer_error(*head, expected@, r),
{
    proof {
        reveal_strlit("websocket");
        reveal_strlit("upgrade");
    }
    // verify response
    if head.status.as_u16() != 101 {
        return Some(WsClientError::InvalidResponseStatus(head.status));
    }
    // Check for "UPGRADE" to websocket header
    let has_hdr = match map_get(&head.headers, "upgrade") {
        Some(hdr) => is_text_bytes(hdr.as_slice()) && holds_ignore_case(
            hdr.as_slice(),
            ascii_bytes("websocket"),
        ),
        None => false,
    };
    if !has_hdr {
        return Some(WsClientError::InvalidUpgradeHeader);
    }
    // Check for "CONNECTION" header
    match map_get(&head.headers, "connection") {
        Some(conn) => {
            if !(is_text_bytes(conn.as_slice()) && holds_ignore_case(
                conn.as_slice(),
                ascii_bytes("upgrade"),
            )) {
                return Some(WsClientError::InvalidConnectionHeader(conn));
            }
        },
        None => {
            return Some(WsClientError::MissingConnectionHeader);
        },
    }
    match map_get(&head.headers, "sec-websocket-accept") {
        Some(hdr_key) => {
            if !bytes_eq(hdr_key.as_slice(), expected) {
                return Some(
                    WsClientError::InvalidChallengeResponse(copy_bytes(expected), hdr_key),
                );
            }
        },
        None => {
            return Some(WsClientError::MissingWebSocketAcceptHeader);
        },
    }
    None
}

// ---------------------------------------------------------------------------
// Frames of an open websocket
// ---------------------------------------------------------------------------

/// What a websocket connection met.
#[derive(Debug)]
pub enum WsEvent {
    /// A frame came.
    Item,
    /// Output piles up, or does so no more.
    Backpressure,
    /// Nothing came for too long.
    KeepAliveTimeout,
    /// A frame could not be read or written, given by the text of the error.
    Protocol(String),
    /// The transport failed, given by the text of the error.
    Io(String),
}

/// What ends a websocket connection.
#[derive(Debug)]
pub enum WsError {
    /// Keep-alive error
    KeepAlive,
    /// Ws protocol level error
    Protocol(String),
    /// Io error
    Io(String),
}

/// What follows an event of a websocket connection: `None` hands the frame to
/// the service, `Some(Ok)` goes on without it.
pub fn on_event(ev: WsEvent) -> (r: Option<Result<(), WsError>>)
    ensures
        r == (match ev {
            WsEvent::Item => None,
            WsEvent::Backpressure => Some(Ok(())),
            WsEvent::KeepAliveTimeout => Some(Err(WsError::KeepAlive)),
            WsEvent::Protocol(e) => Some(Err(WsError::Protocol(e))),
            WsEvent::Io(e) => Some(Err(WsError::Io(e))),
        }),
{
    match ev {
        WsEvent::Item => None,
        WsEvent::Backpressure => Some(Ok(())),
        WsEvent::KeepAliveTimeout => Some(Err(WsError::KeepAlive)),
        WsEvent::Protocol(e) => Some(Err(WsError::Protocol(e))),
        WsEvent::Io(e) => Some(Err(WsError::Io(e))),
    }
}

/// An open websocket.
#[derive(Debug)]
pub struct WsConnection {
    /// The answer that opened it.
    pub res: ClientResponse,
    /// Max frame size.
    pub max_size: usize,
    /// Frames are masked.
    pub client_mode: bool,
}

impl WsConnection {
    /// Opens the websocket, where the answer to its request is right. Frames are
    /// masked unless that was disabled.
    pub fn new(head: ResponseHead, expected: &[u8], max_size: usize, server_mode: bool) -> (r: Result<
        WsConnection,
        WsClientError,
    >)
        ensures
            match r {
                Ok(con) => is_answer_error(head, expected@, None) && con == (WsConnection {
                    res: ClientResponse { head, payload: Payload::NoPayload },
                    max_size,
                    client_mode: !server_mode,
                }),
                Err(e) => is_answer_error(head, expected@, Some(e)),
            },
    {
        match verify_answer(&head, expected) {
            Some(e) => Err(e),
            None => Ok(
                WsConnection {
                    res: ClientResponse::new(head, Payload::NoPayload),
                    max_size,
                    client_mode: !server_mode,
                },
            ),
        }
    }

    /// Get reference to response
    pub fn response(&self) -> (r: &ClientResponse)
        ensures
            *r == self.res,
    {
        &self.res
    }
}

} // verus!
