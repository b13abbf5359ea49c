//! Client builder.

use base64::Engine;
use ntex_http::HeaderMap;
use vstd::prelude::*;
use vstd::string::StringExecFns;
use vstd::utf8::{encode_utf8, is_ascii_chars_encode_utf8};

use crate::client::Client;
use crate::headers::{
    appended, fields, header_name, is_header_value, key, map_append, map_new, name_from_token,
    no_fields, valid_value, Fields,
};
use crate::response::{header_error, name_of};
use crate::time::Millis;
use crate::types::chars;

verus! {

/// The digit of base64 that stands for six bits.
pub open spec fn base64_digit(n: int) -> char {
    "ABCDEFGHIJKLMNOPQRSTUVWXYZabcdefghijklmnopqrstuvwxyz0123456789+/"@[n]
}

/// Text of bytes in base64: four digits for three bytes, the last ones padded
/// with `=`.
pub open spec fn base64_text(data: Seq<u8>) -> Seq<char>
    decreases data.len(),
{
    if data.len() == 0 {
        Seq::empty()
    } else {
        let n = data.len();
        let a = data[0] as int;
        let b = if n > 1 { data[1] as int } else { 0 };
        let c = if n > 2 { data[2] as int } else { 0 };
        let digits = seq![
            base64_digit(a / 4),
            base64_digit(a % 4 * 16 + b / 16),
            if n > 1 { base64_digit(b % 16 * 4 + c / 64) } else { '=' },
            if n > 2 { base64_digit(c % 64) } else { '=' },
        ];
        if n <= 3 {
            digits
        } else {
            digits + base64_text(data.skip(3))
        }
    }
}

/// Characters of base64 text.
pub open spec fn is_base64(s: Seq<char>) -> bool {
    forall|i: int|
        0 <= i < s.len() ==> {
            let c = #[trigger] s[i];
            ('A' <= c && c <= 'Z') || ('a' <= c && c <= 'z') || ('0' <= c && c <= '9') || c == '+'
                || c == '/' || c == '='
        }
}

/// `encode` of the standard engine of `base64`: the text of the bytes, with padding,
/// made of letters, digits, `+`, `/` and `=`.
#[verifier::external_body]
pub(crate) fn base64_encode(data: &[u8]) -> (r: String)
    requires
        data@.len() <= usize::MAX / 2,
    ensures
        r@ == base64_text(data@),
        is_base64(r@),
{
    base64::engine::general_purpose::STANDARD.encode(data)
}

/// User name and password, as they are encoded.
pub open spec fn credentials(username: Seq<char>, password: Option<&str>) -> Seq<char> {
    match password {
        Some(p) => username + ":"@ + p@,
        None => username + ":"@,
    }
}

/// Value of a basic authorization header.
pub open spec fn basic_value(username: Seq<char>, password: Option<&str>) -> Seq<char> {
    "Basic "@ + base64_text(encode_utf8(credentials(username, password)))
}

/// Value of a bearer authorization header.
pub open spec fn bearer_value(token: Seq<char>) -> Seq<char> {
    "Bearer "@ + token
}

/// The value of a basic authorization header.
pub fn basic_auth_value(username: &str, password: Option<&str>) -> (r: String)
    requires
        encode_utf8(credentials(username@, password)).len() <= usize::MAX / 2,
    ensures
        r@ == basic_value(username@, password),
        valid_value(encode_utf8(r@)),
{
    let mut auth = username.to_owned();
    auth.append(":");
    if let Some(p) = password {
        auth.append(p);
    }
    let encoded = base64_encode(auth.as_str().as_bytes());
    let mut value = "Basic ".to_owned();
    value.append(encoded.as_str());
    proof {
        reveal_strlit("Basic ");
        is_ascii_chars_encode_utf8(value@);
    }
    value
}

/// The value of a bearer authorization header.
pub fn bearer_auth_value(token: &str) -> (r: String)
    ensures
        r@ == bearer_value(token@),
{
    let mut value = "Bearer ".to_owned();
    value.append(token);
    value
}

/// The name of the authorization header.
pub(crate) proof fn authorization_is_name()
    ensures
        name_of("authorization"@) == Some(key("authorization"@)),
{
    reveal_strlit("authorization");
    is_ascii_chars_encode_utf8("authorization"@);
    let b = encode_utf8("authorization"@);
    assert(chars(b) =~= "authorization"@);
}

/// Appends a header to others, unless it is none.
pub fn append_header(headers: &mut HeaderMap, name: &str, value: &[u8]) -> (r: bool)
    ensures
        r == (header_error(name@, value@) is None),
        r ==> fields(*final(headers)) == appended(
            fields(*old(headers)),
            name_of(name@)->0,
            value@,
        ),
        !r ==> *final(headers) == *old(headers),
{
    match header_name(name.as_bytes()) {
        Some(k) => {
            if is_header_value(value) {
                proof {
                    name_from_token(encode_utf8(name@));
                }
                map_append(headers, k.as_str(), value);
                true
            } else {
                false
            }
        },
        None => false,
    }
}

/// What a client sends with every request.
#[derive(Debug)]
pub struct ClientConfig {
    /// Headers that are added to every request.
    pub headers: HeaderMap,
    /// Time before a response must be received, 0 for any time.
    pub timeout: Millis,
}

/// An HTTP Client builder
///
/// This type can be used to construct an instance of `Client` through a
/// builder-like pattern.
#[derive(Debug)]
pub struct ClientBuilder {
    pub config: ClientConfig,
    pub default_headers: bool,
    pub allow_redirects: bool,
    pub max_redirects: usize,
}

/// A builder that differs from another in its headers.
pub open spec fn with_headers(b: ClientBuilder, other: ClientBuilder, f: Fields) -> bool {
    &&& b == (ClientBuilder {
        config: ClientConfig { headers: b.config.headers, ..other.config },
        ..other
    })
    &&& fields(b.config.headers) == f
}

impl Default for ClientBuilder {
    fn default() -> (r: ClientBuilder)
        ensures
            r.default_headers,
            r.allow_redirects,
            r.max_redirects == 10,
            r.config.timeout == Millis(5_000),
            fields(r.config.headers) == no_fields(),
    {
        ClientBuilder::new()
    }
}

impl ClientBuilder {
    /// A builder with default settings: requests take up to 5 seconds, up to 10
    /// redirects are followed.
    pub fn new() -> (r: ClientBuilder)
        ensures
            r.default_headers,
            r.allow_redirects,
            r.max_redirects == 10,
            r.config.timeout == Millis(5_000),
            fields(r.config.headers) == no_fields(),
    {
        ClientBuilder {
            default_headers: true,
            allow_redirects: true,
            max_redirects: 10,
            config: ClientConfig { headers: map_new(), timeout: Millis(5_000) },
        }
    }

    /// Set request timeout.
    ///
    /// Request timeout is the total time before a response must be received.
    /// Default value is 5 seconds.
    pub fn timeout(self, timeout: Millis) -> (r: ClientBuilder)
        ensures
            r == (ClientBuilder { config: ClientConfig { timeout, ..self.config }, ..self }),
    {
        let mut b = self;
        b.config.timeout = timeout;
        b
    }

    /// Disable request timeout.
    pub fn disable_timeout(self) -> (r: ClientBuilder)
        ensures
            r == (ClientBuilder {
                config: ClientConfig { timeout: Millis(0), ..self.config },
                ..self
            }),
    {
        let mut b = self;
        b.config.timeout = Millis(0);
        b
    }

    /// Do not follow redirects.
    ///
    /// Redirects are allowed by default.
    pub fn disable_redirects(self) -> (r: ClientBuilder)
        ensures
            r == (ClientBuilder { allow_redirects: false, ..self }),
    {
        let mut b = self;
        b.allow_redirects = false;
        b
    }

    /// Set max number of redirects.
    ///
    /// Max redirects is set to 10 by default.
    pub fn max_redirects(self, num: usize) -> (r: ClientBuilder)
        ensures
            r == (ClientBuilder { max_redirects: num, ..self }),
    {
        let mut b = self;
        b.max_redirects = num;
        b
    }

    /// Do not add default request headers.
    /// By default `Date` and `User-Agent` headers are set.
    pub fn no_default_headers(self) -> (r: ClientBuilder)
        ensures
            r == (ClientBuilder { default_headers: false, ..self }),
    {
        let mut b = self;
        b.default_headers = false;
        b
    }

    /// Add default header. Headers added by this method
    /// get added to every request. One that is no header is left out.
    pub fn header(self, name: &str, value: &[u8]) -> (r: ClientBuilder)
        ensures
            with_headers(
                r,
                self,
                if header_error(name@, value@) is None {
                    appended(fields(self.config.headers), name_of(name@)->0, value@)
                } else {
                    fields(self.config.headers)
                },
            ),
    {
        let mut b = self;
        let _ = append_header(&mut b.config.headers, name, value);
        b
    }

    /// Set client wide HTTP basic authorization header
    pub fn basic_auth(self, username: &str, password: Option<&str>) -> (r: ClientBuilder)
        requires
            encode_utf8(credentials(username@, password)).len() <= usize::MAX / 2,
        ensures
            with_headers(
                r,
                self,
                appended(
                    fields(self.config.headers),
                    key("authorization"@),
                    encode_utf8(basic_value(username@, password)),
                ),
            ),
    {
        let value = basic_auth_value(username, password);
        proof {
            authorization_is_name();
        }
        self.header("authorization", value.as_str().as_bytes())
    }

    /// Set client wide HTTP bearer authentication header
    pub fn bearer_auth(self, token: &str) -> (r: ClientBuilder)
        ensures
            with_headers(
                r,
                self,
                if valid_value(encode_utf8(bearer_value(token@))) {
                    appended(
                        fields(self.config.headers),
                        key("authorization"@),
                        encode_utf8(bearer_value(token@)),
                    )
                } else {
                    fields(self.config.headers)
                },
            ),
    {
        let value = bearer_auth_value(token);
        proof {
            authorization_is_name();
        }
        self.header("authorization", value.as_str().as_bytes())
    }

    /// Finish build process and create `Client` instance.
    pub fn finish(self) -> (r: Client)
        ensures
            r.config == self.config,
    {
        Client { config: self.config }
    }
}

} // verus!
