//! Protocol version, request method, status code and request target.

use vstd::prelude::*;

use crate::text::str_eq;

verus! {

/// HTTP protocol version.
#[allow(non_camel_case_types)]
#[derive(Copy, Clone, Debug, PartialEq, Eq, Structural)]
pub enum Version {
    HTTP_09,
    HTTP_10,
    HTTP_11,
    HTTP_2,
    HTTP_3,
}

/// Text of a version.
pub open spec fn version_text(v: Version) -> Seq<char> {
    match v {
        Version::HTTP_09 => "HTTP/0.9"@,
        Version::HTTP_10 => "HTTP/1.0"@,
        Version::HTTP_11 => "HTTP/1.1"@,
        Version::HTTP_2 => "HTTP/2.0"@,
        Version::HTTP_3 => "HTTP/3.0"@,
    }
}

impl Version {
    /// Text of the version.
    pub fn as_str(self) -> (r: &'static str)
        ensures
            r@ == version_text(self),
    {
        match self {
            Version::HTTP_09 => "HTTP/0.9",
            Version::HTTP_10 => "HTTP/1.0",
            Version::HTTP_11 => "HTTP/1.1",
            Version::HTTP_2 => "HTTP/2.0",
            Version::HTTP_3 => "HTTP/3.0",
        }
    }

    /// Position in the order of versions.
    pub open spec fn rank(self) -> int {
        match self {
            Version::HTTP_09 => 0,
            Version::HTTP_10 => 1,
            Version::HTTP_11 => 2,
            Version::HTTP_2 => 3,
            Version::HTTP_3 => 4,
        }
    }

    /// Whether the version precedes HTTP/1.1.
    pub fn before_http_11(self) -> (r: bool)
        ensures
            r == (self.rank() < Version::HTTP_11.rank()),
    {
        match self {
            Version::HTTP_09 | Version::HTTP_10 => true,
            _ => false,
        }
    }
}

/// HTTP request method.
#[allow(clippy::upper_case_acronyms)]
#[derive(Clone, Debug, PartialEq, Eq)]
pub enum Method {
    OPTIONS,
    GET,
    POST,
    PUT,
    DELETE,
    HEAD,
    TRACE,
    CONNECT,
    PATCH,
    /// Any other method, by its name.
    Extension(String),
}

impl Method {
    /// Name of the method.
    pub open spec fn name(self) -> Seq<char> {
        match self {
            Method::OPTIONS => "OPTIONS"@,
            Method::GET => "GET"@,
            Method::POST => "POST"@,
            Method::PUT => "PUT"@,
            Method::DELETE => "DELETE"@,
            Method::HEAD => "HEAD"@,
            Method::TRACE => "TRACE"@,
            Method::CONNECT => "CONNECT"@,
            Method::PATCH => "PATCH"@,
            Method::Extension(s) => s@,
        }
    }

    /// The method with a given name.
    pub open spec fn named(m: Method, name: Seq<char>) -> bool {
        &&& m.name() == name
        &&& m is Extension ==> name != "OPTIONS"@ && name != "GET"@ && name != "POST"@ && name
            != "PUT"@ && name != "DELETE"@ && name != "HEAD"@ && name != "TRACE"@ && name
            != "CONNECT"@ && name != "PATCH"@
    }

    /// Name of the method.
    pub fn as_str(&self) -> (r: &str)
        ensures
            r@ == self.name(),
    {
        match self {
            Method::OPTIONS => "OPTIONS",
            Method::GET => "GET",
            Method::POST => "POST",
            Method::PUT => "PUT",
            Method::DELETE => "DELETE",
            Method::HEAD => "HEAD",
            Method::TRACE => "TRACE",
            Method::CONNECT => "CONNECT",
            Method::PATCH => "PATCH",
            Method::Extension(s) => s.as_str(),
        }
    }

    /// The method with the given name.
    pub fn from_name(name: String) -> (r: Method)
        ensures
            Method::named(r, name@),
    {
        let s = name.as_str();
        if str_eq(s, "OPTIONS") {
            Method::OPTIONS
        } else if str_eq(s, "GET") {
            Method::GET
        } else if str_eq(s, "POST") {
            Method::POST
        } else if str_eq(s, "PUT") {
            Method::PUT
        } else if str_eq(s, "DELETE") {
            Method::DELETE
        } else if str_eq(s, "HEAD") {
            Method::HEAD
        } else if str_eq(s, "TRACE") {
            Method::TRACE
        } else if str_eq(s, "CONNECT") {
            Method::CONNECT
        } else if str_eq(s, "PATCH") {
            Method::PATCH
        } else {
            Method::Extension(name)
        }
    }

    /// Reads a method name, `None` where it is empty or holds a byte that is
    /// not a token byte.
    pub fn from_bytes(src: &[u8]) -> (r: Option<Method>)
        ensures
            r is Some <==> is_token_text(src@),
            r matches Some(m) ==> Method::named(m, chars(src@)),
    {
        match method_name(src) {
            Some(name) => Some(Method::from_name(name)),
            None => None,
        }
    }

    /// Whether the method is `POST`.
    pub fn is_post(&self) -> (r: bool)
        ensures
            r == (self is POST),
    {
        matches!(self, Method::POST)
    }

    /// Whether the method is `CONNECT`.
    pub fn is_connect(&self) -> (r: bool)
        ensures
            r == (self is CONNECT),
    {
        matches!(self, Method::CONNECT)
    }

    /// Whether the method is `HEAD`.
    pub fn is_head(&self) -> (r: bool)
        ensures
            r == (self is HEAD),
    {
        matches!(self, Method::HEAD)
    }
}

/// A copy of a method.
pub fn copy_method(m: &Method) -> (r: Method)
    ensures
        r == *m,
{
    match m {
        Method::OPTIONS => Method::OPTIONS,
        Method::GET => Method::GET,
        Method::POST => Method::POST,
        Method::PUT => Method::PUT,
        Method::DELETE => Method::DELETE,
        Method::HEAD => Method::HEAD,
        Method::TRACE => Method::TRACE,
        Method::CONNECT => Method::CONNECT,
        Method::PATCH => Method::PATCH,
        Method::Extension(s) => Method::Extension(s.clone()),
    }
}

/// Bytes of a token: letters, digits and ``!#$%&'*+-.^_`|~``.
pub open spec fn is_token(b: int) -> bool {
    ||| 48 <= b <= 57
    ||| 65 <= b <= 90
    ||| 94 <= b <= 122
    ||| 35 <= b <= 39
    ||| b == 33 || b == 42 || b == 43 || b == 45 || b == 46 || b == 124 || b == 126
}

/// A non-empty run of token bytes.
pub open spec fn is_token_text(s: Seq<u8>) -> bool {
    s.len() > 0 && forall|i: int| 0 <= i < s.len() ==> is_token(#[trigger] s[i] as int)
}

/// The characters with the given codes.
pub open spec fn chars(s: Seq<u8>) -> Seq<char> {
    Seq::new(s.len(), |i: int| s[i] as char)
}

/// `ntex_http::Method::from_bytes`: a method name is accepted where it is a
/// non-empty run of token bytes, and is kept as it is.
#[verifier::external_body]
fn method_name(src: &[u8]) -> (r: Option<String>)
    ensures
        r is Some <==> is_token_text(src@),
        r matches Some(s) ==> s@ == chars(src@),
{
    match ntex_http::Method::from_bytes(src) {
        Ok(m) => Some(m.as_str().to_string()),
        Err(_) => None,
    }
}

/// HTTP status code.
#[derive(Copy, Clone, Debug, PartialEq, Eq, Structural)]
pub struct StatusCode(pub u16);

impl StatusCode {
    /// Reads a status code, `None` outside of 100 to 999.
    pub fn from_u16(code: u16) -> (r: Option<StatusCode>)
        ensures
            r is Some <==> 100 <= code <= 999,
            r matches Some(s) ==> s.0 == code,
    {
        if 100 <= code && code <= 999 {
            Some(StatusCode(code))
        } else {
            None
        }
    }

    /// The code as a number.
    pub fn as_u16(self) -> (r: u16)
        ensures
            r == self.0,
    {
        self.0
    }
}

/// Contents of a request target.
#[verifier::ext_equal]
pub struct UriParts {
    pub scheme: Option<Seq<char>>,
    pub authority: Option<Seq<char>>,
    pub host: Option<Seq<char>>,
    pub port: Option<u16>,
    pub path: Seq<char>,
    pub query: Option<Seq<char>>,
    pub path_and_query: Option<Seq<char>>,
}

/// Text in an option.
pub open spec fn opt_text(s: Option<String>) -> Option<Seq<char>> {
    match s {
        Some(s) => Some(s@),
        None => None,
    }
}

/// A request target, by its parts.
#[derive(Clone, Debug)]
pub struct Uri {
    pub scheme: Option<String>,
    pub authority: Option<String>,
    pub host: Option<String>,
    pub port: Option<u16>,
    pub path: String,
    pub query: Option<String>,
    pub path_and_query: Option<String>,
}

impl View for Uri {
    type V = UriParts;

    open spec fn view(&self) -> UriParts {
        UriParts {
            scheme: opt_text(self.scheme),
            authority: opt_text(self.authority),
            host: opt_text(self.host),
            port: self.port,
            path: self.path@,
            query: opt_text(self.query),
            path_and_query: opt_text(self.path_and_query),
        }
    }
}

/// The target `/`.
pub open spec fn root_uri() -> UriParts {
    UriParts {
        scheme: None,
        authority: None,
        host: None,
        port: None,
        path: "/"@,
        query: None,
        path_and_query: Some("/"@),
    }
}

impl Default for Uri {
    fn default() -> (r: Uri)
        ensures
            r@ == root_uri(),
    {
        Uri {
            scheme: None,
            authority: None,
            host: None,
            port: None,
            path: "/".to_owned(),
            query: None,
            path_and_query: Some("/".to_owned()),
        }
    }
}

/// What `ntex_http::Uri` makes of the bytes of a request target: its parts, or
/// the text of the error.
pub uninterp spec fn parsed_uri(src: Seq<u8>) -> Result<UriParts, Seq<char>>;

/// View of the outcome of reading a request target.
pub open spec fn uri_outcome(r: Result<Uri, String>) -> Result<UriParts, Seq<char>> {
    match r {
        Ok(u) => Ok(u@),
        Err(e) => Err(e@),
    }
}

/// `ntex_http::Uri::try_from` on bytes. The outcome depends on the bytes alone.
#[verifier::external_body]
pub(crate) fn parse_uri(src: &[u8]) -> (r: Result<Uri, String>)
    ensures
        uri_outcome(r) == parsed_uri(src@),
{
    match ntex_http::Uri::try_from(src) {
        Ok(u) => Ok(Uri {
            scheme: u.scheme_str().map(str::to_string),
            authority: u.authority().map(|a| a.as_str().to_string()),
            host: u.host().map(str::to_string),
            port: u.port_u16(),
            path: u.path().to_string(),
            query: u.query().map(str::to_string),
            path_and_query: u.path_and_query().map(|p| p.as_str().to_string()),
        }),
        Err(e) => Err(e.to_string()),
    }
}

impl Uri {
    /// Reads a request target.
    pub fn from_bytes(src: &[u8]) -> (r: Result<Uri, String>)
        ensures
            uri_outcome(r) == parsed_uri(src@),
    {
        parse_uri(src)
    }

    /// Path of the target.
    pub fn path(&self) -> (r: &str)
        ensures
            r@ == self@.path,
    {
        self.path.as_str()
    }

    /// Query of the target.
    pub fn query(&self) -> (r: Option<&str>)
        ensures
            match r {
                Some(q) => self@.query == Some(q@),
                None => self@.query is None,
            },
    {
        match &self.query {
            Some(q) => Some(q.as_str()),
            None => None,
        }
    }
}

} // verus!
