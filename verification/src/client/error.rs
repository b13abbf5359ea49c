//! Http client errors

use vstd::prelude::*;
use vstd::string::StringExecFns;

use crate::error::{
    copy_decode_error, copy_io_error, DecodeError, EncodeError, H2Error, IoError, PayloadError,
};
use crate::response::{http_error_text, HttpError, ResponseError};

verus! {

fn joined(a: &str, b: &str) -> (r: String)
    ensures
        r@ == a@ + b@,
{
    let mut s = a.to_owned();
    s.append(b);
    s
}

/// A set of errors that can occur during parsing json payloads
#[derive(Debug)]
pub enum JsonPayloadError {
    /// Content type error
    ContentType,
    /// Deserialize error, given by its text
    Deserialize(String),
    /// Payload error
    Payload(PayloadError),
}

impl JsonPayloadError {
    /// Text of the error.
    pub open spec fn text(self) -> Seq<char> {
        match self {
            JsonPayloadError::ContentType => "Content type error"@,
            JsonPayloadError::Deserialize(e) => "Json deserialize error: "@ + e@,
            JsonPayloadError::Payload(e) => "Error that occur during reading payload: "@
                + e.text(),
        }
    }

    /// Text of the error.
    pub fn message(&self) -> (r: String)
        ensures
            r@ == self.text(),
    {
        match self {
            JsonPayloadError::ContentType => "Content type error".to_owned(),
            JsonPayloadError::Deserialize(e) => joined("Json deserialize error: ", e.as_str()),
            JsonPayloadError::Payload(e) => joined(
                "Error that occur during reading payload: ",
                e.message().as_str(),
            ),
        }
    }
}

/// A set of errors that can occur while connecting to an HTTP host
#[derive(Debug)]
pub enum ConnectError {
    /// SSL feature is not enabled
    SslIsNotSupported,
    /// SSL error, given by its text
    SslError(String),
    /// SSL Handshake error
    SslHandshakeError(String),
    /// Failed to resolve the hostname
    Resolver(IoError),
    /// No dns records
    NoRecords,
    /// Connecting took too long
    Timeout,
    /// Connector has been disconnected
    Disconnected(Option<IoError>),
    /// Unresolved host name
    Unresolved,
}

impl ConnectError {
    /// Text of the error.
    pub open spec fn text(self) -> Seq<char> {
        match self {
            ConnectError::SslIsNotSupported => "SSL is not supported"@,
            ConnectError::SslError(e) => e@,
            ConnectError::SslHandshakeError(e) => e@,
            ConnectError::Resolver(e) => "Failed resolving hostname: "@ + e.text@,
            ConnectError::NoRecords => "No dns records found for the input"@,
            ConnectError::Timeout => "Timeout while establishing connection"@,
            ConnectError::Disconnected(_) => "Connector has been disconnected"@,
            ConnectError::Unresolved =>
                "Connector received `Connect` method with unresolved host"@,
        }
    }

    /// Text of the error.
    pub fn message(&self) -> (r: String)
        ensures
            r@ == self.text(),
    {
        match self {
            ConnectError::SslIsNotSupported => "SSL is not supported".to_owned(),
            ConnectError::SslError(e) => e.clone(),
            ConnectError::SslHandshakeError(e) => e.clone(),
            ConnectError::Resolver(e) => joined("Failed resolving hostname: ", e.text.as_str()),
            ConnectError::NoRecords => "No dns records found for the input".to_owned(),
            ConnectError::Timeout => "Timeout while establishing connection".to_owned(),
            ConnectError::Disconnected(_) => "Connector has been disconnected".to_owned(),
            ConnectError::Unresolved =>
                "Connector received `Connect` method with unresolved host".to_owned(),
        }
    }

    /// A copy of the error.
    pub fn copy(&self) -> (r: ConnectError)
        ensures
            r == *self,
    {
        match self {
            ConnectError::SslIsNotSupported => ConnectError::SslIsNotSupported,
            ConnectError::SslError(e) => ConnectError::SslError(e.clone()),
            ConnectError::SslHandshakeError(e) => ConnectError::SslHandshakeError(e.clone()),
            ConnectError::Resolver(e) => ConnectError::Resolver(copy_io_error(e)),
            ConnectError::NoRecords => ConnectError::NoRecords,
            ConnectError::Timeout => ConnectError::Timeout,
            ConnectError::Disconnected(e) => match e {
                Some(e) => ConnectError::Disconnected(Some(copy_io_error(e))),
                None => ConnectError::Disconnected(None),
            },
            ConnectError::Unresolved => ConnectError::Unresolved,
        }
    }
}

/// What opening a transport can fail with.
#[derive(Debug)]
pub enum TransportError {
    /// Failed to resolve the hostname
    Resolver(IoError),
    /// No dns records
    NoRecords,
    /// Invalid input
    InvalidInput,
    /// Unresolved host name
    Unresolved,
    /// Connection io error
    Io(IoError),
}

/// The connect error that a transport error stands for. Invalid input has none.
pub fn connect_error(err: TransportError) -> (r: ConnectError)
    requires
        !(err is InvalidInput),
    ensures
        r == (match err {
            TransportError::Resolver(e) => ConnectError::Resolver(e),
            TransportError::NoRecords => ConnectError::NoRecords,
            TransportError::InvalidInput | TransportError::Unresolved => ConnectError::Unresolved,
            TransportError::Io(e) => ConnectError::Disconnected(Some(e)),
        }),
{
    match err {
        TransportError::Resolver(e) => ConnectError::Resolver(e),
        TransportError::NoRecords => ConnectError::NoRecords,
        TransportError::InvalidInput | TransportError::Unresolved => ConnectError::Unresolved,
        TransportError::Io(e) => ConnectError::Disconnected(Some(e)),
    }
}

/// What is wrong with a target.
#[derive(Debug, Copy, Clone, PartialEq, Eq, Structural)]
pub enum InvalidUrl {
    /// Missing url scheme
    MissingScheme,
    /// Unknown url scheme
    UnknownScheme,
    /// Missing host name
    MissingHost,
    /// Url parse error
    Http(HttpError),
}

impl InvalidUrl {
    /// Text of the error.
    pub open spec fn text(self) -> Seq<char> {
        match self {
            InvalidUrl::MissingScheme => "Missing url scheme"@,
            InvalidUrl::UnknownScheme => "Unknown url scheme"@,
            InvalidUrl::MissingHost => "Missing host name"@,
            InvalidUrl::Http(e) => "Url parse error: "@ + http_error_text(e),
        }
    }

    /// Text of the error.
    pub fn message(&self) -> (r: String)
        ensures
            r@ == self.text(),
    {
        match self {
            InvalidUrl::MissingScheme => "Missing url scheme".to_owned(),
            InvalidUrl::UnknownScheme => "Unknown url scheme".to_owned(),
            InvalidUrl::MissingHost => "Missing host name".to_owned(),
            InvalidUrl::Http(e) => joined("Url parse error: ", e.error_text().as_str()),
        }
    }
}

/// A set of errors that can occur during request sending and response reading
#[derive(Debug)]
pub enum SendRequestError {
    /// Invalid URL
    Url(InvalidUrl),
    /// Failed to connect to host
    Connect(ConnectError),
    /// Error sending request
    Send(IoError),
    /// Error encoding request
    Request(EncodeError),
    /// Error parsing response
    Response(DecodeError),
    /// Http error
    Http(HttpError),
    /// Http2 error
    H2(H2Error),
    /// Response took too long
    Timeout,
    /// Tunnels are not supported for http2 connection
    TunnelNotSupported,
    /// Error sending request body, given by its text
    Error(String),
}

fn copy_encode_error(e: &EncodeError) -> (r: EncodeError)
    ensures
        r == *e,
{
    match e {
        EncodeError::UnsupportedVersion(v) => EncodeError::UnsupportedVersion(*v),
        EncodeError::UnexpectedEof => EncodeError::UnexpectedEof,
        EncodeError::Fmt(e) => EncodeError::Fmt(copy_io_error(e)),
    }
}

fn copy_h2_error(e: &H2Error) -> (r: H2Error)
    ensures
        r == *e,
{
    match e {
        H2Error::Operation(s) => H2Error::Operation(s.clone()),
        H2Error::MissingPseudo(s) => H2Error::MissingPseudo(s),
        H2Error::Uri(s) => H2Error::Uri(s.clone()),
        H2Error::Stream(s) => H2Error::Stream(s.clone()),
    }
}

impl SendRequestError {
    /// Text of the error.
    pub open spec fn text(self) -> Seq<char> {
        match self {
            SendRequestError::Url(e) => "Invalid URL: "@ + e.text(),
            SendRequestError::Connect(e) => "Failed to connect to host: "@ + e.text(),
            SendRequestError::Send(e) => "Error sending request: "@ + e.text@,
            SendRequestError::Request(e) => "Error during request encoding: "@ + e.text(),
            SendRequestError::Response(e) => "Error during response parsing: "@ + e.text(),
            SendRequestError::Http(e) => http_error_text(e),
            SendRequestError::H2(e) => "Http2 error "@ + e.text(),
            SendRequestError::Timeout => "Timeout while waiting for response"@,
            SendRequestError::TunnelNotSupported =>
                "Tunnels are not supported for http2 connection"@,
            SendRequestError::Error(e) => "Error sending request body "@ + e@,
        }
    }

    /// Text of the error.
    pub fn message(&self) -> (r: String)
        ensures
            r@ == self.text(),
    {
        match self {
            SendRequestError::Url(e) => joined("Invalid URL: ", e.message().as_str()),
            SendRequestError::Connect(e) => joined(
                "Failed to connect to host: ",
                e.message().as_str(),
            ),
            SendRequestError::Send(e) => joined("Error sending request: ", e.text.as_str()),
            SendRequestError::Request(e) => joined(
                "Error during request encoding: ",
                e.message().as_str(),
            ),
            SendRequestError::Response(e) => joined(
                "Error during response parsing: ",
                e.message().as_str(),
            ),
            SendRequestError::Http(e) => e.error_text(),
            SendRequestError::H2(e) => joined("Http2 error ", e.message().as_str()),
            SendRequestError::Timeout => "Timeout while waiting for response".to_owned(),
            SendRequestError::TunnelNotSupported =>
                "Tunnels are not supported for http2 connection".to_owned(),
            SendRequestError::Error(e) => joined("Error sending request body ", e.as_str()),
        }
    }

    /// A copy of the error.
    pub fn copy(&self) -> (r: SendRequestError)
        ensures
            r == *self,
    {
        match self {
            SendRequestError::Url(e) => SendRequestError::Url(*e),
            SendRequestError::Connect(e) => SendRequestError::Connect(e.copy()),
            SendRequestError::Send(e) => SendRequestError::Send(copy_io_error(e)),
            SendRequestError::Request(e) => SendRequestError::Request(copy_encode_error(e)),
            SendRequestError::Response(e) => SendRequestError::Response(copy_decode_error(e)),
            SendRequestError::Http(e) => SendRequestError::Http(*e),
            SendRequestError::H2(e) => SendRequestError::H2(copy_h2_error(e)),
            SendRequestError::Timeout => SendRequestError::Timeout,
            SendRequestError::TunnelNotSupported => SendRequestError::TunnelNotSupported,
            SendRequestError::Error(e) => SendRequestError::Error(e.clone()),
        }
    }
}

/// A set of errors that can occur during freezing a request
#[derive(Debug, Copy, Clone, PartialEq, Eq, Structural)]
pub enum FreezeRequestError {
    /// Invalid URL
    Url(InvalidUrl),
    /// Http error
    Http(HttpError),
}

impl FreezeRequestError {
    /// Text of the error.
    pub open spec fn text(self) -> Seq<char> {
        match self {
            FreezeRequestError::Url(e) => "Invalid URL: "@ + e.text(),
            FreezeRequestError::Http(e) => http_error_text(e),
        }
    }

    /// Text of the error.
    pub fn message(&self) -> (r: String)
        ensures
            r@ == self.text(),
    {
        match self {
            FreezeRequestError::Url(e) => joined("Invalid URL: ", e.message().as_str()),
            FreezeRequestError::Http(e) => e.error_text(),
        }
    }
}

impl From<FreezeRequestError> for SendRequestError {
    fn from(e: FreezeRequestError) -> (r: SendRequestError) {
        match e {
            FreezeRequestError::Url(e) => SendRequestError::Url(e),
            FreezeRequestError::Http(e) => SendRequestError::Http(e),
        }
    }
}

impl vstd::std_specs::convert::FromSpecImpl<FreezeRequestError> for SendRequestError {
    open spec fn obeys_from_spec() -> bool {
        true
    }

    open spec fn from_spec(e: FreezeRequestError) -> SendRequestError {
        match e {
            FreezeRequestError::Url(e) => SendRequestError::Url(e),
            FreezeRequestError::Http(e) => SendRequestError::Http(e),
        }
    }
}

/// What can be wrong with a request before it is sent.
#[derive(Debug, Copy, Clone, PartialEq, Eq, Structural)]
pub enum PrepForSendingError {
    /// Invalid URL
    Url(InvalidUrl),
    /// Http error
    Http(HttpError),
}

impl PrepForSendingError {
    /// Text of the error.
    pub open spec fn text(self) -> Seq<char> {
        match self {
            PrepForSendingError::Url(e) => "Invalid url "@ + e.text(),
            PrepForSendingError::Http(e) => "Invalid http request "@ + http_error_text(e),
        }
    }

    /// Text of the error.
    pub fn message(&self) -> (r: String)
        ensures
            r@ == self.text(),
    {
        match self {
            PrepForSendingError::Url(e) => joined("Invalid url ", e.message().as_str()),
            PrepForSendingError::Http(e) => joined("Invalid http request ", e.error_text().as_str()),
        }
    }
}

impl From<PrepForSendingError> for FreezeRequestError {
    fn from(err: PrepForSendingError) -> (r: FreezeRequestError) {
        match err {
            PrepForSendingError::Url(e) => FreezeRequestError::Url(e),
            PrepForSendingError::Http(e) => FreezeRequestError::Http(e),
        }
    }
}

impl vstd::std_specs::convert::FromSpecImpl<PrepForSendingError> for FreezeRequestError {
    open spec fn obeys_from_spec() -> bool {
        true
    }

    open spec fn from_spec(err: PrepForSendingError) -> FreezeRequestError {
        match err {
            PrepForSendingError::Url(e) => FreezeRequestError::Url(e),
            PrepForSendingError::Http(e) => FreezeRequestError::Http(e),
        }
    }
}

impl From<PrepForSendingError> for SendRequestError {
    fn from(err: PrepForSendingError) -> (r: SendRequestError) {
        match err {
            PrepForSendingError::Url(e) => SendRequestError::Url(e),
            PrepForSendingError::Http(e) => SendRequestError::Http(e),
        }
    }
}

impl vstd::std_specs::convert::FromSpecImpl<PrepForSendingError> for SendRequestError {
    open spec fn obeys_from_spec() -> bool {
        true
    }

    open spec fn from_spec(err: PrepForSendingError) -> SendRequestError {
        match err {
            PrepForSendingError::Url(e) => SendRequestError::Url(e),
            PrepForSendingError::Http(e) => SendRequestError::Http(e),
        }
    }
}

/// Writing a message or reading one failed.
#[derive(Debug)]
pub enum ExchangeError {
    /// The request could not be encoded.
    Encode(EncodeError),
    /// The response could not be decoded.
    Decode(DecodeError),
    /// The transport failed.
    Io(IoError),
}

impl From<ExchangeError> for SendRequestError {
    fn from(err: ExchangeError) -> (r: SendRequestError) {
        match err {
            ExchangeError::Encode(e) => SendRequestError::Request(e),
            ExchangeError::Decode(e) => SendRequestError::Response(e),
            ExchangeError::Io(e) => SendRequestError::Send(e),
        }
    }
}

impl vstd::std_specs::convert::FromSpecImpl<ExchangeError> for SendRequestError {
    open spec fn obeys_from_spec() -> bool {
        true
    }

    open spec fn from_spec(err: ExchangeError) -> SendRequestError {
        match err {
            ExchangeError::Encode(e) => SendRequestError::Request(e),
            ExchangeError::Decode(e) => SendRequestError::Response(e),
            ExchangeError::Io(e) => SendRequestError::Send(e),
        }
    }
}

} // verus!
