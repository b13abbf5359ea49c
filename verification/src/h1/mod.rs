//! HTTP/1 protocol.

use vstd::prelude::*;
use vstd::string::StringExecFns;

use crate::error::{DecodeError, EncodeError};
use crate::types::StatusCode;

pub mod client;
pub mod codec;
pub mod control;
pub mod decoder;
pub mod delivery;
pub mod dispatcher;
pub mod encoder;
pub mod flow;
pub mod machine;
pub mod parser;
pub mod payload;
pub mod timer;

verus! {

/// A message passed to an HTTP/1 request or response encoder.
///
/// Encoding a message starts with [`Message::Item`]. If the head declares a
/// body, zero or more [`Message::Chunk(Some(_))`](Message::Chunk) values follow,
/// and [`Message::Chunk(None)`](Message::Chunk) completes the body. The final
/// `None` writes the chunked terminator when required and verifies that a
/// fixed-length body supplied all declared bytes.
#[derive(Debug)]
pub enum Message<T> {
    /// A complete request or response head, including the body-size metadata
    /// required by the concrete codec.
    Item(T),
    /// Body bytes, or `None` to complete the current body.
    Chunk(Option<Vec<u8>>),
}

/// Payload state reported by the HTTP client codec.
#[derive(Debug, Clone, Copy, PartialEq, Eq, Structural)]
pub enum MessageType {
    /// The message has no payload.
    NoPayload,
    /// The message has a body decoded according to its HTTP framing.
    Payload,
    /// The response switched protocols, so subsequent bytes belong to the
    /// upgraded connection rather than an HTTP message body.
    Stream,
}

/// Errors that can occur while dispatching HTTP/1 requests.
#[derive(Debug, Clone, PartialEq, Eq)]
pub enum ProtocolError {
    /// HTTP request parsing failed.
    Decode(DecodeError),
    /// HTTP response encoding failed.
    Encode(EncodeError),
    /// The request head did not complete within the configured timeout.
    SlowRequestTimeout,
    /// The request payload did not complete within the configured timeout.
    SlowPayloadTimeout,
    /// The response body stream returned an error, given by its text.
    ResponsePayload(String),
}

/// The status that a protocol error is answered with: 431 for a head that is
/// too large, 400 for one that does not parse, 408 for one that came too
/// slowly, and 500 where the response failed.
pub open spec fn error_status(e: ProtocolError) -> StatusCode {
    match e {
        ProtocolError::Decode(DecodeError::MaxHeaders) => StatusCode(431),
        ProtocolError::Decode(DecodeError::TooLarge(_)) => StatusCode(431),
        ProtocolError::Decode(_) => StatusCode(400),
        ProtocolError::SlowRequestTimeout => StatusCode(408),
        ProtocolError::SlowPayloadTimeout => StatusCode(408),
        ProtocolError::Encode(_) => StatusCode(500),
        ProtocolError::ResponsePayload(_) => StatusCode(500),
    }
}

impl ProtocolError {
    /// Text of the error.
    pub open spec fn text(self) -> Seq<char> {
        match self {
            ProtocolError::Decode(e) => "Parse error: "@ + e.text(),
            ProtocolError::Encode(e) => "Encode error: "@ + e.text(),
            ProtocolError::SlowRequestTimeout =>
                "Request did not complete within the specified timeout"@,
            ProtocolError::SlowPayloadTimeout =>
                "Payload did not complete within the specified timeout"@,
            ProtocolError::ResponsePayload(e) => "Response body processing error: "@ + e@,
        }
    }

    /// Text of the error.
    pub fn message(&self) -> (r: String)
        ensures
            r@ == self.text(),
    {
        match self {
            ProtocolError::Decode(e) => {
                let t = e.message();
                let mut s = "Parse error: ".to_owned();
                s.append(t.as_str());
                s
            },
            ProtocolError::Encode(e) => {
                let t = e.message();
                let mut s = "Encode error: ".to_owned();
                s.append(t.as_str());
                s
            },
            ProtocolError::SlowRequestTimeout =>
                "Request did not complete within the specified timeout".to_owned(),
            ProtocolError::SlowPayloadTimeout =>
                "Payload did not complete within the specified timeout".to_owned(),
            ProtocolError::ResponsePayload(e) => {
                let mut s = "Response body processing error: ".to_owned();
                s.append(e.as_str());
                s
            },
        }
    }

    /// The status that the error is answered with.
    pub fn status(&self) -> (r: StatusCode)
        ensures
            r == error_status(*self),
    {
        match self {
            ProtocolError::Decode(e) => match e {
                DecodeError::MaxHeaders => StatusCode(431),
                DecodeError::TooLarge(_) => StatusCode(431),
                _ => StatusCode(400),
            },
            ProtocolError::SlowRequestTimeout | ProtocolError::SlowPayloadTimeout => StatusCode(
                408,
            ),
            ProtocolError::Encode(_) | ProtocolError::ResponsePayload(_) => StatusCode(500),
        }
    }
}

} // verus!
