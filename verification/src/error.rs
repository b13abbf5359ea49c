//! Errors of the protocol code.

use vstd::prelude::*;
use vstd::string::StringExecFns;

use crate::types::Version;

verus! {

/// Class of an input or output failure.
#[derive(Copy, Clone, Debug, PartialEq, Eq, Structural)]
pub enum IoErrorKind {
    Other,
    UnexpectedEof,
    TimedOut,
    WriteZero,
    Interrupted,
    InvalidData,
}

/// Name of the class.
pub open spec fn kind_name(kind: IoErrorKind) -> Seq<char> {
    match kind {
        IoErrorKind::Other => "Other"@,
        IoErrorKind::UnexpectedEof => "UnexpectedEof"@,
        IoErrorKind::TimedOut => "TimedOut"@,
        IoErrorKind::WriteZero => "WriteZero"@,
        IoErrorKind::Interrupted => "Interrupted"@,
        IoErrorKind::InvalidData => "InvalidData"@,
    }
}

impl IoErrorKind {
    /// Name of the class.
    pub fn name(self) -> (r: &'static str)
        ensures
            r@ == kind_name(self),
    {
        match self {
            IoErrorKind::Other => "Other",
            IoErrorKind::UnexpectedEof => "UnexpectedEof",
            IoErrorKind::TimedOut => "TimedOut",
            IoErrorKind::WriteZero => "WriteZero",
            IoErrorKind::Interrupted => "Interrupted",
            IoErrorKind::InvalidData => "InvalidData",
        }
    }
}

/// An input or output failure.
#[derive(Clone, Debug, PartialEq, Eq)]
pub struct IoError {
    pub kind: IoErrorKind,
    pub text: String,
}

/// A copy of an input or output failure.
pub fn copy_io_error(e: &IoError) -> (r: IoError)
    ensures
        r == *e,
{
    IoError { kind: e.kind, text: e.text.clone() }
}

/// A text in quotes, as `{:?}` prints it.
pub uninterp spec fn quoted(s: Seq<char>) -> Seq<char>;

/// `format!` with `{:?}` on a text: depends on the text alone.
#[verifier::external_body]
fn quote(s: &str) -> (r: String)
    ensures
        r@ == quoted(s@),
{
    format!("{:?}", s)
}

/// The failure with its class, as a debug text.
pub open spec fn io_debug(e: IoError) -> Seq<char> {
    "Custom { kind: "@ + kind_name(e.kind) + ", error: "@ + quoted(e.text@) + " }"@
}

fn io_debug_text(e: &IoError) -> (r: String)
    ensures
        r@ == io_debug(*e),
{
    let q = quote(e.text.as_str());
    let mut s = "Custom { kind: ".to_owned();
    s.append(e.kind.name());
    s.append(", error: ");
    s.append(q.as_str());
    s.append(" }");
    s
}

/// Reasons for which a message head does not parse.
#[derive(Copy, Clone, Debug, PartialEq, Eq, Structural)]
pub enum ParseError {
    HeaderName,
    HeaderValue,
    NewLine,
    Status,
    Token,
    TooManyHeaders,
    Version,
}

/// A set of errors that can occur during HTTP streams encoding
#[derive(Clone, Debug, PartialEq, Eq)]
pub enum EncodeError {
    /// An invalid `HttpVersion`, such as `HTP/1.1`
    UnsupportedVersion(Version),
    /// The body ended before its declared length
    UnexpectedEof,
    /// Internal error
    Fmt(IoError),
}

impl EncodeError {
    /// Text of the error.
    pub open spec fn text(self) -> Seq<char> {
        match self {
            EncodeError::UnsupportedVersion(_) => "Unsupported HTTP version specified"@,
            EncodeError::UnexpectedEof => "Unexpected end of bytes stream"@,
            EncodeError::Fmt(e) => "Formater error "@ + e.text@,
        }
    }

    /// Text of the error.
    pub fn message(&self) -> (r: String)
        ensures
            r@ == self.text(),
    {
        match self {
            EncodeError::UnsupportedVersion(_) => "Unsupported HTTP version specified".to_owned(),
            EncodeError::UnexpectedEof => "Unexpected end of bytes stream".to_owned(),
            EncodeError::Fmt(e) => {
                let mut s = "Formater error ".to_owned();
                s.append(e.text.as_str());
                s
            },
        }
    }
}

/// A set of errors that can occur during parsing HTTP streams
#[derive(Clone, Debug, PartialEq, Eq)]
pub enum DecodeError {
    /// An invalid `Method`, such as `GE.T`.
    Method,
    /// An invalid `Uri`, such as `exam ple.domain`.
    Uri(String),
    /// An invalid `HttpVersion`, such as `HTP/1.1`
    Version,
    /// An invalid `Header`.
    Header,
    /// A message head holds too many headers.
    MaxHeaders,
    /// A message head is too large to be reasonable.
    TooLarge(usize),
    /// A message reached EOF, but is not complete.
    Incomplete,
    /// An invalid `Status`, such as `1337 ELITE`.
    Status,
    /// An `InvalidInput` occurred while trying to parse incoming stream.
    InvalidInput(&'static str),
    /// Parsing a field as string failed
    Utf8(String),
}

impl DecodeError {
    /// Text of the error.
    pub open spec fn text(self) -> Seq<char> {
        match self {
            DecodeError::Method => "Invalid Method specified"@,
            DecodeError::Uri(e) => "Uri error: "@ + e@,
            DecodeError::Version => "Invalid HTTP version specified"@,
            DecodeError::Header => "Invalid Header provided"@,
            DecodeError::MaxHeaders => "Message head contains too many headers"@,
            DecodeError::TooLarge(_) => "Message head is too large"@,
            DecodeError::Incomplete => "Message is incomplete"@,
            DecodeError::Status => "Invalid Status provided"@,
            DecodeError::InvalidInput(e) =>
                "`InvalidInput` occurred while trying to parse incoming stream: "@ + e@,
            DecodeError::Utf8(e) => "UTF8 error: "@ + e@,
        }
    }

    /// Text of the error.
    pub fn message(&self) -> (r: String)
        ensures
            r@ == self.text(),
    {
        match self {
            DecodeError::Method => "Invalid Method specified".to_owned(),
            DecodeError::Uri(e) => {
                let mut s = "Uri error: ".to_owned();
                s.append(e.as_str());
                s
            },
            DecodeError::Version => "Invalid HTTP version specified".to_owned(),
            DecodeError::Header => "Invalid Header provided".to_owned(),
            DecodeError::MaxHeaders => "Message head contains too many headers".to_owned(),
            DecodeError::TooLarge(_) => "Message head is too large".to_owned(),
            DecodeError::Incomplete => "Message is incomplete".to_owned(),
            DecodeError::Status => "Invalid Status provided".to_owned(),
            DecodeError::InvalidInput(e) => {
                let mut s =
                    "`InvalidInput` occurred while trying to parse incoming stream: ".to_owned();
                s.append(e);
                s
            },
            DecodeError::Utf8(e) => {
                let mut s = "UTF8 error: ".to_owned();
                s.append(e.as_str());
                s
            },
        }
    }
}

/// A copy of a decode error.
pub fn copy_decode_error(e: &DecodeError) -> (r: DecodeError)
    ensures
        r == *e,
{
    match e {
        DecodeError::Method => DecodeError::Method,
        DecodeError::Uri(s) => DecodeError::Uri(s.clone()),
        DecodeError::Version => DecodeError::Version,
        DecodeError::Header => DecodeError::Header,
        DecodeError::MaxHeaders => DecodeError::MaxHeaders,
        DecodeError::TooLarge(n) => DecodeError::TooLarge(*n),
        DecodeError::Incomplete => DecodeError::Incomplete,
        DecodeError::Status => DecodeError::Status,
        DecodeError::InvalidInput(s) => DecodeError::InvalidInput(s),
        DecodeError::Utf8(s) => DecodeError::Utf8(s.clone()),
    }
}

/// The decode error that a parse error stands for.
pub open spec fn decode_error(e: ParseError) -> DecodeError {
    match e {
        ParseError::HeaderName | ParseError::HeaderValue | ParseError::NewLine
        | ParseError::Token => DecodeError::Header,
        ParseError::Status => DecodeError::Status,
        ParseError::TooManyHeaders => DecodeError::TooLarge(0),
        ParseError::Version => DecodeError::Version,
    }
}

impl From<ParseError> for DecodeError {
    fn from(err: ParseError) -> (r: DecodeError) {
        match err {
            ParseError::HeaderName | ParseError::HeaderValue | ParseError::NewLine
            | ParseError::Token => DecodeError::Header,
            ParseError::Status => DecodeError::Status,
            ParseError::TooManyHeaders => DecodeError::TooLarge(0),
            ParseError::Version => DecodeError::Version,
        }
    }
}

impl vstd::std_specs::convert::FromSpecImpl<ParseError> for DecodeError {
    open spec fn obeys_from_spec() -> bool {
        true
    }

    open spec fn from_spec(err: ParseError) -> DecodeError {
        decode_error(err)
    }
}

/// A set of errors that can occur during payload parsing
#[derive(Clone, Debug, PartialEq, Eq)]
pub enum PayloadError {
    /// A payload reached EOF, but is not complete.
    Incomplete(Option<IoError>),
    /// Content encoding stream corruption
    EncodingCorrupted,
    /// A payload reached size limit.
    Overflow,
    /// A payload length is unknown.
    UnknownLength,
    /// Http2 payload error
    Http2Payload(String),
    /// Decode error
    Decode(DecodeError),
    /// Io error
    Io(IoError),
}

impl PayloadError {
    /// Text of the error.
    pub open spec fn text(self) -> Seq<char> {
        match self {
            PayloadError::Incomplete(None) =>
                "A payload reached EOF, but is not complete. With error: None"@,
            PayloadError::Incomplete(Some(e)) =>
                "A payload reached EOF, but is not complete. With error: Some("@ + io_debug(e)
                    + ")"@,
            PayloadError::EncodingCorrupted => "Cannot decode content-encoding."@,
            PayloadError::Overflow => "A payload reached size limit."@,
            PayloadError::UnknownLength => "A payload length is unknown."@,
            PayloadError::Http2Payload(e) => e@,
            PayloadError::Decode(e) => "Decode error: "@ + e.text(),
            PayloadError::Io(e) => e.text@,
        }
    }

    /// Text of the error.
    pub fn message(&self) -> (r: String)
        ensures
            r@ == self.text(),
    {
        match self {
            PayloadError::Incomplete(None) =>
                "A payload reached EOF, but is not complete. With error: None".to_owned(),
            PayloadError::Incomplete(Some(e)) => {
                let d = io_debug_text(e);
                let mut s =
                    "A payload reached EOF, but is not complete. With error: Some(".to_owned();
                s.append(d.as_str());
                s.append(")");
                s
            },
            PayloadError::EncodingCorrupted => "Cannot decode content-encoding.".to_owned(),
            PayloadError::Overflow => "A payload reached size limit.".to_owned(),
            PayloadError::UnknownLength => "A payload length is unknown.".to_owned(),
            PayloadError::Http2Payload(e) => e.clone(),
            PayloadError::Decode(e) => {
                let d = e.message();
                let mut s = "Decode error: ".to_owned();
                s.append(d.as_str());
                s
            },
            PayloadError::Io(e) => e.text.clone(),
        }
    }
}

impl From<DecodeError> for PayloadError {
    fn from(err: DecodeError) -> (r: PayloadError) {
        PayloadError::Decode(err)
    }
}

impl vstd::std_specs::convert::FromSpecImpl<DecodeError> for PayloadError {
    open spec fn obeys_from_spec() -> bool {
        true
    }

    open spec fn from_spec(err: DecodeError) -> PayloadError {
        PayloadError::Decode(err)
    }
}

impl From<IoError> for PayloadError {
    fn from(err: IoError) -> (r: PayloadError) {
        PayloadError::Io(err)
    }
}

impl vstd::std_specs::convert::FromSpecImpl<IoError> for PayloadError {
    open spec fn obeys_from_spec() -> bool {
        true
    }

    open spec fn from_spec(err: IoError) -> PayloadError {
        PayloadError::Io(err)
    }
}

/// A set of errors that can occur during dispatching http requests
#[derive(Clone, Debug, PartialEq, Eq)]
pub enum DispatchError {
    /// Service error, with its text
    Service(String),
    /// Control service error, with its text
    Control(String),
}

impl DispatchError {
    /// Text of the error.
    pub open spec fn text(self) -> Seq<char> {
        match self {
            DispatchError::Service(_) => "Service error"@,
            DispatchError::Control(e) => "Control service error: "@ + e@,
        }
    }

    /// Text of the error.
    pub fn message(&self) -> (r: String)
        ensures
            r@ == self.text(),
    {
        match self {
            DispatchError::Service(_) => "Service error".to_owned(),
            DispatchError::Control(e) => {
                let mut s = "Control service error: ".to_owned();
                s.append(e.as_str());
                s
            },
        }
    }
}

/// A set of errors that can occur during dispatching http2 requests
#[derive(Clone, Debug, PartialEq, Eq)]
pub enum H2Error {
    /// Operation error
    Operation(String),
    /// Pseudo headers error
    MissingPseudo(&'static str),
    /// Uri parsing error
    Uri(String),
    /// Body stream error
    Stream(String),
}

impl H2Error {
    /// Text of the error.
    pub open spec fn text(self) -> Seq<char> {
        match self {
            H2Error::Operation(e) => "Operation error: "@ + e@,
            H2Error::MissingPseudo(e) => "Missing pseudo header: "@ + e@,
            H2Error::Uri(e) => "Uri: "@ + e@,
            H2Error::Stream(e) => e@,
        }
    }

    /// Text of the error.
    pub fn message(&self) -> (r: String)
        ensures
            r@ == self.text(),
    {
        match self {
            H2Error::Operation(e) => {
                let mut s = "Operation error: ".to_owned();
                s.append(e.as_str());
                s
            },
            H2Error::MissingPseudo(e) => {
                let mut s = "Missing pseudo header: ".to_owned();
                s.append(e);
                s
            },
            H2Error::Uri(e) => {
                let mut s = "Uri: ".to_owned();
                s.append(e.as_str());
                s
            },
            H2Error::Stream(e) => e.clone(),
        }
    }
}

/// A set of error that can occure during parsing content type
#[derive(Copy, Clone, Debug, PartialEq, Eq, Structural)]
pub enum ContentTypeError {
    /// Cannot parse content type
    ParseError,
    /// Unknown content encoding
    UnknownEncoding,
    /// Unexpected Content-Type
    Unexpected,
    /// Content-Type is expected
    Expected,
}

impl ContentTypeError {
    /// Text of the error.
    pub open spec fn text(self) -> Seq<char> {
        match self {
            ContentTypeError::ParseError => "Cannot parse content type"@,
            ContentTypeError::UnknownEncoding => "Unknown content encoding"@,
            ContentTypeError::Unexpected => "Unexpected Content-Type"@,
            ContentTypeError::Expected => "Content-Type is expected"@,
        }
    }

    /// Text of the error.
    pub fn message(&self) -> (r: &'static str)
        ensures
            r@ == self.text(),
    {
        match self {
            ContentTypeError::ParseError => "Cannot parse content type",
            ContentTypeError::UnknownEncoding => "Unknown content encoding",
            ContentTypeError::Unexpected => "Unexpected Content-Type",
            ContentTypeError::Expected => "Content-Type is expected",
        }
    }
}

/// Blocking operation execution error
#[derive(Clone, Debug, PartialEq, Eq)]
pub enum BlockingError<E> {
    /// The operation failed
    Error(E),
    /// Thread pool is gone
    Canceled,
}

/// The payload error that a failed blocking operation stands for.
pub open spec fn blocking_error(err: BlockingError<IoError>, r: PayloadError) -> bool {
    match err {
        BlockingError::Error(e) => r == PayloadError::Io(e),
        BlockingError::Canceled => r matches PayloadError::Io(e) && e.kind == IoErrorKind::Other
            && e.text@ == "Operation is canceled"@,
    }
}

impl PayloadError {
    /// The payload error that a failed blocking operation stands for.
    pub fn from_blocking(err: BlockingError<IoError>) -> (r: PayloadError)
        ensures
            blocking_error(err, r),
    {
        match err {
            BlockingError::Error(e) => PayloadError::Io(e),
            BlockingError::Canceled => PayloadError::Io(
                IoError { kind: IoErrorKind::Other, text: "Operation is canceled".to_owned() },
            ),
        }
    }
}

} // verus!
