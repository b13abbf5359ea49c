//! Start lines, header lines and chunk size lines.

use vstd::prelude::*;

use crate::error::ParseError;

verus! {

/// A request line, read from the front of some bytes.
#[verifier::ext_equal]
pub enum RequestLine {
    /// The line is not complete.
    Partial,
    /// The bytes are not a request line. The error is given by its position in
    /// the list of parse errors.
    Failed(u8),
    /// Method, target and minor version, and the number of bytes up to the
    /// first header.
    Complete(Seq<u8>, Seq<u8>, u8, usize),
}

/// A request line, read from the front of some bytes.
#[derive(Debug)]
pub enum ParsedRequest {
    Partial,
    Failed(u8),
    Complete(Vec<u8>, Vec<u8>, u8, usize),
}

impl View for ParsedRequest {
    type V = RequestLine;

    open spec fn view(&self) -> RequestLine {
        match self {
            ParsedRequest::Partial => RequestLine::Partial,
            ParsedRequest::Failed(e) => RequestLine::Failed(*e),
            ParsedRequest::Complete(m, t, v, len) => RequestLine::Complete(m@, t@, *v, *len),
        }
    }
}

/// The request line at the front of the bytes, as `ntex_httparse` reads it.
pub uninterp spec fn request_line(src: Seq<u8>) -> RequestLine;

/// `ntex_httparse::Request::parse`. The outcome depends on the bytes alone; a
/// complete line takes at least one of them, and an outcome other than "not
/// complete" stays the same whatever bytes follow.
#[verifier::external_body]
pub(crate) fn parse_request(src: &[u8]) -> (r: ParsedRequest)
    ensures
        r@ == request_line(src@),
        r matches ParsedRequest::Complete(_, _, _, len) ==> 0 < len && len <= src@.len(),
        r matches ParsedRequest::Failed(e) ==> e <= 6,
        !(r is Partial) ==> forall|more: Seq<u8>| #[trigger] request_line(src@ + more) == r@,
{
    let mut req = ntex_httparse::Request::default();
    match req.parse(src) {
        Ok(ntex_httparse::Status::Complete(len)) => {
            let method = src[req.method.start..req.method.end].to_vec();
            let target = src[req.path.start..req.path.end].to_vec();
            ParsedRequest::Complete(method, target, req.version, len)
        },
        Ok(ntex_httparse::Status::Partial) => ParsedRequest::Partial,
        Err(e) => ParsedRequest::Failed(e as u8),
    }
}

/// A status line, read from the front of some bytes.
pub enum StatusLine {
    /// The line is not complete.
    Partial,
    /// The bytes are not a status line. The error is given by its position in
    /// the list of parse errors.
    Failed(u8),
    /// Minor version and status code, and the number of bytes up to the first
    /// header.
    Complete(u8, u16, usize),
}

/// The status line at the front of the bytes, as `ntex_httparse` reads it.
pub uninterp spec fn status_line(src: Seq<u8>) -> StatusLine;

/// `ntex_httparse::Response::parse`. The outcome depends on the bytes alone; a
/// complete line takes at least one of them, and an outcome other than "not
/// complete" stays the same whatever bytes follow.
#[verifier::external_body]
pub(crate) fn parse_status(src: &[u8]) -> (r: StatusLine)
    ensures
        r == status_line(src@),
        r matches StatusLine::Complete(_, _, len) ==> 0 < len && len <= src@.len(),
        r matches StatusLine::Failed(e) ==> e <= 6,
        !(r is Partial) ==> forall|more: Seq<u8>| #[trigger] status_line(src@ + more) == r,
{
    let mut res = ntex_httparse::Response::default();
    match res.parse(src) {
        Ok(ntex_httparse::Status::Complete(len)) => {
            StatusLine::Complete(res.version, res.code, len)
        },
        Ok(ntex_httparse::Status::Partial) => StatusLine::Partial,
        Err(e) => StatusLine::Failed(e as u8),
    }
}

/// A header line, read from the front of some bytes.
#[verifier::ext_equal]
pub enum HeaderLine {
    /// The line is not complete.
    Partial,
    /// The bytes are not a header line. The error is given by its position in
    /// the list of parse errors.
    Failed(u8),
    /// Name and value, and the number of bytes of the line.
    Complete(Seq<u8>, Seq<u8>, usize),
    /// The empty line that ends the head, with its number of bytes.
    Eof(usize),
}

/// A header line, read from the front of some bytes.
#[derive(Debug)]
pub enum ParsedHeader {
    Partial,
    Failed(u8),
    Complete(Vec<u8>, Vec<u8>, usize),
    Eof(usize),
}

impl View for ParsedHeader {
    type V = HeaderLine;

    open spec fn view(&self) -> HeaderLine {
        match self {
            ParsedHeader::Partial => HeaderLine::Partial,
            ParsedHeader::Failed(e) => HeaderLine::Failed(*e),
            ParsedHeader::Complete(n, v, len) => HeaderLine::Complete(n@, v@, *len),
            ParsedHeader::Eof(len) => HeaderLine::Eof(*len),
        }
    }
}

/// The header line at the front of the bytes, as `ntex_httparse` reads it.
pub uninterp spec fn header_line(src: Seq<u8>) -> HeaderLine;

/// `ntex_httparse::Header::parse`. The outcome depends on the bytes alone; a
/// line takes at least one of them, and an outcome other than "not complete"
/// stays the same whatever bytes follow.
#[verifier::external_body]
pub(crate) fn parse_header(src: &[u8]) -> (r: ParsedHeader)
    ensures
        r@ == header_line(src@),
        r matches ParsedHeader::Complete(_, _, len) ==> 0 < len && len <= src@.len(),
        r matches ParsedHeader::Eof(len) ==> 0 < len && len <= src@.len(),
        r matches ParsedHeader::Failed(e) ==> e <= 6,
        !(r is Partial) ==> forall|more: Seq<u8>| #[trigger] header_line(src@ + more) == r@,
{
    let mut h = ntex_httparse::Header::default();
    match h.parse(src) {
        Ok(ntex_httparse::Status::Complete(ntex_httparse::HeaderParsed::Header(len))) => {
            let name = src[h.name.start..h.name.end].to_vec();
            ParsedHeader::Complete(name, src[h.value.start..h.value.end].to_vec(), len)
        },
        Ok(ntex_httparse::Status::Complete(ntex_httparse::HeaderParsed::Eof(len))) => {
            ParsedHeader::Eof(len)
        },
        Ok(ntex_httparse::Status::Partial) => ParsedHeader::Partial,
        Err(e) => ParsedHeader::Failed(e as u8),
    }
}

/// The parse error at a position in the list of parse errors.
pub open spec fn error_at(code: u8) -> ParseError {
    if code == 0 {
        ParseError::HeaderName
    } else if code == 1 {
        ParseError::HeaderValue
    } else if code == 2 {
        ParseError::NewLine
    } else if code == 3 {
        ParseError::Status
    } else if code == 4 {
        ParseError::Token
    } else if code == 5 {
        ParseError::TooManyHeaders
    } else {
        ParseError::Version
    }
}

/// The parse error at a position in the list of parse errors.
pub fn parse_error(code: u8) -> (r: ParseError)
    ensures
        r == error_at(code),
{
    if code == 0 {
        ParseError::HeaderName
    } else if code == 1 {
        ParseError::HeaderValue
    } else if code == 2 {
        ParseError::NewLine
    } else if code == 3 {
        ParseError::Status
    } else if code == 4 {
        ParseError::Token
    } else if code == 5 {
        ParseError::TooManyHeaders
    } else {
        ParseError::Version
    }
}

/// A chunk size line, read from the front of some bytes.
#[derive(Copy, Clone, Debug, PartialEq, Eq, Structural)]
pub enum ChunkLine {
    /// The line is not complete.
    Partial,
    /// The bytes are not a chunk size line.
    Failed,
    /// Number of bytes of the line, and the size that it gives.
    Complete(usize, u64),
}

/// The chunk size line at the front of the bytes, as `ntex_httparse` reads it.
pub uninterp spec fn chunk_line(src: Seq<u8>) -> ChunkLine;

/// The bytes start with others.
pub open spec fn starts_with(s: Seq<u8>, front: Seq<u8>) -> bool {
    front.len() <= s.len() && s.subrange(0, front.len() as int) == front
}

/// A chunk size line without blanks and extensions.
pub open spec fn size_line(n: u64) -> Seq<u8> {
    crate::text::hex(n as nat) + crate::text::crlf()
}

/// `ntex_httparse::parse_chunk_size`. The outcome depends on the bytes alone; a
/// complete line takes at least two of them, and an outcome other than "not
/// complete" stays the same whatever bytes follow. Upper case hexadecimal
/// digits and a line end make a complete line with that size, and any part of
/// such a line that lacks its last byte is not complete.
#[verifier::external_body]
pub(crate) fn parse_chunk_size(src: &[u8]) -> (r: ChunkLine)
    ensures
        r == chunk_line(src@),
        r matches ChunkLine::Complete(len, _) ==> 2 <= len && len <= src@.len(),
        r != ChunkLine::Partial ==> forall|more: Seq<u8>| #[trigger] chunk_line(src@ + more) == r,
        forall|n: u64|
            starts_with(src@, #[trigger] size_line(n)) ==> r == ChunkLine::Complete(
                size_line(n).len() as usize,
                n,
            ),
        forall|n: u64|
            starts_with(#[trigger] size_line(n), src@) && src@.len() != size_line(n).len() ==> r
                == ChunkLine::Partial,
{
    match ntex_httparse::parse_chunk_size(src) {
        Ok(ntex_httparse::Status::Complete((len, size))) => ChunkLine::Complete(len, size),
        Ok(ntex_httparse::Status::Partial) => ChunkLine::Partial,
        Err(_) => ChunkLine::Failed,
    }
}

} // verus!
