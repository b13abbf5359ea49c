//! Decoding of message heads and message bodies.

use vstd::prelude::*;

use crate::config::HttpServiceConfig;
use crate::error::{decode_error, DecodeError};
use crate::h1::delivery::{
    after_data, body_run, data_goes_on, eof_goes_on, extended, goes_on, length_goes_on,
    step_goes_on, BodyEnd, BodyRun,
};
use crate::h1::encoder::{chunk_frame, last_frame};
use crate::h1::parser::{
    chunk_line, error_at, header_line, parse_chunk_size, parse_error, parse_header, parse_request,
    parse_status, request_line, size_line, starts_with, status_line, ChunkLine, HeaderLine,
    ParsedHeader, ParsedRequest, RequestLine, StatusLine,
};
use crate::headers::{
    appended, fields, header_name, is_header_value, is_name_text, key, map_append, name_from_token,
    no_fields, valid_name, valid_value, Fields,
};
use crate::message::{
    flags_with, no_flags, ConnectionType, Flags, HeaderItem, HeaderItemView, ResponseHead,
};
use crate::request::Request;
use crate::text::{
    ascii, ascii_bytes, crlf, decimal_value, eq_ignore_ascii_case, eq_ignore_case, all_digits,
    is_text, is_text_bytes, parse_u64, split_to, str_eq, take_all, trim, trim_bytes,
};
use crate::types::{chars, is_token_text, parsed_uri, Method, StatusCode, Uri, Version};

verus! {

// ---------------------------------------------------------------------------
// Message bodies
// ---------------------------------------------------------------------------

/// Incoming request type
#[derive(Copy, Clone, Debug, PartialEq, Eq, Structural)]
pub enum PayloadType {
    NoPayload,
    Payload(PayloadDecoder),
    Stream(PayloadDecoder),
}

/// Http payload item
#[derive(Clone, Debug, PartialEq, Eq)]
pub enum PayloadItem {
    Chunk(Vec<u8>),
    Eof,
}

/// Contents of a payload item.
#[verifier::ext_equal]
pub enum ItemView {
    Chunk(Seq<u8>),
    Eof,
}

impl View for PayloadItem {
    type V = ItemView;

    open spec fn view(&self) -> ItemView {
        match self {
            PayloadItem::Chunk(b) => ItemView::Chunk(b@),
            PayloadItem::Eof => ItemView::Eof,
        }
    }
}

/// Place in a body in chunked transfer coding.
#[derive(Copy, Clone, Debug, PartialEq, Eq, Structural)]
pub enum ChunkedState {
    Size,
    Body,
    BodyCr,
    BodyLf,
    EndCr,
    EndLf,
    End,
}

/// How the end of a body is found.
#[derive(Copy, Clone, Debug, PartialEq, Eq, Structural)]
pub enum Kind {
    /// By its length: the bytes that are still to come.
    Length(u64),
    /// By chunked transfer coding: the place in it, and what is left of the
    /// current chunk.
    Chunked(ChunkedState, u64),
    /// By the end of the connection.
    Eof,
}

/// Decoders to handle different Transfer-Encodings.
///
/// If a message body does not include a Transfer-Encoding, it *should*
/// include a Content-Length header.
#[derive(Copy, Clone, Debug, PartialEq, Eq, Structural)]
pub struct PayloadDecoder {
    pub kind: Kind,
}

/// What one step of a chunked body does.
#[verifier::ext_equal]
pub enum Step {
    /// More bytes are needed; nothing was taken.
    Pending,
    /// The bytes are not a chunked body; the bytes that are left.
    Failed(&'static str, Seq<u8>),
    /// Next place, what is left of the current chunk, bytes of the body that
    /// were taken, and the bytes that are left.
    Next(ChunkedState, u64, Option<Seq<u8>>, Seq<u8>),
}

/// The bytes after the first `n`.
pub open spec fn rest(s: Seq<u8>, n: int) -> Seq<u8> {
    s.subrange(n, s.len() as int)
}

/// A step that takes one given byte.
pub open spec fn expect_byte(
    src: Seq<u8>,
    b: u8,
    next: ChunkedState,
    size: u64,
    err: &'static str,
) -> Step {
    if src.len() == 0 {
        Step::Pending
    } else if src[0] == b {
        Step::Next(next, size, None, rest(src, 1))
    } else {
        Step::Failed(err, rest(src, 1))
    }
}

/// One step of a chunked body.
pub open spec fn chunk_step(state: ChunkedState, size: u64, src: Seq<u8>) -> Step {
    match state {
        ChunkedState::Size => if src.len() == 0 {
            Step::Pending
        } else {
            match chunk_line(src) {
                ChunkLine::Partial => Step::Pending,
                ChunkLine::Failed => Step::Failed("Invalid chunk size line: Invalid Size", src),
                ChunkLine::Complete(len, n) => Step::Next(
                    if n > 0 {
                        ChunkedState::Body
                    } else {
                        ChunkedState::EndCr
                    },
                    n,
                    None,
                    rest(src, len as int),
                ),
            }
        },
        ChunkedState::Body => if src.len() == 0 {
            Step::Next(ChunkedState::Body, size, None, src)
        } else if size > src.len() {
            Step::Next(ChunkedState::Body, (size - src.len()) as u64, Some(src), Seq::empty())
        } else {
            Step::Next(
                ChunkedState::BodyCr,
                0,
                Some(src.subrange(0, size as int)),
                rest(src, size as int),
            )
        },
        ChunkedState::BodyCr => expect_byte(
            src,
            13,
            ChunkedState::BodyLf,
            size,
            "Invalid chunk body CR",
        ),
        ChunkedState::BodyLf => expect_byte(
            src,
            10,
            ChunkedState::Size,
            size,
            "Invalid chunk body LF",
        ),
        ChunkedState::EndCr => expect_byte(
            src,
            13,
            ChunkedState::EndLf,
            size,
            "Invalid chunk end CR",
        ),
        ChunkedState::EndLf => expect_byte(
            src,
            10,
            ChunkedState::End,
            size,
            "Invalid chunk end LF",
        ),
        ChunkedState::End => Step::Next(ChunkedState::End, size, None, src),
    }
}

/// What decoding gives: an item, nothing yet, or an error; the decoder
/// afterwards; and the bytes that are left.
#[verifier::ext_equal]
pub struct BodyOutcome {
    pub item: Result<Option<ItemView>, &'static str>,
    pub kind: Kind,
    pub rest: Seq<u8>,
}

/// Steps of a chunked body up to the first item.
pub open spec fn chunk_run(state: ChunkedState, size: u64, src: Seq<u8>) -> BodyOutcome
    decreases src.len(),
{
    match chunk_step(state, size, src) {
        Step::Pending => BodyOutcome {
            item: Ok(None),
            kind: Kind::Chunked(state, size),
            rest: src,
        },
        Step::Failed(e, left) => BodyOutcome {
            item: Err(e),
            kind: Kind::Chunked(state, size),
            rest: left,
        },
        Step::Next(next, n, taken, left) => {
            let kind = Kind::Chunked(next, n);
            if next == ChunkedState::End {
                BodyOutcome { item: Ok(Some(ItemView::Eof)), kind, rest: left }
            } else if taken is Some {
                BodyOutcome { item: Ok(Some(ItemView::Chunk(taken->0))), kind, rest: left }
            } else if left.len() == 0 || left.len() >= src.len() {
                BodyOutcome { item: Ok(None), kind, rest: left }
            } else {
                chunk_run(next, n, left)
            }
        },
    }
}

/// What decoding the next item of a body gives.
pub open spec fn body_step(kind: Kind, src: Seq<u8>) -> BodyOutcome {
    match kind {
        Kind::Length(left) => if left == 0 {
            BodyOutcome { item: Ok(Some(ItemView::Eof)), kind, rest: src }
        } else if src.len() == 0 {
            BodyOutcome { item: Ok(None), kind, rest: src }
        } else if left > src.len() {
            BodyOutcome {
                item: Ok(Some(ItemView::Chunk(src))),
                kind: Kind::Length((left - src.len()) as u64),
                rest: Seq::empty(),
            }
        } else {
            BodyOutcome {
                item: Ok(Some(ItemView::Chunk(src.subrange(0, left as int)))),
                kind: Kind::Length(0),
                rest: rest(src, left as int),
            }
        },
        Kind::Chunked(state, size) => chunk_run(state, size, src),
        Kind::Eof => if src.len() == 0 {
            BodyOutcome { item: Ok(None), kind, rest: src }
        } else {
            BodyOutcome { item: Ok(Some(ItemView::Chunk(src))), kind, rest: Seq::empty() }
        },
    }
}

/// View of the outcome of decoding an item.
pub open spec fn item_outcome(r: Result<Option<PayloadItem>, DecodeError>) -> Result<
    Option<ItemView>,
    &'static str,
> {
    match r {
        Ok(Some(item)) => Ok(Some(item@)),
        Ok(None) => Ok(None),
        Err(DecodeError::InvalidInput(e)) => Err(e),
        Err(_) => Err(""),
    }
}

/// The decoder is between two chunks of a body, with the given bytes ahead: the
/// line end behind the last chunk may still be due.
pub open spec fn at_boundary(kind: Kind, src: Seq<u8>, ahead: Seq<u8>) -> bool {
    match kind {
        Kind::Chunked(ChunkedState::Size, _) => src == ahead,
        Kind::Chunked(ChunkedState::BodyCr, _) => src == crlf() + ahead,
        _ => false,
    }
}

/// The decoder is on its way to the bytes of a chunk.
spec fn on_path(
    state: ChunkedState,
    size: u64,
    src: Seq<u8>,
    data: Seq<u8>,
    tail: Seq<u8>,
) -> bool {
    let ahead = chunk_frame(data) + tail;
    match state {
        ChunkedState::Size => src == ahead,
        ChunkedState::BodyCr => src == crlf() + ahead,
        ChunkedState::BodyLf => src == seq![10u8] + ahead,
        ChunkedState::Body => size == data.len() && src == data + crlf() + tail,
        _ => false,
    }
}

/// The decoder is on its way to the end of a body.
spec fn on_end_path(state: ChunkedState, src: Seq<u8>, tail: Seq<u8>) -> bool {
    let ahead = last_frame() + tail;
    match state {
        ChunkedState::Size => src == ahead,
        ChunkedState::BodyCr => src == crlf() + ahead,
        ChunkedState::BodyLf => src == seq![10u8] + ahead,
        ChunkedState::EndCr => src == crlf() + tail,
        ChunkedState::EndLf => src == seq![10u8] + tail,
        _ => false,
    }
}

proof fn path_step(
    state: ChunkedState,
    size: u64,
    src: Seq<u8>,
    data: Seq<u8>,
    tail: Seq<u8>,
)
    requires
        on_path(state, size, src, data, tail),
        0 < data.len() <= u64::MAX,
        src.len() <= usize::MAX,
        state == ChunkedState::Size && starts_with(src, size_line(data.len() as u64))
            ==> chunk_line(src) == ChunkLine::Complete(
            size_line(data.len() as u64).len() as usize,
            data.len() as u64,
        ),
    ensures
        chunk_step(state, size, src) matches Step::Next(next, n, taken, left) && (if state
            == ChunkedState::Body {
            taken == Some(data) && next == ChunkedState::BodyCr && left == crlf() + tail
        } else {
            taken is None && next != ChunkedState::End && left.len() > 0 && on_path(
                next,
                n,
                left,
                data,
                tail,
            )
        }),
{
    let ahead = chunk_frame(data) + tail;
    let line = size_line(data.len() as u64);
    match state {
        ChunkedState::Size => {
            assert(src.subrange(0, line.len() as int) =~= line);
            assert(rest(src, line.len() as int) =~= data + crlf() + tail);
        },
        ChunkedState::BodyCr => {
            assert(src[0] == crlf()[0]);
            assert(rest(src, 1) =~= seq![10u8] + ahead);
        },
        ChunkedState::BodyLf => {
            assert(rest(src, 1) =~= ahead);
        },
        _ => {
            assert(src.subrange(0, data.len() as int) =~= data);
            assert(rest(src, data.len() as int) =~= crlf() + tail);
        },
    }
}

proof fn end_step(state: ChunkedState, size: u64, src: Seq<u8>, tail: Seq<u8>)
    requires
        on_end_path(state, src, tail),
        src.len() <= usize::MAX,
        state == ChunkedState::Size && starts_with(src, size_line(0)) ==> chunk_line(src)
            == ChunkLine::Complete(size_line(0).len() as usize, 0),
    ensures
        chunk_step(state, size, src) matches Step::Next(next, _, taken, left) && taken is None && (
        if state == ChunkedState::EndLf {
            next == ChunkedState::End && left == tail
        } else {
            next != ChunkedState::End && left.len() > 0 && on_end_path(next, left, tail)
        }),
{
    let ahead = last_frame() + tail;
    match state {
        ChunkedState::Size => {
            assert(size_line(0) =~= seq![48u8, 13, 10]);
            assert(src.subrange(0, 3) =~= size_line(0));
            assert(rest(src, 3) =~= crlf() + tail);
        },
        ChunkedState::BodyCr => {
            assert(src[0] == crlf()[0]);
            assert(rest(src, 1) =~= seq![10u8] + ahead);
        },
        ChunkedState::BodyLf => {
            assert(rest(src, 1) =~= ahead);
        },
        ChunkedState::EndCr => {
            assert(src[0] == crlf()[0]);
            assert(rest(src, 1) =~= seq![10u8] + tail);
        },
        _ => {
            assert(rest(src, 1) =~= tail);
        },
    }
}

/// What one step of a chunked body does.
enum StepResult {
    Pending,
    Failed(&'static str),
    Next(ChunkedState),
}

impl ChunkedState {
    fn step(self, body: &mut Vec<u8>, size: &mut u64, buf: &mut Option<Vec<u8>>) -> (r: StepResult)
        requires
            *old(buf) is None,
        ensures
            match chunk_step(self, *old(size), old(body)@) {
                Step::Pending => r is Pending && *final(size) == *old(size) && final(body)@ == old(
                    body,
                )@ && *final(buf) is None,
                Step::Failed(e, left) => r == StepResult::Failed(e) && *final(size) == *old(size)
                    && final(body)@ == left && *final(buf) is None,
                Step::Next(next, n, taken, left) => {
                    &&& r == StepResult::Next(next)
                    &&& *final(size) == n
                    &&& final(body)@ == left
                    &&& taken == match *final(buf) {
                        Some(b) => Some(b@),
                        None => None,
                    }
                },
            },
            r matches StepResult::Next(next) && next != ChunkedState::End && *final(buf) is None
                && final(body)@.len() > 0 ==> final(body)@.len() < old(body)@.len(),
            self == ChunkedState::Size ==> forall|n: u64|
                starts_with(old(body)@, #[trigger] size_line(n)) ==> chunk_line(old(body)@)
                    == ChunkLine::Complete(size_line(n).len() as usize, n),
            self != ChunkedState::Body && !(r is Pending) ==> forall|more: Seq<u8>| #[trigger]
                chunk_step(self, *old(size), old(body)@ + more) == extended(
                    chunk_step(self, *old(size), old(body)@),
                    more,
                ),
    {
        proof {
            if self != ChunkedState::Size && self != ChunkedState::Body {
                assert forall|more: Seq<u8>|
                    body@.len() > 0 || self == ChunkedState::End implies #[trigger] chunk_step(
                    self,
                    *size,
                    body@ + more,
                ) == extended(chunk_step(self, *size, body@), more) by {
                    if body@.len() > 0 {
                        assert(rest(body@ + more, 1) =~= rest(body@, 1) + more);
                    }
                }
            }
            if body@.len() == 0 {
                assert(starts_with(size_line(0), body@)) by {
                    assert(size_line(0).subrange(0, 0) =~= body@);
                }
            }
        }
        let ghost line = body@;
        match self {
            ChunkedState::Size => match parse_chunk_size(body.as_slice()) {
                ChunkLine::Complete(pos, sz) => {
                    let _ = split_to(body, pos);
                    proof {
                        assert forall|more: Seq<u8>| #[trigger]
                            chunk_step(self, *old(size), line + more) == extended(
                                chunk_step(self, *old(size), line),
                                more,
                            ) by {
                            assert(chunk_line(line + more) == chunk_line(line));
                            assert(rest(line + more, pos as int) =~= rest(line, pos as int) + more);
                        }
                    }
                    *size = sz;
                    if sz > 0 {
                        StepResult::Next(ChunkedState::Body)
                    } else {
                        StepResult::Next(ChunkedState::EndCr)
                    }
                },
                ChunkLine::Partial => StepResult::Pending,
                ChunkLine::Failed => {
                    assert forall|more: Seq<u8>| #[trigger]
                        chunk_step(self, *old(size), line + more) == extended(
                            chunk_step(self, *old(size), line),
                            more,
                        ) by {
                        assert(chunk_line(line + more) == chunk_line(line));
                    }
                    StepResult::Failed("Invalid chunk size line: Invalid Size")
                },
            },
            ChunkedState::Body => ChunkedState::read_body(body, size, buf),
            ChunkedState::BodyCr => ChunkedState::read_body_cr(body),
            ChunkedState::BodyLf => ChunkedState::read_body_lf(body),
            ChunkedState::EndCr => ChunkedState::read_end_cr(body),
            ChunkedState::EndLf => ChunkedState::read_end_lf(body),
            ChunkedState::End => StepResult::Next(ChunkedState::End),
        }
    }

    fn read_body(rdr: &mut Vec<u8>, rem: &mut u64, buf: &mut Option<Vec<u8>>) -> (r: StepResult)
        requires
            *old(buf) is None,
        ensures
            match chunk_step(ChunkedState::Body, *old(rem), old(rdr)@) {
                Step::Next(next, n, taken, left) => {
                    &&& r == StepResult::Next(next)
                    &&& *final(rem) == n
                    &&& final(rdr)@ == left
                    &&& taken == match *final(buf) {
                        Some(b) => Some(b@),
                        None => None,
                    }
                },
                _ => false,
            },
    {
        let len: u64 = rdr.len() as u64;
        if len == 0 {
            StepResult::Next(ChunkedState::Body)
        } else {
            let slice;
            if *rem > len {
                slice = take_all(rdr);
                *rem = *rem - len;
            } else {
                slice = split_to(rdr, *rem as usize);
                *rem = 0;
            }
            *buf = Some(slice);
            if *rem > 0 {
                StepResult::Next(ChunkedState::Body)
            } else {
                StepResult::Next(ChunkedState::BodyCr)
            }
        }
    }

    fn read_byte(
        rdr: &mut Vec<u8>,
        b: u8,
        next: ChunkedState,
        err: &'static str,
    ) -> (r: StepResult)
        ensures
            match expect_byte(old(rdr)@, b, next, 0, err) {
                Step::Pending => r is Pending && final(rdr)@ == old(rdr)@,
                Step::Failed(e, left) => r == StepResult::Failed(e) && final(rdr)@ == left,
                Step::Next(n, _, _, left) => r == StepResult::Next(n) && final(rdr)@ == left,
            },
    {
        if rdr.len() > 0 {
            let first = rdr[0];
            let _ = split_to(rdr, 1);
            if first == b {
                StepResult::Next(next)
            } else {
                StepResult::Failed(err)
            }
        } else {
            StepResult::Pending
        }
    }

    fn read_body_cr(rdr: &mut Vec<u8>) -> (r: StepResult)
        ensures
            match expect_byte(old(rdr)@, 13, ChunkedState::BodyLf, 0, "Invalid chunk body CR") {
                Step::Pending => r is Pending && final(rdr)@ == old(rdr)@,
                Step::Failed(e, left) => r == StepResult::Failed(e) && final(rdr)@ == left,
                Step::Next(n, _, _, left) => r == StepResult::Next(n) && final(rdr)@ == left,
            },
    {
        ChunkedState::read_byte(rdr, 13, ChunkedState::BodyLf, "Invalid chunk body CR")
    }

    fn read_body_lf(rdr: &mut Vec<u8>) -> (r: StepResult)
        ensures
            match expect_byte(old(rdr)@, 10, ChunkedState::Size, 0, "Invalid chunk body LF") {
                Step::Pending => r is Pending && final(rdr)@ == old(rdr)@,
                Step::Failed(e, left) => r == StepResult::Failed(e) && final(rdr)@ == left,
                Step::Next(n, _, _, left) => r == StepResult::Next(n) && final(rdr)@ == left,
            },
    {
        ChunkedState::read_byte(rdr, 10, ChunkedState::Size, "Invalid chunk body LF")
    }

    fn read_end_cr(rdr: &mut Vec<u8>) -> (r: StepResult)
        ensures
            match expect_byte(old(rdr)@, 13, ChunkedState::EndLf, 0, "Invalid chunk end CR") {
                Step::Pending => r is Pending && final(rdr)@ == old(rdr)@,
                Step::Failed(e, left) => r == StepResult::Failed(e) && final(rdr)@ == left,
                Step::Next(n, _, _, left) => r == StepResult::Next(n) && final(rdr)@ == left,
            },
    {
        ChunkedState::read_byte(rdr, 13, ChunkedState::EndLf, "Invalid chunk end CR")
    }

    fn read_end_lf(rdr: &mut Vec<u8>) -> (r: StepResult)
        ensures
            match expect_byte(old(rdr)@, 10, ChunkedState::End, 0, "Invalid chunk end LF") {
                Step::Pending => r is Pending && final(rdr)@ == old(rdr)@,
                Step::Failed(e, left) => r == StepResult::Failed(e) && final(rdr)@ == left,
                Step::Next(n, _, _, left) => r == StepResult::Next(n) && final(rdr)@ == left,
            },
    {
        ChunkedState::read_byte(rdr, 10, ChunkedState::End, "Invalid chunk end LF")
    }
}

impl PayloadDecoder {
    /// A body of the given length.
    pub fn length(x: u64) -> (r: PayloadDecoder)
        ensures
            r.kind == Kind::Length(x),
    {
        PayloadDecoder { kind: Kind::Length(x) }
    }

    /// A body in chunked transfer coding.
    pub fn chunked() -> (r: PayloadDecoder)
        ensures
            r.kind == Kind::Chunked(ChunkedState::Size, 0),
    {
        PayloadDecoder { kind: Kind::Chunked(ChunkedState::Size, 0) }
    }

    /// A body that ends with the connection.
    pub fn eof() -> (r: PayloadDecoder)
        ensures
            r.kind == Kind::Eof,
    {
        PayloadDecoder { kind: Kind::Eof }
    }

    /// Decodes the next item of the body.
    ///
    /// Decoding undoes the encoding of chunks: between two chunks, with an
    /// encoded chunk ahead, its bytes come out and the decoder is between two
    /// chunks again; with the encoded end ahead, the body ends and what follows
    /// it is left alone.
    ///
    /// However the bytes are cut, the body delivers the same data, ends in the same
    /// way and leaves the same bytes: see [`super::delivery::cuts_do_not_matter`].
    pub fn decode(&mut self, src: &mut Vec<u8>) -> (r: Result<Option<PayloadItem>, DecodeError>)
        ensures
            forall|data: Seq<u8>, tail: Seq<u8>| #[trigger]
                at_boundary(old(self).kind, old(src)@, chunk_frame(data) + tail) && data.len() > 0
                    ==> item_outcome(r) == Ok::<Option<ItemView>, &'static str>(
                    Some(ItemView::Chunk(data)),
                ) && at_boundary(final(self).kind, final(src)@, tail),
            forall|tail: Seq<u8>| #[trigger]
                at_boundary(old(self).kind, old(src)@, last_frame() + tail) ==> item_outcome(r)
                    == Ok::<Option<ItemView>, &'static str>(Some(ItemView::Eof)) && final(src)@
                    == tail,
            item_outcome(r) == body_step(old(self).kind, old(src)@).item,
            r matches Err(e) ==> e is InvalidInput,
            final(self).kind == body_step(old(self).kind, old(src)@).kind,
            final(src)@ == body_step(old(self).kind, old(src)@).rest,
            goes_on(old(self).kind, old(src)@, item_outcome(r), final(self).kind, final(src)@),
    {
        match self.kind {
            Kind::Length(remaining) => {
                proof {
                    length_goes_on(remaining, src@);
                }
                if remaining == 0 {
                    Ok(Some(PayloadItem::Eof))
                } else {
                    if src.len() == 0 {
                        return Ok(None);
                    }
                    let len: u64 = src.len() as u64;
                    let buf;
                    if remaining > len {
                        buf = take_all(src);
                        self.kind = Kind::Length(remaining - len);
                    } else {
                        buf = split_to(src, remaining as usize);
                        self.kind = Kind::Length(0);
                    }
                    Ok(Some(PayloadItem::Chunk(buf)))
                }
            },
            Kind::Chunked(state, size) => {
                let mut state = state;
                let mut size: u64 = size;
                let len: usize = src.len();
                proof {
                    assert(len <= u64::MAX);
                    assert forall|data: Seq<u8>, tail: Seq<u8>| #[trigger]
                        at_boundary(old(self).kind, old(src)@, chunk_frame(data) + tail)
                            && data.len() > 0 implies data.len() <= u64::MAX by {
                        assert(src@.len() >= data.len());
                    }
                }
                loop
                    invariant
                        chunk_run(state, size, src@) == body_step(old(self).kind, old(src)@),
                        old(self).kind is Chunked,
                        src@.len() <= usize::MAX,
                        forall|data: Seq<u8>, tail: Seq<u8>| #[trigger]
                            at_boundary(old(self).kind, old(src)@, chunk_frame(data) + tail)
                                && data.len() > 0 ==> on_path(state, size, src@, data, tail)
                                && data.len() <= u64::MAX,
                        forall|tail: Seq<u8>| #[trigger]
                            at_boundary(old(self).kind, old(src)@, last_frame() + tail)
                                ==> on_end_path(state, src@, tail),
                        forall|more: Seq<u8>| #[trigger]
                            body_run(old(self).kind, old(src)@ + more) == body_run(
                                Kind::Chunked(state, size),
                                src@ + more,
                            ),
                    decreases src@.len(),
                {
                    let mut buf: Option<Vec<u8>> = None;
                    let ghost before = src@;
                    let ghost state0 = state;
                    let ghost size0 = size;
                    let result = state.step(src, &mut size, &mut buf);
                    proof {
                        assert forall|data: Seq<u8>, tail: Seq<u8>| #[trigger]
                            at_boundary(old(self).kind, old(src)@, chunk_frame(data) + tail)
                                && data.len() > 0 implies result matches StepResult::Next(next)
                            && next != ChunkedState::End && (if state0 == ChunkedState::Body {
                            buf matches Some(b) && b@ == data && at_boundary(
                                Kind::Chunked(next, size),
                                src@,
                                tail,
                            )
                        } else {
                            buf is None && src@.len() > 0 && on_path(next, size, src@, data, tail)
                        }) by {
                            path_step(state0, size0, before, data, tail);
                        }
                        assert forall|tail: Seq<u8>| #[trigger]
                            at_boundary(
                                old(self).kind,
                                old(src)@,
                                last_frame() + tail,
                            ) implies result matches StepResult::Next(next) && buf is None && (
                        if state0 == ChunkedState::EndLf {
                            next == ChunkedState::End && src@ == tail
                        } else {
                            next != ChunkedState::End && src@.len() > 0 && on_end_path(
                                next,
                                src@,
                                tail,
                            )
                        }) by {
                            end_step(state0, size0, before, tail);
                        }
                        assert forall|more: Seq<u8>| !(result is Pending) implies (match result {
                            StepResult::Pending => true,
                            StepResult::Failed(e) => #[trigger] body_run(
                                old(self).kind,
                                old(src)@ + more,
                            ) == (BodyRun {
                                data: Seq::empty(),
                                end: BodyEnd::Failed(e),
                                kind: Kind::Chunked(state0, size0),
                                rest: src@ + more,
                            }),
                            StepResult::Next(next) => body_run(old(self).kind, old(src)@ + more)
                                == if next == ChunkedState::End {
                                BodyRun {
                                    data: Seq::empty(),
                                    end: BodyEnd::Eof,
                                    kind: Kind::Chunked(next, size),
                                    rest: src@ + more,
                                }
                            } else if let Some(b) = buf {
                                after_data(b@, body_run(Kind::Chunked(next, size), src@ + more))
                            } else {
                                body_run(Kind::Chunked(next, size), src@ + more)
                            },
                        }) by {
                            if state0 != ChunkedState::Body {
                                step_goes_on(state0, size0, before, more);
                            } else if before.len() > 0 {
                                data_goes_on(size0, before, more);
                            }
                        }
                    }
                    match result {
                        StepResult::Pending => {
                            self.kind = Kind::Chunked(state, size);
                            return Ok(None);
                        },
                        StepResult::Failed(e) => {
                            self.kind = Kind::Chunked(state, size);
                            return Err(DecodeError::InvalidInput(e));
                        },
                        StepResult::Next(next) => {
                            state = next;
                        },
                    }
                    if state == ChunkedState::End {
                        self.kind = Kind::Chunked(state, size);
                        return Ok(Some(PayloadItem::Eof));
                    }
                    if let Some(buf) = buf {
                        self.kind = Kind::Chunked(state, size);
                        return Ok(Some(PayloadItem::Chunk(buf)));
                    }
                    if src.len() == 0 {
                        self.kind = Kind::Chunked(state, size);
                        return Ok(None);
                    }
                }
            },
            Kind::Eof => {
                proof {
                    eof_goes_on(src@);
                }
                if src.len() == 0 {
                    Ok(None)
                } else {
                    Ok(Some(PayloadItem::Chunk(take_all(src))))
                }
            },
        }
    }
}

// ---------------------------------------------------------------------------
// Message heads
// ---------------------------------------------------------------------------

/// What the headers say of the length of the body.
#[derive(Copy, Clone, Debug, PartialEq, Eq, Structural)]
pub enum PayloadLength {
    Payload(PayloadType),
    Upgrade,
    Unknown,
}

impl PayloadLength {
    /// A body of length zero.
    pub open spec fn zero(self) -> bool {
        self == PayloadLength::Payload(
            PayloadType::Payload(PayloadDecoder { kind: Kind::Length(0) }),
        )
    }

    /// Whether the headers do not tell.
    pub fn is_none(&self) -> (r: bool)
        ensures
            r == (*self == PayloadLength::Unknown),
    {
        matches!(self, PayloadLength::Unknown)
    }

    /// Whether the headers give the length zero.
    pub fn is_zero(&self) -> (r: bool)
        ensures
            r == self.zero(),
    {
        *self == PayloadLength::Payload(PayloadType::Payload(PayloadDecoder::length(0)))
    }
}

/// What the headers of a message said so far.
#[derive(Copy, Clone, Debug, PartialEq, Eq, Structural)]
pub struct HeadState {
    /// Connection type
    pub ka: Option<ConnectionType>,
    /// An `Upgrade` header came
    pub has_upgrade: bool,
    /// An `Expect: 100-continue` header came
    pub expect: bool,
    /// The body is in chunked transfer coding
    pub chunked: bool,
    /// A `Transfer-Encoding` header came
    pub seen_te: bool,
    /// Content length
    pub content_length: Option<u64>,
    /// Protocol version
    pub version: Version,
}

/// Nothing said yet.
pub open spec fn new_state(version: Version) -> HeadState {
    HeadState {
        ka: None,
        has_upgrade: false,
        expect: false,
        chunked: false,
        seen_te: false,
        content_length: None,
        version,
    }
}

/// The length of the body: chunked transfer coding comes first, then the
/// content length, then an upgrade.
pub open spec fn length_of(st: HeadState) -> PayloadLength {
    if st.chunked {
        PayloadLength::Payload(
            PayloadType::Payload(PayloadDecoder { kind: Kind::Chunked(ChunkedState::Size, 0) }),
        )
    } else if st.content_length is Some {
        PayloadLength::Payload(
            PayloadType::Payload(PayloadDecoder { kind: Kind::Length(st.content_length->0) }),
        )
    } else if st.has_upgrade {
        PayloadLength::Upgrade
    } else {
        PayloadLength::Unknown
    }
}

impl HeadState {
    /// Nothing said yet.
    pub fn new(version: Version) -> (r: HeadState)
        ensures
            r == new_state(version),
    {
        HeadState {
            ka: None,
            has_upgrade: false,
            expect: false,
            chunked: false,
            seen_te: false,
            content_length: None,
            version,
        }
    }

    /// The length of the body.
    pub fn payload_length(&self) -> (r: PayloadLength)
        ensures
            r == length_of(*self),
    {
        if self.chunked {
            PayloadLength::Payload(PayloadType::Payload(PayloadDecoder::chunked()))
        } else if let Some(len) = self.content_length {
            PayloadLength::Payload(PayloadType::Payload(PayloadDecoder::length(len)))
        } else if self.has_upgrade {
            PayloadLength::Upgrade
        } else {
            PayloadLength::Unknown
        }
    }
}

/// A content length: decimal digits only, within the range of `u64`.
pub open spec fn is_length(value: Seq<u8>) -> bool {
    value.len() > 0 && all_digits(value) && decimal_value(value) <= u64::MAX
}

/// A token, up to case, starts at a position of a `Connection` value.
pub open spec fn token_at(v: Seq<u8>, i: int, token: Seq<u8>) -> bool {
    i + token.len() <= v.len() && eq_ignore_case(v.subrange(i, i + token.len()), token)
}

/// A token of a `Connection` value may end before a position: the byte after
/// it, if there is one, is a blank, a comma or of a line end.
pub open spec fn token_ends(v: Seq<u8>, pos: int) -> bool {
    v.len() > pos + 1 ==> v[pos + 1] == 32 || v[pos + 1] == 44 || v[pos + 1] == 13 || v[pos + 1]
        == 10
}

/// The connection type that is named at a position of a `Connection` value.
pub open spec fn type_at(v: Seq<u8>, i: int) -> Option<ConnectionType> {
    if token_at(v, i, ascii("keep-alive"@)) {
        if token_ends(v, i + 10) {
            Some(ConnectionType::KeepAlive)
        } else {
            None
        }
    } else if token_at(v, i, ascii("close"@)) {
        if token_ends(v, i + 5) {
            Some(ConnectionType::Close)
        } else {
            None
        }
    } else if token_at(v, i, ascii("upgrade"@)) {
        if token_ends(v, i + 7) {
            Some(ConnectionType::Upgrade)
        } else {
            None
        }
    } else {
        None
    }
}

/// The first connection type that is named from a position on, within the
/// first five bytes.
pub open spec fn type_from(v: Seq<u8>, i: int) -> Option<ConnectionType>
    decreases 5 - i,
{
    if i >= 5 || i >= v.len() {
        None
    } else {
        match type_at(v, i) {
            Some(t) => Some(t),
            None => type_from(v, i + 1),
        }
    }
}

fn has_token(val: &[u8], i: usize, token: &[u8]) -> (r: bool)
    requires
        i < val@.len(),
    ensures
        r == token_at(val@, i as int, token@),
{
    if val.len() - i >= token.len() {
        eq_ignore_ascii_case(vstd::slice::slice_subrange(val, i, i + token.len()), token)
    } else {
        false
    }
}

fn token_end(val: &[u8], pos: usize) -> (r: bool)
    requires
        pos <= val@.len(),
    ensures
        r == token_ends(val@, pos as int),
{
    if val.len() - pos > 1 {
        let b = val[pos + 1];
        b == 32 || b == 44 || b == 13 || b == 10
    } else {
        true
    }
}

/// The connection type that a `Connection` value names.
pub fn connection_type(val: &[u8]) -> (r: Option<ConnectionType>)
    ensures
        r == type_from(val@, 0),
{
    proof {
        reveal_strlit("keep-alive");
        reveal_strlit("close");
        reveal_strlit("upgrade");
    }
    let mut i: usize = 0;
    while i < val.len()
        invariant
            i <= val@.len(),
            i <= 5,
            type_from(val@, 0) == type_from(val@, i as int),
            "keep-alive"@.len() == 10,
            "close"@.len() == 5,
            "upgrade"@.len() == 7,
            "keep-alive".is_ascii(),
            "close".is_ascii(),
            "upgrade".is_ascii(),
        decreases val@.len() - i,
    {
        if i >= 5 {
            return None;
        }
        if has_token(val, i, ascii_bytes("keep-alive")) {
            if token_end(val, i + 10) {
                return Some(ConnectionType::KeepAlive);
            }
        } else if has_token(val, i, ascii_bytes("close")) {
            if token_end(val, i + 5) {
                return Some(ConnectionType::Close);
            }
        } else if has_token(val, i, ascii_bytes("upgrade")) {
            if token_end(val, i + 7) {
                return Some(ConnectionType::Upgrade);
            }
        }
        i += 1;
    }
    None
}

/// What a header adds to what the headers said so far, or the error that it
/// makes of the message. The name is in lower case.
pub open spec fn header_state(st: HeadState, name: Seq<char>, value: Seq<u8>) -> Result<
    HeadState,
    DecodeError,
> {
    if name == "content-length"@ {
        if st.content_length is Some || st.chunked || !is_length(value) {
            Err(DecodeError::Header)
        } else {
            Ok(HeadState { content_length: Some(decimal_value(value) as u64), ..st })
        }
    } else if name == "transfer-encoding"@ {
        if st.seen_te {
            Err(DecodeError::Header)
        } else if st.version == Version::HTTP_11 {
            if !is_text(value) {
                Err(DecodeError::Header)
            } else if eq_ignore_case(trim(value), ascii("chunked"@)) && st.content_length is None {
                Ok(HeadState { seen_te: true, chunked: true, ..st })
            } else if eq_ignore_case(trim(value), ascii("identity"@)) {
                Ok(HeadState { seen_te: true, ..st })
            } else {
                Err(DecodeError::Header)
            }
        } else if st.version == Version::HTTP_10 {
            Err(DecodeError::InvalidInput("Transfer-Encoding is not supported by HTTP/1.0"))
        } else {
            Ok(st)
        }
    } else if name == "connection"@ {
        Ok(
            HeadState {
                ka: if is_text(value) {
                    type_from(value, 0)
                } else {
                    None
                },
                ..st
            },
        )
    } else if name == "upgrade"@ {
        Ok(
            HeadState {
                has_upgrade: true,
                content_length: if is_text(value) && eq_ignore_case(
                    trim(value),
                    ascii("websocket"@),
                ) {
                    None
                } else {
                    st.content_length
                },
                ..st
            },
        )
    } else if name == "expect"@ {
        Ok(
            HeadState {
                expect: st.expect || eq_ignore_case(value, ascii("100-continue"@)),
                ..st
            },
        )
    } else {
        Ok(st)
    }
}

/// What is left of a header that was refused: a transfer coding was seen.
pub open spec fn refused(st: HeadState, name: Seq<char>) -> HeadState {
    HeadState {
        seen_te: st.seen_te || name == "transfer-encoding"@ && st.version == Version::HTTP_11,
        ..st
    }
}

impl HeadState {
    /// Takes a header into account.
    pub fn set_header(&mut self, name: &str, value: &[u8]) -> (r: Result<(), DecodeError>)
        ensures
            match header_state(*old(self), name@, value@) {
                Ok(st) => r is Ok && *final(self) == st,
                Err(e) => r == Err::<(), DecodeError>(e) && *final(self) == refused(
                    *old(self),
                    name@,
                ),
            },
    {
        proof {
            reveal_strlit("content-length");
            reveal_strlit("transfer-encoding");
            assert("content-length"@.len() != "transfer-encoding"@.len());
            reveal_strlit("chunked");
            reveal_strlit("identity");
            reveal_strlit("websocket");
            reveal_strlit("100-continue");
        }
        if str_eq(name, "content-length") {
            if self.content_length.is_some() || self.chunked {
                return Err(DecodeError::Header);
            }
            match parse_u64(value) {
                Some(len) => {
                    self.content_length = Some(len);
                },
                None => {
                    return Err(DecodeError::Header);
                },
            }
        } else if str_eq(name, "transfer-encoding") {
            if self.seen_te {
                return Err(DecodeError::Header);
            }
            if self.version == Version::HTTP_11 {
                self.seen_te = true;
                if !is_text_bytes(value) {
                    return Err(DecodeError::Header);
                }
                let s = trim_bytes(value);
                if eq_ignore_ascii_case(s, ascii_bytes("chunked")) && self.content_length.is_none() {
                    self.chunked = true;
                } else if !eq_ignore_ascii_case(s, ascii_bytes("identity")) {
                    return Err(DecodeError::Header);
                }
            } else if self.version == Version::HTTP_10 {
                return Err(
                    DecodeError::InvalidInput("Transfer-Encoding is not supported by HTTP/1.0"),
                );
            }
        } else if str_eq(name, "connection") {
            self.ka = if is_text_bytes(value) {
                connection_type(value)
            } else {
                None
            };
        } else if str_eq(name, "upgrade") {
            self.has_upgrade = true;
            // some clients send "content-length: 0" with a websocket upgrade
            if is_text_bytes(value) && eq_ignore_ascii_case(
                trim_bytes(value),
                ascii_bytes("websocket"),
            ) {
                self.content_length = None;
            }
        } else if str_eq(name, "expect") {
            if eq_ignore_ascii_case(value, ascii_bytes("100-continue")) {
                self.expect = true;
            }
        }
        Ok(())
    }
}

/// A head never ends up with both a content length and chunked transfer coding:
/// once one is set, a header that asks for the other makes an error.
pub proof fn one_framing(st: HeadState, name: Seq<char>, value: Seq<u8>)
    requires
        !(st.chunked && st.content_length is Some),
    ensures
        header_state(st, name, value) matches Ok(next) ==> !(next.chunked && next.content_length
            is Some),
        name == "content-length"@ && (st.content_length is Some || st.chunked) ==> header_state(
            st,
            name,
            value,
        ) == Err::<HeadState, DecodeError>(DecodeError::Header),
        name == "transfer-encoding"@ && st.seen_te ==> header_state(st, name, value) == Err::<
            HeadState,
            DecodeError,
        >(DecodeError::Header),
{
    reveal_strlit("content-length");
    reveal_strlit("transfer-encoding");
    assert("content-length"@.len() != "transfer-encoding"@.len());
}

/// The start line of a message.
pub enum StartLine {
    /// The line is not complete.
    Pending,
    /// The bytes are not a start line.
    Failed,
    /// Number of bytes up to the first header, and the version.
    Complete(int, Version),
}

/// What reading a start line gives.
pub enum Started<T> {
    Pending,
    Failed(DecodeError),
    Complete(T),
}

/// The version with the given minor number.
pub open spec fn version_of(minor: u8) -> Version {
    if minor == 1 {
        Version::HTTP_11
    } else {
        Version::HTTP_10
    }
}

fn minor_version(minor: u8) -> (r: Version)
    ensures
        r == version_of(minor),
{
    if minor == 1 {
        Version::HTTP_11
    } else {
        Version::HTTP_10
    }
}

/// A message that has a head: a request or a response.
pub trait MessageType: Sized {
    /// Protocol version.
    spec fn version_spec(self) -> Version;

    /// Header fields.
    spec fn fields_spec(self) -> Fields;

    /// Headers in their original order and casing.
    spec fn items_spec(self) -> Seq<HeaderItemView>;

    /// Marks.
    spec fn flags_spec(self) -> Flags;

    /// The messages differ in their headers and marks at most.
    spec fn same_start(self, other: Self) -> bool;

    /// The start line at the front of the bytes.
    spec fn start_line(src: Seq<u8>) -> StartLine;

    /// The error of bytes that are not a start line.
    spec fn start_error(src: Seq<u8>, e: DecodeError) -> bool;

    /// The message has the start line that is at the front of the bytes.
    spec fn is_started(self, src: Seq<u8>) -> bool;

    /// The marks and the body of a message, from what its headers said.
    spec fn body_spec(self, st: HeadState) -> Result<(Flags, PayloadType), DecodeError>;

    /// Protocol version.
    fn msg_version(&self) -> (r: Version)
        ensures
            r == self.version_spec(),
    ;

    /// Adds a header.
    fn append_header(&mut self, name: &str, value: &[u8])
        requires
            valid_name(name@),
            valid_value(value@),
        ensures
            final(self).same_start(*old(self)),
            final(self).version_spec() == old(self).version_spec(),
            final(self).flags_spec() == old(self).flags_spec(),
            final(self).items_spec() == old(self).items_spec(),
            final(self).fields_spec() == appended(old(self).fields_spec(), key(name@), value@),
    ;

    /// Adds a header to those in their original order.
    fn push_item(&mut self, item: HeaderItem)
        ensures
            final(self).same_start(*old(self)),
            final(self).version_spec() == old(self).version_spec(),
            final(self).flags_spec() == old(self).flags_spec(),
            final(self).items_spec() == old(self).items_spec().push(item@),
            final(self).fields_spec() == old(self).fields_spec(),
    ;

    /// Reads the start line.
    fn decode(src: &mut Vec<u8>) -> (r: Started<Self>)
        ensures
            match Self::start_line(old(src)@) {
                StartLine::Pending => r is Pending && final(src)@ == old(src)@,
                StartLine::Failed => r matches Started::Failed(e) && Self::start_error(
                    old(src)@,
                    e,
                ),
                StartLine::Complete(len, version) => {
                    &&& r matches Started::Complete(msg)
                    &&& msg.is_started(old(src)@)
                    &&& msg.version_spec() == version
                    &&& msg.fields_spec() == no_fields()
                    &&& msg.items_spec() == Seq::<HeaderItemView>::empty()
                    &&& msg.flags_spec() == no_flags()
                    &&& 0 < len <= old(src)@.len()
                    &&& final(src)@ == rest(old(src)@, len)
                },
            },
            !(r is Pending) ==> forall|more: Seq<u8>| #[trigger]
                Self::start_line(old(src)@ + more) == Self::start_line(old(src)@),
            r matches Started::Failed(e) ==> forall|more: Seq<u8>| #[trigger]
                Self::start_error(old(src)@ + more, e),
            r matches Started::Complete(msg) ==> forall|more: Seq<u8>| #[trigger]
                msg.is_started(old(src)@ + more),
    ;

    /// Sets the marks and gives the body.
    fn set_payload_length(&mut self, st: &HeadState, length: PayloadLength) -> (r: Result<
        PayloadType,
        DecodeError,
    >)
        requires
            length == length_of(*st),
        ensures
            match old(self).body_spec(*st) {
                Ok((flags, payload)) => {
                    &&& r == Ok::<PayloadType, DecodeError>(payload)
                    &&& final(self).flags_spec() == flags
                    &&& final(self).same_start(*old(self))
                    &&& final(self).fields_spec() == old(self).fields_spec()
                    &&& final(self).items_spec() == old(self).items_spec()
                },
                Err(e) => r == Err::<PayloadType, DecodeError>(e),
            },
    ;

    /// Same start lines are a matter of equality.
    proof fn same_start_trans(a: Self, b: Self, c: Self)
        ensures
            a.same_start(a),
            a.same_start(b) && b.same_start(c) ==> a.same_start(c),
    ;

    /// Messages with the same start line read it from the same bytes, and
    /// differ in their bodies as their headers do.
    proof fn start_is_kept(a: Self, b: Self, src: Seq<u8>, st: HeadState)
        requires
            a.same_start(b),
        ensures
            a.is_started(src) == b.is_started(src),
            a.flags_spec() == b.flags_spec() ==> a.body_spec(st) == b.body_spec(st),
    ;

    /// The start line that was read decides, with the headers, the body.
    proof fn start_decides(a: Self, b: Self, src: Seq<u8>, st: HeadState)
        requires
            a.is_started(src),
            b.is_started(src),
            a.flags_spec() == b.flags_spec(),
        ensures
            a.body_spec(st) == b.body_spec(st),
    ;
}

/// The marks and the body of a request.
pub open spec fn request_body(method: Method, version: Version, flags: Flags, st: HeadState) -> Result<
    (Flags, PayloadType),
    DecodeError,
> {
    let length = length_of(st);
    if version == Version::HTTP_10 && method is POST && length == PayloadLength::Unknown {
        Err(DecodeError::Header)
    } else {
        let marked = match st.ka {
            Some(t) => flags_with(flags, t),
            None => flags,
        };
        let f = Flags { expect: marked.expect || st.expect, ..marked };
        let length = if length.zero() {
            PayloadLength::Unknown
        } else {
            length
        };
        match length {
            PayloadLength::Payload(pl) => Ok((f, pl)),
            PayloadLength::Upgrade => Ok(
                (
                    Flags { upgrade: true, ..f },
                    PayloadType::Stream(PayloadDecoder { kind: Kind::Eof }),
                ),
            ),
            PayloadLength::Unknown => if method is CONNECT {
                Ok(
                    (
                        Flags { upgrade: true, ..f },
                        PayloadType::Stream(PayloadDecoder { kind: Kind::Eof }),
                    ),
                )
            } else {
                Ok((f, PayloadType::NoPayload))
            },
        }
    }
}

impl MessageType for Request {
    open spec fn version_spec(self) -> Version {
        self.head.version
    }

    open spec fn fields_spec(self) -> Fields {
        self.head.fields()
    }

    open spec fn items_spec(self) -> Seq<HeaderItemView> {
        self.head.items()
    }

    open spec fn flags_spec(self) -> Flags {
        self.head.flags
    }

    open spec fn same_start(self, other: Request) -> bool {
        &&& self.head.id == other.head.id
        &&& self.head.uri == other.head.uri
        &&& self.head.method == other.head.method
        &&& self.head.version == other.head.version
        &&& self.payload == other.payload
    }

    open spec fn start_line(src: Seq<u8>) -> StartLine {
        match request_line(src) {
            RequestLine::Partial => StartLine::Pending,
            RequestLine::Failed(_) => StartLine::Failed,
            RequestLine::Complete(method, target, minor, len) => if !is_token_text(method)
                || parsed_uri(target) is Err {
                StartLine::Failed
            } else {
                StartLine::Complete(len as int, version_of(minor))
            },
        }
    }

    open spec fn start_error(src: Seq<u8>, e: DecodeError) -> bool {
        match request_line(src) {
            RequestLine::Partial => false,
            RequestLine::Failed(code) => e == decode_error(error_at(code)),
            RequestLine::Complete(method, target, minor, len) => if !is_token_text(method) {
                e == DecodeError::Method
            } else {
                e matches DecodeError::Uri(text) && parsed_uri(target) == Err::<
                    crate::types::UriParts,
                    Seq<char>,
                >(text@)
            },
        }
    }

    open spec fn is_started(self, src: Seq<u8>) -> bool {
        &&& request_line(src) matches RequestLine::Complete(method, target, minor, len)
        &&& Method::named(self.head.method, chars(method))
        &&& parsed_uri(target) == Ok::<crate::types::UriParts, Seq<char>>(self.head.uri@)
        &&& self.head.version == version_of(minor)
        &&& self.head.id == 0
        &&& self.payload is NoPayload
    }

    open spec fn body_spec(self, st: HeadState) -> Result<(Flags, PayloadType), DecodeError> {
        request_body(self.head.method, self.head.version, self.head.flags, st)
    }

    fn msg_version(&self) -> (r: Version) {
        self.head.version
    }

    fn append_header(&mut self, name: &str, value: &[u8]) {
        map_append(&mut self.head.headers, name, value);
    }

    fn push_item(&mut self, item: HeaderItem) {
        self.head.headers_vec.push(item);
        assert(self.items_spec() =~= old(self).items_spec().push(item@));
    }

    fn decode(src: &mut Vec<u8>) -> (r: Started<Request>) {
        match parse_request(src.as_slice()) {
            ParsedRequest::Complete(method, target, minor, len) => {
                let method = match Method::from_bytes(method.as_slice()) {
                    Some(m) => m,
                    None => {
                        return Started::Failed(DecodeError::Method);
                    },
                };
                let uri = match Uri::from_bytes(target.as_slice()) {
                    Ok(u) => u,
                    Err(e) => {
                        return Started::Failed(DecodeError::Uri(e));
                    },
                };
                let _ = split_to(src, len);
                let mut msg = Request::new();
                msg.head.uri = uri;
                msg.head.method = method;
                msg.head.version = minor_version(minor);
                assert(msg.items_spec() =~= Seq::<HeaderItemView>::empty());
                Started::Complete(msg)
            },
            ParsedRequest::Partial => Started::Pending,
            ParsedRequest::Failed(code) => {
                Started::Failed(DecodeError::from(parse_error(code)))
            },
        }
    }

    fn set_payload_length(&mut self, st: &HeadState, length: PayloadLength) -> (r: Result<
        PayloadType,
        DecodeError,
    >) {
        // HTTP/1.0 POST requests have to contain a Content-Length header
        if self.head.version == Version::HTTP_10 && self.head.method.is_post() && length.is_none() {
            return Err(DecodeError::Header);
        }
        if let Some(ctype) = st.ka {
            self.head.set_connection_type(ctype);
        }
        if st.expect {
            self.head.set_expect();
        }
        // a zero length counts as none once all headers are known
        let mut length = length;
        if length.is_zero() {
            length = PayloadLength::Unknown;
        }
        match length {
            PayloadLength::Payload(pl) => Ok(pl),
            PayloadLength::Upgrade => {
                self.head.set_upgrade();
                Ok(PayloadType::Stream(PayloadDecoder::eof()))
            },
            PayloadLength::Unknown => {
                if self.head.method.is_connect() {
                    self.head.set_upgrade();
                    Ok(PayloadType::Stream(PayloadDecoder::eof()))
                } else {
                    Ok(PayloadType::NoPayload)
                }
            },
        }
    }

    proof fn same_start_trans(a: Request, b: Request, c: Request) {
    }

    proof fn start_is_kept(a: Request, b: Request, src: Seq<u8>, st: HeadState) {
    }

    proof fn start_decides(a: Request, b: Request, src: Seq<u8>, st: HeadState) {
        reveal_strlit("OPTIONS");
        reveal_strlit("GET");
        reveal_strlit("POST");
        reveal_strlit("PUT");
        reveal_strlit("DELETE");
        reveal_strlit("HEAD");
        reveal_strlit("TRACE");
        reveal_strlit("CONNECT");
        reveal_strlit("PATCH");
        assert("POST"@[0] != "HEAD"@[0] && "POST"@.len() == 4);
        assert("PATCH"@.len() == 5 && "TRACE"@.len() == 5 && "DELETE"@.len() == 6);
        assert("GET"@.len() == 3 && "PUT"@.len() == 3);
        assert("CONNECT"@[0] != "OPTIONS"@[0]);
        let name = a.head.method.name();
        assert(name == b.head.method.name());
        assert(a.head.method is POST <==> name == "POST"@);
        assert(b.head.method is POST <==> name == "POST"@);
        assert(a.head.method is CONNECT <==> name == "CONNECT"@);
        assert(b.head.method is CONNECT <==> name == "CONNECT"@);
    }
}

/// The marks and the body of a response.
pub open spec fn response_body(
    status: StatusCode,
    version: Version,
    flags: Flags,
    st: HeadState,
) -> (Flags, PayloadType) {
    let length = if length_of(st).zero() {
        PayloadLength::Unknown
    } else {
        length_of(st)
    };
    let f = match st.ka {
        Some(t) => flags_with(flags, t),
        None => flags,
    };
    match length {
        PayloadLength::Payload(pl) => (f, pl),
        _ => if status == StatusCode(101) {
            (f, PayloadType::Stream(PayloadDecoder { kind: Kind::Eof }))
        } else if version == Version::HTTP_10 {
            (
                flags_with(f, ConnectionType::Close),
                PayloadType::Payload(PayloadDecoder { kind: Kind::Eof }),
            )
        } else {
            (f, PayloadType::NoPayload)
        },
    }
}

impl MessageType for ResponseHead {
    open spec fn version_spec(self) -> Version {
        self.version
    }

    open spec fn fields_spec(self) -> Fields {
        self.fields()
    }

    open spec fn items_spec(self) -> Seq<HeaderItemView> {
        self.items()
    }

    open spec fn flags_spec(self) -> Flags {
        self.flags
    }

    open spec fn same_start(self, other: ResponseHead) -> bool {
        &&& self.status == other.status
        &&& self.version == other.version
        &&& self.reason == other.reason
    }

    open spec fn start_line(src: Seq<u8>) -> StartLine {
        match status_line(src) {
            StatusLine::Partial => StartLine::Pending,
            StatusLine::Failed(_) => StartLine::Failed,
            StatusLine::Complete(minor, code, len) => if 100 <= code <= 999 {
                StartLine::Complete(len as int, version_of(minor))
            } else {
                StartLine::Failed
            },
        }
    }

    open spec fn start_error(src: Seq<u8>, e: DecodeError) -> bool {
        match status_line(src) {
            StatusLine::Partial => false,
            StatusLine::Failed(code) => e == decode_error(error_at(code)),
            StatusLine::Complete(_, _, _) => e == DecodeError::Status,
        }
    }

    open spec fn is_started(self, src: Seq<u8>) -> bool {
        &&& status_line(src) matches StatusLine::Complete(minor, code, len)
        &&& self.status == StatusCode(code)
        &&& self.version == version_of(minor)
        &&& self.reason is None
    }

    open spec fn body_spec(self, st: HeadState) -> Result<(Flags, PayloadType), DecodeError> {
        Ok(response_body(self.status, self.version, self.flags, st))
    }

    fn msg_version(&self) -> (r: Version) {
        self.version
    }

    fn append_header(&mut self, name: &str, value: &[u8]) {
        map_append(&mut self.headers, name, value);
    }

    fn push_item(&mut self, item: HeaderItem) {
        self.headers_vec.push(item);
        assert(self.items_spec() =~= old(self).items_spec().push(item@));
    }

    fn decode(src: &mut Vec<u8>) -> (r: Started<ResponseHead>) {
        match parse_status(src.as_slice()) {
            StatusLine::Complete(minor, code, len) => {
                let status = match StatusCode::from_u16(code) {
                    Some(s) => s,
                    None => {
                        return Started::Failed(DecodeError::Status);
                    },
                };
                let _ = split_to(src, len);
                let msg = ResponseHead::new(status, minor_version(minor));
                assert(msg.items_spec() =~= Seq::<HeaderItemView>::empty());
                Started::Complete(msg)
            },
            StatusLine::Partial => Started::Pending,
            StatusLine::Failed(code) => Started::Failed(DecodeError::from(parse_error(code))),
        }
    }

    fn set_payload_length(&mut self, st: &HeadState, length: PayloadLength) -> (r: Result<
        PayloadType,
        DecodeError,
    >) {
        let mut length = length;
        if length.is_zero() {
            length = PayloadLength::Unknown;
        }
        if let Some(ka) = st.ka {
            self.set_connection_type(ka);
        }
        if let PayloadLength::Payload(pl) = length {
            Ok(pl)
        } else if self.status == StatusCode(101) {
            Ok(PayloadType::Stream(PayloadDecoder::eof()))
        } else if self.version == Version::HTTP_10 {
            // read to eof and close the connection
            self.set_connection_type(ConnectionType::Close);
            Ok(PayloadType::Payload(PayloadDecoder::eof()))
        } else {
            Ok(PayloadType::NoPayload)
        }
    }

    proof fn same_start_trans(a: ResponseHead, b: ResponseHead, c: ResponseHead) {
    }

    proof fn start_is_kept(a: ResponseHead, b: ResponseHead, src: Seq<u8>, st: HeadState) {
    }

    proof fn start_decides(a: ResponseHead, b: ResponseHead, src: Seq<u8>, st: HeadState) {
    }
}

/// What was read of the headers of a message.
#[verifier::ext_equal]
pub struct HeadersRead {
    pub st: HeadState,
    pub count: int,
    pub fields: Fields,
    pub items: Seq<HeaderItemView>,
}

/// No header read yet.
pub open spec fn no_headers(version: Version) -> HeadersRead {
    HeadersRead { st: new_state(version), count: 0, fields: no_fields(), items: Seq::empty() }
}

/// What reading headers gives.
pub enum HeadersOut {
    /// A header is not complete: the bytes that are left, and what was read.
    Pending(Seq<u8>, HeadersRead),
    /// The message is refused.
    Failed(DecodeError),
    /// The head is complete: the bytes that are left, and what was read.
    Done(Seq<u8>, HeadersRead),
}

/// What was read after one more header.
pub open spec fn with_header(
    h: HeadersRead,
    st: HeadState,
    origin: Seq<u8>,
    value: Seq<u8>,
    keep: bool,
) -> HeadersRead {
    let name = key(chars(origin));
    HeadersRead {
        st,
        count: h.count + 1,
        fields: appended(h.fields, name, value),
        items: if keep {
            h.items.push(HeaderItemView { name, origin, value })
        } else {
            h.items
        },
    }
}

/// Reads headers from the front of the bytes up to the empty line.
pub open spec fn read_headers(src: Seq<u8>, h: HeadersRead, cfg: HttpServiceConfig) -> HeadersOut
    decreases src.len(),
{
    match header_line(src) {
        HeaderLine::Partial => HeadersOut::Pending(src, h),
        HeaderLine::Failed(code) => HeadersOut::Failed(decode_error(error_at(code))),
        HeaderLine::Eof(len) => HeadersOut::Done(rest(src, len as int), h),
        HeaderLine::Complete(name, value, len) => if h.count >= cfg.max_headers {
            HeadersOut::Failed(DecodeError::MaxHeaders)
        } else if !is_name_text(name) || !valid_value(value) {
            HeadersOut::Failed(DecodeError::Header)
        } else {
            match header_state(h.st, key(chars(name)), value) {
                Err(e) => HeadersOut::Failed(e),
                Ok(st) => if 0 < len <= src.len() {
                    read_headers(
                        rest(src, len as int),
                        with_header(h, st, name, value, cfg.headers_vec),
                        cfg,
                    )
                } else {
                    HeadersOut::Failed(DecodeError::Header)
                },
            }
        },
    }
}

/// What reading headers gives.
enum HeadersPoll {
    Pending,
    Failed(DecodeError),
    Done,
}

/// Incoming message decoder
#[derive(Debug)]
pub struct MessageDecoder<T> {
    /// Configuration.
    pub cfg: HttpServiceConfig,
    /// A message head is being read.
    pub hdrs: bool,
    /// What the headers said so far.
    pub st: HeadState,
    /// The message, once its start line is complete.
    pub val: Option<T>,
    /// Number of headers that were read.
    pub count: usize,
    /// Number of bytes of the head that were taken.
    pub consumed: usize,
    /// The last message was refused.
    pub failed: bool,
}

/// What was read of the headers of a message.
pub open spec fn headers_read<T: MessageType>(d: MessageDecoder<T>, msg: T) -> HeadersRead {
    HeadersRead {
        st: d.st,
        count: d.count as int,
        fields: msg.fields_spec(),
        items: msg.items_spec(),
    }
}

/// What decoding gives for a message whose start line is known: `msg` is the
/// message before its next header, `src` the bytes after those that were taken,
/// `total` the number of bytes that were handed in.
pub open spec fn decoded_from<T: MessageType>(
    d: MessageDecoder<T>,
    total: int,
    msg: T,
    src: Seq<u8>,
    h: HeadersRead,
    after: MessageDecoder<T>,
    left: Seq<u8>,
    r: Result<Option<(T, PayloadType)>, DecodeError>,
) -> bool {
    match read_headers(src, h, d.cfg) {
        HeadersOut::Failed(e) => r == Err::<Option<(T, PayloadType)>, DecodeError>(e)
            && after.failed,
        HeadersOut::Pending(rest, h2) => if d.consumed + total >= d.cfg.max_buf_size {
            r == Err::<Option<(T, PayloadType)>, DecodeError>(
                DecodeError::TooLarge((d.consumed + total) as usize),
            ) && after.failed
        } else {
            &&& r matches Ok(None)
            &&& left == rest
            &&& after.val matches Some(v)
            &&& v.same_start(msg)
            &&& v.version_spec() == msg.version_spec()
            &&& v.flags_spec() == msg.flags_spec()
            &&& headers_read(after, v) == h2
            &&& after.consumed == d.consumed + total - rest.len()
            &&& after.hdrs == (d.hdrs || total > 0)
            &&& !after.failed
        },
        HeadersOut::Done(rest, h2) => {
            let size = d.consumed + total - rest.len();
            if size > d.cfg.max_buf_size {
                r == Err::<Option<(T, PayloadType)>, DecodeError>(
                    DecodeError::TooLarge(size as usize),
                ) && after.failed
            } else {
                match msg.body_spec(h2.st) {
                    Err(e) => r == Err::<Option<(T, PayloadType)>, DecodeError>(e) && after.failed,
                    Ok((flags, payload)) => {
                        &&& r matches Ok(Some((val, pl)))
                        &&& pl == payload
                        &&& val.same_start(msg)
                        &&& val.flags_spec() == flags
                        &&& val.fields_spec() == h2.fields
                        &&& val.items_spec() == h2.items
                        &&& left == rest
                        &&& ready(after)
                    },
                }
            }
        },
    }
}

/// The head of a message is not complete.
pub open spec fn incomplete<T: MessageType>(d: MessageDecoder<T>, src: Seq<u8>) -> bool {
    match d.val {
        Some(msg) => read_headers(src, headers_read(d, msg), d.cfg) is Pending,
        None => match T::start_line(src) {
            StartLine::Pending => true,
            StartLine::Failed => false,
            StartLine::Complete(len, version) => read_headers(
                rest(src, len),
                no_headers(version),
                d.cfg,
            ) is Pending,
        },
    }
}

/// What reading headers gives, with more bytes behind those that were read.
pub open spec fn headers_extended(out: HeadersOut, more: Seq<u8>) -> HeadersOut {
    match out {
        HeadersOut::Pending(left, h) => HeadersOut::Pending(left + more, h),
        HeadersOut::Failed(e) => HeadersOut::Failed(e),
        HeadersOut::Done(left, h) => HeadersOut::Done(left + more, h),
    }
}

/// A message that was begun goes on as it would have with all the bytes at once:
/// `d` is the decoder before its start, `d2` the decoder that has read a part.
proof fn resumed<T: MessageType>(
    d: MessageDecoder<T>,
    total: int,
    msg: T,
    src: Seq<u8>,
    h: HeadersRead,
    d2: MessageDecoder<T>,
    begun: T,
    left: Seq<u8>,
    more: Seq<u8>,
    after: MessageDecoder<T>,
    left2: Seq<u8>,
    r: Result<Option<(T, PayloadType)>, DecodeError>,
)
    requires
        d2.cfg == d.cfg,
        read_headers(src + more, h, d.cfg) == read_headers(
            left + more,
            headers_read(d2, begun),
            d.cfg,
        ),
        begun.same_start(msg),
        begun.version_spec() == msg.version_spec(),
        begun.flags_spec() == msg.flags_spec(),
        d2.consumed == d.consumed + total - left.len(),
        d2.hdrs == (d.hdrs || total > 0),
        0 <= left.len() <= total,
        decoded_from(
            d2,
            (left + more).len() as int,
            begun,
            left + more,
            headers_read(d2, begun),
            after,
            left2,
            r,
        ),
    ensures
        decoded_from(d, total + more.len(), msg, src + more, h, after, left2, r),
{
    match read_headers(src + more, h, d.cfg) {
        HeadersOut::Pending(_, _) => {
            if after.val is Some {
                T::same_start_trans(after.val->0, begun, msg);
            }
        },
        HeadersOut::Done(_, h2) => {
            T::start_is_kept(begun, msg, src, h2.st);
            if let Ok(Some((val, _))) = r {
                T::same_start_trans(val, begun, msg);
            }
        },
        _ => {},
    }
}

/// The decoder waits for the first byte of a message.
pub open spec fn ready<T>(d: MessageDecoder<T>) -> bool {
    &&& d.val is None
    &&& d.st == new_state(Version::HTTP_11)
    &&& d.count == 0
    &&& d.consumed == 0
    &&& !d.hdrs
    &&& !d.failed
}

/// A message whose start line is at the front of the bytes, without headers.
pub open spec fn fresh_message<T: MessageType>(msg: T, src: Seq<u8>, version: Version) -> bool {
    &&& msg.is_started(src)
    &&& msg.version_spec() == version
    &&& msg.fields_spec() == no_fields()
    &&& msg.items_spec() == Seq::<HeaderItemView>::empty()
    &&& msg.flags_spec() == no_flags()
}

/// What decoding gives.
pub open spec fn decoded<T: MessageType>(
    d: MessageDecoder<T>,
    src: Seq<u8>,
    after: MessageDecoder<T>,
    left: Seq<u8>,
    r: Result<Option<(T, PayloadType)>, DecodeError>,
) -> bool {
    match d.val {
        Some(msg) => decoded_from(
            d,
            src.len() as int,
            msg,
            src,
            headers_read(d, msg),
            after,
            left,
            r,
        ),
        None => match T::start_line(src) {
            StartLine::Failed => r matches Err(e) && T::start_error(src, e) && after.failed,
            StartLine::Pending => if d.consumed + src.len() >= d.cfg.max_buf_size {
                r == Err::<Option<(T, PayloadType)>, DecodeError>(
                    DecodeError::TooLarge((d.consumed + src.len()) as usize),
                ) && after.failed
            } else {
                &&& r matches Ok(None)
                &&& left == src
                &&& after == (MessageDecoder { hdrs: d.hdrs || src.len() > 0, ..d })
            },
            StartLine::Complete(len, version) => exists|msg: T| #[trigger]
                fresh_message(msg, src, version) && decoded_from(
                    d,
                    src.len() as int,
                    msg,
                    rest(src, len),
                    no_headers(version),
                    after,
                    left,
                    r,
                ),
        },
    }
}

/// What a call gave stands whatever bytes follow. One that asks for more is gone
/// on with as all the bytes would have been read at once; a head that is complete,
/// or refused for what it holds, leaves the bytes that follow alone.
pub open spec fn reads_on<T: MessageType>(
    d: MessageDecoder<T>,
    src: Seq<u8>,
    after: MessageDecoder<T>,
    left: Seq<u8>,
    r: Result<Option<(T, PayloadType)>, DecodeError>,
) -> bool {
    &&& r matches Ok(None) ==> forall|
        more: Seq<u8>,
        after2: MessageDecoder<T>,
        left2: Seq<u8>,
        r2: Result<Option<(T, PayloadType)>, DecodeError>,
    | #[trigger]
        decoded(after, left + more, after2, left2, r2) ==> decoded(
            d,
            src + more,
            after2,
            left2,
            r2,
        )
    &&& !incomplete(d, src) ==> forall|more: Seq<u8>| #[trigger]
        decoded(d, src + more, after, left + more, r)
}

/// The same message: the start line, the headers, the marks and the body.
pub open spec fn same_message<T: MessageType>(
    src: Seq<u8>,
    a: (T, PayloadType),
    b: (T, PayloadType),
) -> bool {
    &&& a.0.is_started(src)
    &&& b.0.is_started(src)
    &&& a.0.fields_spec() == b.0.fields_spec()
    &&& a.0.items_spec() == b.0.items_spec()
    &&& a.0.flags_spec() == b.0.flags_spec()
    &&& a.1 == b.1
}

/// A message whose head comes in two parts is the one that comes at once: the
/// first part asks for more, the second gives the message and leaves what follows
/// the head. `d` is a fresh decoder, `d1` what it is after the first part `a`, and
/// `d2` after the second part `b`.
pub proof fn head_in_two_parts<T: MessageType>(
    d: MessageDecoder<T>,
    a: Seq<u8>,
    b: Seq<u8>,
    at_once: (T, PayloadType),
    after: MessageDecoder<T>,
    left: Seq<u8>,
    d1: MessageDecoder<T>,
    left1: Seq<u8>,
    r1: Result<Option<(T, PayloadType)>, DecodeError>,
    d2: MessageDecoder<T>,
    left2: Seq<u8>,
    r2: Result<Option<(T, PayloadType)>, DecodeError>,
)
    requires
        ready(d),
        decoded(d, a + b, after, left, Ok(Some(at_once))),
        left.len() < b.len(),
        a.len() < d.cfg.max_buf_size,
        decoded(d, a, d1, left1, r1),
        reads_on(d, a, d1, left1, r1),
        decoded(d1, left1 + b, d2, left2, r2),
    ensures
        r1 matches Ok(None),
        r2 matches Ok(Some(m)) && same_message(a + b, m, at_once),
        left2 == left,
{
    let all = a + b;
    let (n, version) = match T::start_line(all) {
        StartLine::Complete(n, v) => (n, v),
        _ => (0, Version::HTTP_11),
    };
    let h = no_headers(version);
    let total = all.len() as int;
    let msg = choose|msg: T| #[trigger]
        fresh_message(msg, all, version) && decoded_from(
            d,
            total,
            msg,
            rest(all, n),
            h,
            after,
            left,
            Ok(Some(at_once)),
        );
    let out = read_headers(rest(all, n), h, d.cfg);
    if !incomplete(d, a) {
        assert(decoded(d, a + b, d1, left1 + b, r1));
        let m1 = choose|m: T| #[trigger]
            fresh_message(m, all, version) && decoded_from(
                d,
                total,
                m,
                rest(all, n),
                h,
                d1,
                left1 + b,
                r1,
            );
        T::start_decides(m1, msg, all, out->Done_1.st);
        assert(left1 + b == left);
    }
    assert(r1 matches Ok(None));
    assert(decoded(d, all, d2, left2, r2));
    let m2 = choose|m: T| #[trigger]
        fresh_message(m, all, version) && decoded_from(
            d,
            total,
            m,
            rest(all, n),
            h,
            d2,
            left2,
            r2,
        );
    T::start_decides(m2, msg, all, out->Done_1.st);
    let m = r2->Ok_0->0;
    T::start_is_kept(m.0, m2, all, out->Done_1.st);
    T::start_is_kept(at_once.0, msg, all, out->Done_1.st);
}

/// The message that decoding goes on with, from the bytes `ahead` and with what
/// was read of its headers.
spec fn goes_from<T: MessageType>(
    d: MessageDecoder<T>,
    src: Seq<u8>,
    msg: T,
    ahead: Seq<u8>,
    h: HeadersRead,
) -> bool {
    match d.val {
        Some(m) => m == msg && ahead == src && h == headers_read(d, m),
        None => {
            let version = msg.version_spec();
            &&& T::start_line(src) matches StartLine::Complete(n, v) && v == version && 0 <= n
                <= src.len() && ahead == rest(src, n)
            &&& fresh_message(msg, src, version)
            &&& h == no_headers(version)
            &&& forall|more: Seq<u8>| #[trigger]
                T::start_line(src + more) == T::start_line(src)
            &&& forall|more: Seq<u8>| #[trigger] msg.is_started(src + more)
        },
    }
}

/// A head that is complete, or refused for what it holds, stays so whatever bytes
/// follow, and those are left alone.
proof fn settled<T: MessageType>(
    d: MessageDecoder<T>,
    src: Seq<u8>,
    msg: T,
    ahead: Seq<u8>,
    h: HeadersRead,
    after: MessageDecoder<T>,
    left: Seq<u8>,
    r: Result<Option<(T, PayloadType)>, DecodeError>,
)
    requires
        goes_from(d, src, msg, ahead, h),
        !(read_headers(ahead, h, d.cfg) is Pending),
        forall|more: Seq<u8>| #[trigger]
            read_headers(ahead + more, h, d.cfg) == headers_extended(
                read_headers(ahead, h, d.cfg),
                more,
            ),
        decoded_from(d, src.len() as int, msg, ahead, h, after, left, r),
    ensures
        forall|more: Seq<u8>| #[trigger] decoded(d, src + more, after, left + more, r),
{
    assert forall|more: Seq<u8>| #[trigger] decoded(d, src + more, after, left + more, r) by {
        let all = src + more;
        assert(read_headers(ahead + more, h, d.cfg) == headers_extended(
            read_headers(ahead, h, d.cfg),
            more,
        ));
        assert(decoded_from(d, all.len() as int, msg, ahead + more, h, after, left + more, r));
        if d.val is None {
            let n = T::start_line(src)->Complete_0;
            assert(T::start_line(all) == T::start_line(src));
            assert(rest(all, n) =~= ahead + more);
            assert(msg.is_started(all));
            assert(fresh_message(msg, all, msg.version_spec()));
        }
    }
}

impl<T: MessageType> MessageDecoder<T> {
    /// A decoder that waits for the first byte of a message.
    pub fn new(cfg: HttpServiceConfig) -> (r: MessageDecoder<T>)
        ensures
            ready(r),
            r.cfg == cfg,
    {
        MessageDecoder {
            cfg,
            hdrs: false,
            st: HeadState::new(Version::HTTP_11),
            val: None,
            count: 0,
            consumed: 0,
            failed: false,
        }
    }

    /// A decoder with the same configuration that waits for the first byte of a
    /// message.
    pub fn restart(&self) -> (r: MessageDecoder<T>)
        ensures
            ready(r),
            r.cfg == self.cfg,
    {
        MessageDecoder::new(self.cfg)
    }

    /// Whether a message head is being read.
    pub fn is_reading_hdrs(&self) -> (r: bool)
        ensures
            r == self.hdrs,
    {
        self.hdrs
    }

    fn decode_headers(
        src: &mut Vec<u8>,
        val: &mut T,
        st: &mut HeadState,
        count: &mut usize,
        cfg: &HttpServiceConfig,
    ) -> (r: HeadersPoll)
        ensures
            final(val).same_start(*old(val)),
            final(val).version_spec() == old(val).version_spec(),
            final(val).flags_spec() == old(val).flags_spec(),
            final(src)@.len() <= old(src)@.len(),
            ({
                let h = HeadersRead {
                    st: *old(st),
                    count: *old(count) as int,
                    fields: old(val).fields_spec(),
                    items: old(val).items_spec(),
                };
                let h2 = HeadersRead {
                    st: *final(st),
                    count: *final(count) as int,
                    fields: final(val).fields_spec(),
                    items: final(val).items_spec(),
                };
                match read_headers(old(src)@, h, *cfg) {
                    HeadersOut::Pending(left, read) => r is Pending && final(src)@ == left && read
                        == h2,
                    HeadersOut::Failed(e) => r == HeadersPoll::Failed(e),
                    HeadersOut::Done(left, read) => r is Done && final(src)@ == left && read == h2,
                }
            }),
            r is Pending ==> forall|more: Seq<u8>| #[trigger]
                read_headers(
                    old(src)@ + more,
                    HeadersRead {
                        st: *old(st),
                        count: *old(count) as int,
                        fields: old(val).fields_spec(),
                        items: old(val).items_spec(),
                    },
                    *cfg,
                ) == read_headers(
                    final(src)@ + more,
                    HeadersRead {
                        st: *final(st),
                        count: *final(count) as int,
                        fields: final(val).fields_spec(),
                        items: final(val).items_spec(),
                    },
                    *cfg,
                ),
            !(r is Pending) ==> forall|more: Seq<u8>| #[trigger]
                read_headers(
                    old(src)@ + more,
                    HeadersRead {
                        st: *old(st),
                        count: *old(count) as int,
                        fields: old(val).fields_spec(),
                        items: old(val).items_spec(),
                    },
                    *cfg,
                ) == headers_extended(
                    read_headers(
                        old(src)@,
                        HeadersRead {
                            st: *old(st),
                            count: *old(count) as int,
                            fields: old(val).fields_spec(),
                            items: old(val).items_spec(),
                        },
                        *cfg,
                    ),
                    more,
                ),
    {
        let ghost h0 = HeadersRead {
            st: *st,
            count: *count as int,
            fields: val.fields_spec(),
            items: val.items_spec(),
        };
        let ghost val0 = *val;
        proof {
            T::same_start_trans(val0, val0, val0);
        }
        loop
            invariant
                val.same_start(val0),
                val0 == *old(val),
                val.version_spec() == val0.version_spec(),
                val.flags_spec() == val0.flags_spec(),
                src@.len() <= old(src)@.len(),
                h0 == (HeadersRead {
                    st: *old(st),
                    count: *old(count) as int,
                    fields: old(val).fields_spec(),
                    items: old(val).items_spec(),
                }),
                read_headers(old(src)@, h0, *cfg) == read_headers(
                    src@,
                    HeadersRead {
                        st: *st,
                        count: *count as int,
                        fields: val.fields_spec(),
                        items: val.items_spec(),
                    },
                    *cfg,
                ),
                forall|more: Seq<u8>| #[trigger]
                    read_headers(old(src)@ + more, h0, *cfg) == read_headers(
                        src@ + more,
                        HeadersRead {
                            st: *st,
                            count: *count as int,
                            fields: val.fields_spec(),
                            items: val.items_spec(),
                        },
                        *cfg,
                    ),
            decreases src@.len(),
        {
            let ghost src1 = src@;
            let ghost h1 = HeadersRead {
                st: *st,
                count: *count as int,
                fields: val.fields_spec(),
                items: val.items_spec(),
            };
            let parsed = parse_header(src.as_slice());
            proof {
                let now = read_headers(src1, h1, *cfg);
                assert forall|more: Seq<u8>| match parsed@ {
                    HeaderLine::Partial => false,
                    HeaderLine::Failed(_) | HeaderLine::Eof(_) => true,
                    HeaderLine::Complete(n, v, _) => *count >= cfg.max_headers || !is_name_text(n)
                        || !valid_value(v) || header_state(*st, key(chars(n)), v) is Err,
                } implies #[trigger] read_headers(old(src)@ + more, h0, *cfg) == headers_extended(
                    now,
                    more,
                ) by {
                    assert(read_headers(old(src)@ + more, h0, *cfg) == read_headers(
                        src1 + more,
                        h1,
                        *cfg,
                    ));
                    assert(header_line(src1 + more) == header_line(src1));
                    if let HeaderLine::Eof(len) = parsed@ {
                        assert(rest(src1 + more, len as int) =~= rest(src1, len as int) + more);
                    }
                }
            }
            match parsed {
                ParsedHeader::Partial => {
                    return HeadersPoll::Pending;
                },
                ParsedHeader::Failed(code) => {
                    return HeadersPoll::Failed(DecodeError::from(parse_error(code)));
                },
                ParsedHeader::Eof(len) => {
                    let _ = split_to(src, len);
                    return HeadersPoll::Done;
                },
                ParsedHeader::Complete(origin, value, len) => {
                    let _ = split_to(src, len);
                    if *count >= cfg.max_headers {
                        return HeadersPoll::Failed(DecodeError::MaxHeaders);
                    }
                    let name = match header_name(origin.as_slice()) {
                        Some(name) => name,
                        None => {
                            return HeadersPoll::Failed(DecodeError::Header);
                        },
                    };
                    if !is_header_value(value.as_slice()) {
                        return HeadersPoll::Failed(DecodeError::Header);
                    }
                    proof {
                        name_from_token(origin@);
                    }
                    match st.set_header(name.as_str(), value.as_slice()) {
                        Ok(()) => {},
                        Err(e) => {
                            return HeadersPoll::Failed(e);
                        },
                    }
                    let ghost val1 = *val;
                    val.append_header(name.as_str(), value.as_slice());
                    let ghost val2 = *val;
                    proof {
                        T::same_start_trans(val2, val1, val0);
                    }
                    *count = *count + 1;
                    if cfg.headers_vec {
                        val.push_item(HeaderItem { name, origin, value });
                        proof {
                            T::same_start_trans(*val, val2, val0);
                        }
                    }
                    proof {
                        let h2 = HeadersRead {
                            st: *st,
                            count: *count as int,
                            fields: val.fields_spec(),
                            items: val.items_spec(),
                        };
                        assert forall|more: Seq<u8>| #[trigger]
                            read_headers(old(src)@ + more, h0, *cfg) == read_headers(
                                src@ + more,
                                h2,
                                *cfg,
                            ) by {
                            assert(read_headers(old(src)@ + more, h0, *cfg) == read_headers(
                                src1 + more,
                                h1,
                                *cfg,
                            ));
                            assert(header_line(src1 + more) == header_line(src1));
                            assert(rest(src1 + more, len as int) =~= src@ + more);
                        }
                    }
                },
            }
        }
    }

    /// Decodes the next message.
    ///
    /// `Ok(None)` asks for more bytes: what the next call gives with them is what
    /// one call would have given had all of them come at once. Once the head is
    /// complete, or refused for what it holds, bytes that follow change nothing and
    /// are left alone. A decoder that refused a message is not used again.
    pub fn decode(&mut self, src: &mut Vec<u8>) -> (r: Result<
        Option<(T, PayloadType)>,
        DecodeError,
    >)
        requires
            !old(self).failed,
            old(self).consumed + old(src)@.len() <= usize::MAX,
        ensures
            final(self).cfg == old(self).cfg,
            decoded(*old(self), old(src)@, *final(self), final(src)@, r),
            reads_on(*old(self), old(src)@, *final(self), final(src)@, r),
    {
        let len: usize = src.len();
        if len > 0 {
            self.hdrs = true;
        }
        let ghost src0 = src@;
        let ghost mut base: Option<T> = self.val;
        let mut val: Option<T> = None;
        std::mem::swap(&mut self.val, &mut val);
        let mut msg = match val {
            Some(msg) => {
                assert(rest(src0, 0) =~= src0);
                msg
            },
            None => match T::decode(src) {
                Started::Complete(msg) => {
                    self.st = HeadState::new(msg.msg_version());
                    self.count = 0;
                    proof {
                        base = Some(msg);
                    }
                    msg
                },
                Started::Failed(e) => {
                    self.failed = true;
                    return Err(e);
                },
                Started::Pending => {
                    if self.consumed + len >= self.cfg.max_buf_size {
                        self.failed = true;
                        return Err(DecodeError::TooLarge(self.consumed + len));
                    }
                    return Ok(None);
                },
            },
        };
        let ghost src1 = src@;
        let ghost h1 = headers_read(*self, msg);
        proof {
            if old(self).val is None {
                assert(fresh_message(msg, src0, msg.version_spec()));
                assert(h1 =~= no_headers(msg.version_spec()));
            }
        }
        let r = MessageDecoder::<T>::decode_headers(
            src,
            &mut msg,
            &mut self.st,
            &mut self.count,
            &self.cfg,
        );
        let ghost b = base->0;
        assert(goes_from(*old(self), src0, b, src1, h1));
        match r {
            HeadersPoll::Failed(e) => {
                self.failed = true;
                assert(decoded_from(*old(self), len as int, b, src1, h1, *self, src@, Err(e)));
                proof {
                    settled(*old(self), src0, b, src1, h1, *self, src@, Err(e));
                }
                Err(e)
            },
            HeadersPoll::Pending => {
                if self.consumed + len >= self.cfg.max_buf_size {
                    self.failed = true;
                    let e = DecodeError::TooLarge(self.consumed + len);
                    assert(decoded_from(*old(self), len as int, b, src1, h1, *self, src@, Err(e)));
                    return Err(e);
                }
                self.consumed = self.consumed + (len - src.len());
                self.val = Some(msg);
                assert(decoded_from(*old(self), len as int, b, src1, h1, *self, src@, Ok(None)));
                proof {
                    assert forall|
                        more: Seq<u8>,
                        after: MessageDecoder<T>,
                        left: Seq<u8>,
                        r2: Result<Option<(T, PayloadType)>, DecodeError>,
                    | #[trigger]
                        decoded(*self, src@ + more, after, left, r2) implies decoded(
                        *old(self),
                        src0 + more,
                        after,
                        left,
                        r2,
                    ) by {
                        assert(read_headers(src1 + more, h1, self.cfg) == read_headers(
                            src@ + more,
                            headers_read(*self, msg),
                            self.cfg,
                        ));
                        resumed(
                            *old(self),
                            len as int,
                            b,
                            src1,
                            h1,
                            *self,
                            msg,
                            src@,
                            more,
                            after,
                            left,
                            r2,
                        );
                        if old(self).val is None {
                            let n = T::start_line(src0)->Complete_0;
                            assert(T::start_line(src0 + more) == T::start_line(src0));
                            assert(rest(src0 + more, n) =~= src1 + more);
                            assert(fresh_message(b, src0 + more, b.version_spec()));
                        }
                    }
                }
                Ok(None)
            },
            HeadersPoll::Done => {
                let size: usize = self.consumed + (len - src.len());
                if size > self.cfg.max_buf_size {
                    self.failed = true;
                    let e = DecodeError::TooLarge(size);
                    assert(decoded_from(*old(self), len as int, b, src1, h1, *self, src@, Err(e)));
                    proof {
                        settled(*old(self), src0, b, src1, h1, *self, src@, Err(e));
                    }
                    return Err(e);
                }
                let length = self.st.payload_length();
                let ghost before = msg;
                proof {
                    T::start_is_kept(before, b, src0, self.st);
                }
                match msg.set_payload_length(&self.st, length) {
                    Ok(pl) => {
                        proof {
                            T::same_start_trans(msg, before, b);
                        }
                        self.st = HeadState::new(Version::HTTP_11);
                        self.count = 0;
                        self.consumed = 0;
                        self.hdrs = false;
                        let r: Result<Option<(T, PayloadType)>, DecodeError> = Ok(Some((msg, pl)));
                        assert(decoded_from(*old(self), len as int, b, src1, h1, *self, src@, r));
                        proof {
                            settled(*old(self), src0, b, src1, h1, *self, src@, r);
                        }
                        r
                    },
                    Err(e) => {
                        self.failed = true;
                        assert(decoded_from(
                            *old(self),
                            len as int,
                            b,
                            src1,
                            h1,
                            *self,
                            src@,
                            Err(e),
                        ));
                        proof {
                            settled(*old(self), src0, b, src1, h1, *self, src@, Err(e));
                        }
                        Err(e)
                    },
                }
            },
        }
    }
}

} // verus!
