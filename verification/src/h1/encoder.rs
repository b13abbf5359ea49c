//! Encoding of message heads and message bodies.

use ntex_http::HeaderMap;
use vstd::prelude::*;
use vstd::utf8::encode_utf8;

use crate::body::BodySize;
use crate::config::{date_header, DateService, DATE_LIMIT};
use crate::error::EncodeError;
use crate::headers::{
    fields, key, lines, lists, map_contains, map_lines, map_new, no_fields, Fields,
};
use crate::message::{reason_of, standard_reason, ConnectionType, RequestHead, ResponseHead};
use crate::text::{
    ascii, crlf, decimal, hex, put, put_bytes, split_to, str_eq, write_decimal, write_hex,
};
use crate::types::{StatusCode, Version};

verus! {

// ---------------------------------------------------------------------------
// Message bodies
// ---------------------------------------------------------------------------

/// A chunk of a body in chunked transfer coding.
pub open spec fn chunk_frame(data: Seq<u8>) -> Seq<u8> {
    hex(data.len()) + crlf() + data + crlf()
}

/// The end of a body in chunked transfer coding.
pub open spec fn last_frame() -> Seq<u8> {
    seq![48u8, 13, 10, 13, 10]
}

/// How the end of a body is told.
#[derive(Debug, PartialEq, Eq, Structural, Clone, Copy)]
pub enum TransferEncodingKind {
    /// By chunked transfer coding, and whether the end was written.
    Chunked(bool),
    /// By its length: the bytes that are still to come. The body is cut off
    /// there.
    Length(u64),
    /// By the end of the connection.
    Eof,
}

/// Encoders to handle different Transfer-Encodings.
#[derive(Debug, PartialEq, Eq, Structural, Clone, Copy)]
pub struct TransferEncoding {
    pub kind: TransferEncodingKind,
}

/// Lesser of two numbers.
pub open spec fn least(a: int, b: int) -> int {
    if a <= b {
        a
    } else {
        b
    }
}

/// What encoding a piece of a body writes.
pub open spec fn encoded(kind: TransferEncodingKind, msg: Seq<u8>) -> Seq<u8> {
    match kind {
        TransferEncodingKind::Eof => msg,
        TransferEncodingKind::Chunked(true) => Seq::empty(),
        TransferEncodingKind::Chunked(false) => if msg.len() == 0 {
            last_frame()
        } else {
            chunk_frame(msg)
        },
        TransferEncodingKind::Length(left) => msg.subrange(0, least(left as int, msg.len() as int)),
    }
}

/// The encoder after a piece of a body.
pub open spec fn encoder_after(kind: TransferEncodingKind, msg: Seq<u8>) -> TransferEncodingKind {
    match kind {
        TransferEncodingKind::Eof => kind,
        TransferEncodingKind::Chunked(eof) => TransferEncodingKind::Chunked(
            eof || msg.len() == 0,
        ),
        TransferEncodingKind::Length(left) => TransferEncodingKind::Length(
            (left - least(left as int, msg.len() as int)) as u64,
        ),
    }
}

/// Whether a piece of a body was the last one.
pub open spec fn was_last(kind: TransferEncodingKind, msg: Seq<u8>) -> bool {
    match kind {
        TransferEncodingKind::Eof => msg.len() == 0,
        TransferEncodingKind::Chunked(eof) => eof || msg.len() == 0,
        TransferEncodingKind::Length(left) => left <= msg.len(),
    }
}

/// What ending a body writes.
pub open spec fn eof_encoded(kind: TransferEncodingKind) -> Seq<u8> {
    if kind == TransferEncodingKind::Chunked(false) {
        last_frame()
    } else {
        Seq::empty()
    }
}

/// A body may end here: all bytes of its declared length were written.
pub open spec fn may_end(kind: TransferEncodingKind) -> bool {
    match kind {
        TransferEncodingKind::Length(left) => left == 0,
        _ => true,
    }
}

impl TransferEncoding {
    /// No body.
    pub fn empty() -> (r: TransferEncoding)
        ensures
            r.kind == TransferEncodingKind::Length(0),
    {
        TransferEncoding { kind: TransferEncodingKind::Length(0) }
    }

    /// A body that ends with the connection.
    pub fn eof() -> (r: TransferEncoding)
        ensures
            r.kind == TransferEncodingKind::Eof,
    {
        TransferEncoding { kind: TransferEncodingKind::Eof }
    }

    /// A body in chunked transfer coding.
    pub fn chunked() -> (r: TransferEncoding)
        ensures
            r.kind == TransferEncodingKind::Chunked(false),
    {
        TransferEncoding { kind: TransferEncodingKind::Chunked(false) }
    }

    /// A body of the given length.
    pub fn length(len: u64) -> (r: TransferEncoding)
        ensures
            r.kind == TransferEncodingKind::Length(len),
    {
        TransferEncoding { kind: TransferEncodingKind::Length(len) }
    }

    /// Encode message. Return `EOF` state of encoder
    pub fn encode(&mut self, msg: Vec<u8>, buf: &mut Vec<u8>) -> (r: Result<bool, EncodeError>)
        ensures
            r == Ok::<bool, EncodeError>(was_last(old(self).kind, msg@)),
            final(self).kind == encoder_after(old(self).kind, msg@),
            final(buf)@ == old(buf)@ + encoded(old(self).kind, msg@),
    {
        match self.kind {
            TransferEncodingKind::Eof => {
                if msg.len() == 0 {
                    assert(buf@ =~= old(buf)@ + encoded(old(self).kind, msg@));
                    Ok(true)
                } else {
                    put_bytes(buf, msg.as_slice());
                    Ok(false)
                }
            },
            TransferEncodingKind::Chunked(eof) => {
                if eof {
                    assert(buf@ =~= old(buf)@ + encoded(old(self).kind, msg@));
                    return Ok(true);
                }
                if msg.len() == 0 {
                    proof {
                        reveal_strlit("0\r\n\r\n");
                        assert(ascii("0\r\n\r\n"@) =~= last_frame());
                    }
                    put(buf, "0\r\n\r\n");
                    self.kind = TransferEncodingKind::Chunked(true);
                    Ok(true)
                } else {
                    proof {
                        reveal_strlit("\r\n");
                        assert(ascii("\r\n"@) =~= crlf());
                    }
                    write_hex(msg.len() as u64, buf);
                    put(buf, "\r\n");
                    put_bytes(buf, msg.as_slice());
                    put(buf, "\r\n");
                    assert(buf@ =~= old(buf)@ + chunk_frame(msg@));
                    Ok(false)
                }
            },
            TransferEncodingKind::Length(remaining) => {
                if remaining > 0 {
                    if msg.len() == 0 {
                        assert(buf@ =~= old(buf)@ + encoded(old(self).kind, msg@));
                        return Ok(false);
                    }
                    let size: u64 = msg.len() as u64;
                    let len: u64 = if remaining <= size {
                        remaining
                    } else {
                        size
                    };
                    let mut msg = msg;
                    let part = split_to(&mut msg, len as usize);
                    put_bytes(buf, part.as_slice());
                    self.kind = TransferEncodingKind::Length(remaining - len);
                    Ok(remaining == len)
                } else {
                    assert(buf@ =~= old(buf)@ + encoded(old(self).kind, msg@));
                    Ok(true)
                }
            },
        }
    }

    /// Encode eof.
    pub fn encode_eof(&mut self, buf: &mut Vec<u8>) -> (r: Result<(), EncodeError>)
        ensures
            may_end(old(self).kind) ==> r is Ok,
            !may_end(old(self).kind) ==> r == Err::<(), EncodeError>(EncodeError::UnexpectedEof),
            final(buf)@ == old(buf)@ + eof_encoded(old(self).kind),
            final(self).kind == match old(self).kind {
                TransferEncodingKind::Chunked(_) => TransferEncodingKind::Chunked(true),
                kind => kind,
            },
    {
        match self.kind {
            TransferEncodingKind::Eof => {
                assert(buf@ =~= old(buf)@ + eof_encoded(old(self).kind));
                Ok(())
            },
            TransferEncodingKind::Length(rem) => {
                assert(buf@ =~= old(buf)@ + eof_encoded(old(self).kind));
                if rem != 0 {
                    Err(EncodeError::UnexpectedEof)
                } else {
                    Ok(())
                }
            },
            TransferEncodingKind::Chunked(eof) => {
                if !eof {
                    proof {
                        reveal_strlit("0\r\n\r\n");
                        assert(ascii("0\r\n\r\n"@) =~= last_frame());
                    }
                    put(buf, "0\r\n\r\n");
                    self.kind = TransferEncodingKind::Chunked(true);
                } else {
                    assert(buf@ =~= old(buf)@ + eof_encoded(old(self).kind));
                }
                Ok(())
            },
        }
    }
}

/// The pieces of a body one after another.
pub open spec fn joined(pieces: Seq<Seq<u8>>) -> Seq<u8>
    decreases pieces.len(),
{
    if pieces.len() == 0 {
        Seq::empty()
    } else {
        joined(pieces.drop_last()) + pieces.last()
    }
}

/// The encoder after several pieces of a body.
pub open spec fn encoder_after_all(
    kind: TransferEncodingKind,
    pieces: Seq<Seq<u8>>,
) -> TransferEncodingKind
    decreases pieces.len(),
{
    if pieces.len() == 0 {
        kind
    } else {
        encoder_after(encoder_after_all(kind, pieces.drop_last()), pieces.last())
    }
}

/// What encoding several pieces of a body writes.
pub open spec fn encoded_all(kind: TransferEncodingKind, pieces: Seq<Seq<u8>>) -> Seq<u8>
    decreases pieces.len(),
{
    if pieces.len() == 0 {
        Seq::empty()
    } else {
        encoded_all(kind, pieces.drop_last()) + encoded(
            encoder_after_all(kind, pieces.drop_last()),
            pieces.last(),
        )
    }
}

/// A body of a declared length is written up to that length and no further,
/// whatever pieces it comes in: what is written is the front of the body, and
/// the body may end exactly where all declared bytes were written.
pub proof fn length_is_enforced(n: u64, pieces: Seq<Seq<u8>>)
    ensures
        ({
            let kind = TransferEncodingKind::Length(n);
            let out = encoded_all(kind, pieces);
            let body = joined(pieces);
            &&& out == body.subrange(0, least(n as int, body.len() as int))
            &&& encoder_after_all(kind, pieces) == TransferEncodingKind::Length(
                (n - out.len()) as u64,
            )
            &&& may_end(encoder_after_all(kind, pieces)) <==> out.len() == n
        }),
    decreases pieces.len(),
{
    let kind = TransferEncodingKind::Length(n);
    let body = joined(pieces);
    if pieces.len() == 0 {
        assert(encoded_all(kind, pieces) =~= body.subrange(0, 0));
    } else {
        let front = pieces.drop_last();
        length_is_enforced(n, front);
        let b = joined(front);
        let last = pieces.last();
        let done = least(n as int, b.len() as int);
        let left = (n - done) as u64;
        assert(encoder_after_all(kind, front) == TransferEncodingKind::Length(left));
        let take = least(left as int, last.len() as int);
        assert(encoded_all(kind, pieces) =~= b.subrange(0, done) + last.subrange(0, take));
        if done < b.len() {
            assert(left == 0);
        }
        assert(b.subrange(0, done) + last.subrange(0, take) =~= body.subrange(
            0,
            least(n as int, body.len() as int),
        ));
    }
}

/// Once its end was written, nothing is added to a chunked body.
pub proof fn nothing_after_end(pieces: Seq<Seq<u8>>)
    ensures
        encoded_all(TransferEncodingKind::Chunked(true), pieces) == Seq::<u8>::empty(),
        encoder_after_all(TransferEncodingKind::Chunked(true), pieces)
            == TransferEncodingKind::Chunked(true),
        eof_encoded(TransferEncodingKind::Chunked(true)) == Seq::<u8>::empty(),
    decreases pieces.len(),
{
    if pieces.len() > 0 {
        nothing_after_end(pieces.drop_last());
        assert(encoded_all(TransferEncodingKind::Chunked(true), pieces) =~= Seq::<u8>::empty());
    }
}

/// Chunks of a body in chunked transfer coding.
pub open spec fn frames(pieces: Seq<Seq<u8>>) -> Seq<u8>
    decreases pieces.len(),
{
    if pieces.len() == 0 {
        Seq::empty()
    } else {
        frames(pieces.drop_last()) + chunk_frame(pieces.last())
    }
}

/// Pieces of a body that are not empty become one chunk each.
pub proof fn pieces_become_chunks(pieces: Seq<Seq<u8>>)
    requires
        forall|i: int| 0 <= i < pieces.len() ==> (#[trigger] pieces[i]).len() > 0,
    ensures
        encoded_all(TransferEncodingKind::Chunked(false), pieces) == frames(pieces),
        encoder_after_all(TransferEncodingKind::Chunked(false), pieces)
            == TransferEncodingKind::Chunked(false),
    decreases pieces.len(),
{
    if pieces.len() > 0 {
        let front = pieces.drop_last();
        assert forall|i: int| 0 <= i < front.len() implies (#[trigger] front[i]).len() > 0 by {
            assert(front[i] == pieces[i]);
        }
        pieces_become_chunks(front);
        assert(pieces.last() == pieces[pieces.len() - 1]);
    }
}

// ---------------------------------------------------------------------------
// Message heads
// ---------------------------------------------------------------------------

/// Name of the version in a status line, eight bytes.
pub open spec fn status_version(version: Version) -> Seq<char> {
    match version {
        Version::HTTP_2 => "HTTP/2  "@,
        Version::HTTP_10 => "HTTP/1.0"@,
        Version::HTTP_09 => "HTTP/0.9"@,
        _ => "HTTP/1.1"@,
    }
}

/// Three digits of a number.
pub open spec fn three_digits(n: int) -> Seq<u8> {
    seq![(48 + n / 100) as u8, (48 + n / 10 % 10) as u8, (48 + n % 10) as u8]
}

/// Start of a status line: version, code and a blank. A code of four digits
/// takes the place of the blank before it and has a second blank behind it.
pub open spec fn status_line_bytes(version: Version, n: u16) -> Seq<u8> {
    if n > 999 {
        ascii(status_version(version)) + seq![(48 + n / 1000) as u8] + three_digits(
            n as int % 1000,
        ) + seq![32u8, 32u8]
    } else {
        ascii(status_version(version)) + seq![32u8] + three_digits(n as int) + seq![32u8]
    }
}

fn put_status_version(version: Version, bytes: &mut Vec<u8>)
    ensures
        final(bytes)@ == old(bytes)@ + ascii(status_version(version)),
{
    match version {
        Version::HTTP_2 => {
            proof {
                reveal_strlit("HTTP/2  ");
            }
            put(bytes, "HTTP/2  ");
        },
        Version::HTTP_10 => {
            proof {
                reveal_strlit("HTTP/1.0");
            }
            put(bytes, "HTTP/1.0");
        },
        Version::HTTP_09 => {
            proof {
                reveal_strlit("HTTP/0.9");
            }
            put(bytes, "HTTP/0.9");
        },
        _ => {
            proof {
                reveal_strlit("HTTP/1.1");
            }
            put(bytes, "HTTP/1.1");
        },
    }
}

fn put_three_digits(n: u16, bytes: &mut Vec<u8>)
    requires
        n <= 999,
    ensures
        final(bytes)@ == old(bytes)@ + three_digits(n as int),
{
    bytes.push(48 + (n / 100) as u8);
    bytes.push(48 + (n / 10 % 10) as u8);
    bytes.push(48 + (n % 10) as u8);
    assert(bytes@ =~= old(bytes)@ + three_digits(n as int));
}

/// Appends the start of a status line.
pub fn write_status_line(version: Version, n: u16, bytes: &mut Vec<u8>)
    requires
        n <= 9999,
    ensures
        final(bytes)@ == old(bytes)@ + status_line_bytes(version, n),
{
    put_status_version(version, bytes);
    if n > 999 {
        bytes.push(48 + (n / 1000) as u8);
        put_three_digits(n % 1000, bytes);
        bytes.push(32);
        bytes.push(32);
    } else {
        bytes.push(32);
        put_three_digits(n, bytes);
        bytes.push(32);
    }
    assert(bytes@ =~= old(bytes)@ + status_line_bytes(version, n));
}

/// Appends a number in decimal digits, with a line end where it is asked for.
pub fn convert_usize(n: u64, bytes: &mut Vec<u8>, eol: bool)
    ensures
        final(bytes)@ == old(bytes)@ + decimal(n as nat) + (if eol {
            crlf()
        } else {
            Seq::empty()
        }),
{
    write_decimal(n, bytes);
    if eol {
        bytes.push(13);
        bytes.push(10);
    }
    assert(bytes@ =~= old(bytes)@ + decimal(n as nat) + (if eol {
        crlf()
    } else {
        Seq::empty()
    }));
}

/// End of the start line, and a content length header.
pub open spec fn content_length_bytes(n: u64) -> Seq<u8> {
    ascii("\r\ncontent-length: "@) + decimal(n as nat) + crlf()
}

/// Ends the start line and appends a content length header.
pub fn write_content_length(n: u64, bytes: &mut Vec<u8>)
    ensures
        final(bytes)@ == old(bytes)@ + content_length_bytes(n),
{
    proof {
        reveal_strlit("\r\ncontent-length: ");
    }
    put(bytes, "\r\ncontent-length: ");
    convert_usize(n, bytes, true);
    assert(bytes@ =~= old(bytes)@ + content_length_bytes(n));
}

/// The size that is announced: some statuses have no body, and a switch of
/// protocols starts a stream.
pub open spec fn announced(status: Option<StatusCode>, length: BodySize) -> BodySize {
    match status {
        Some(s) => if s.0 == 204 || s.0 == 100 || s.0 == 102 {
            BodySize::NoBody
        } else if s.0 == 101 {
            BodySize::Stream
        } else {
            length
        },
        None => length,
    }
}

/// Length headers of the message itself are left out: the encoder writes its
/// own.
pub open spec fn own_length(status: Option<StatusCode>, length: BodySize, chunked: bool) -> bool {
    match announced(status, length) {
        BodySize::Stream => chunked,
        _ => length != BodySize::Stream,
    }
}

/// End of the start line, and the header that announces the body.
pub open spec fn length_line(size: BodySize, chunked: bool) -> Seq<u8> {
    match size {
        BodySize::NoBody => crlf(),
        BodySize::Empty => content_length_bytes(0),
        BodySize::Sized(n) => content_length_bytes(n),
        BodySize::Stream => if chunked {
            ascii("\r\ntransfer-encoding: chunked\r\n"@)
        } else {
            crlf()
        },
    }
}

/// The header that announces what becomes of the connection, where the version
/// does not imply it.
pub open spec fn connection_line(ctype: ConnectionType, version: Version) -> Seq<u8> {
    match ctype {
        ConnectionType::Upgrade => ascii("connection: upgrade\r\n"@),
        ConnectionType::KeepAlive => if version.rank() < Version::HTTP_11.rank() {
            ascii("connection: keep-alive\r\n"@)
        } else {
            Seq::empty()
        },
        ConnectionType::Close => if version.rank() >= Version::HTTP_11.rank() {
            ascii("connection: close\r\n"@)
        } else {
            Seq::empty()
        },
    }
}

/// A header line.
pub open spec fn line_bytes(name: Seq<char>, value: Seq<u8>) -> Seq<u8> {
    encode_utf8(name) + seq![58u8, 32u8] + value + crlf()
}

/// A header of the message is written: the connection header never is, length
/// headers only where the encoder writes none of its own.
pub open spec fn is_written(name: Seq<char>, own_length: bool) -> bool {
    name != "connection"@ && !(own_length && (name == "transfer-encoding"@ || name
        == "content-length"@))
}

/// The header lines that are written, without those of hidden names.
pub open spec fn written(
    l: Seq<(Seq<char>, Seq<u8>)>,
    own_length: bool,
    hidden: Fields,
) -> Seq<u8>
    decreases l.len(),
{
    if l.len() == 0 {
        Seq::empty()
    } else {
        let (name, value) = l.last();
        let front = written(l.drop_last(), own_length, hidden);
        if is_written(name, own_length) && !hidden.contains_key(name) {
            front + line_bytes(name, value)
        } else {
            front
        }
    }
}

fn write_lines(
    dst: &mut Vec<u8>,
    list: &Vec<(String, Vec<u8>)>,
    own_length: bool,
    hidden: &HeaderMap,
)
    requires
        forall|i: int| 0 <= i < list@.len() ==> key((#[trigger] list@[i]).0@) == list@[i].0@,
    ensures
        final(dst)@ == old(dst)@ + written(lines(list@), own_length, fields(*hidden)),
{
    let mut i: usize = 0;
    let ghost all = lines(list@);
    assert(all.subrange(0, 0) =~= Seq::<(Seq<char>, Seq<u8>)>::empty());
    assert(dst@ =~= old(dst)@ + written(all.subrange(0, 0), own_length, fields(*hidden)));
    while i < list.len()
        invariant
            i <= list@.len(),
            all == lines(list@),
            forall|j: int| 0 <= j < list@.len() ==> key((#[trigger] list@[j]).0@) == list@[j].0@,
            dst@ == old(dst)@ + written(all.subrange(0, i as int), own_length, fields(*hidden)),
        decreases list@.len() - i,
    {
        let (name, value) = &list[i];
        proof {
            let next = all.subrange(0, i + 1);
            assert(next.drop_last() =~= all.subrange(0, i as int));
            assert(next.last() == (name@, value@));
            assert(key(list@[i as int].0@) == list@[i as int].0@);
            reveal_strlit(": ");
            assert(ascii(": "@) =~= seq![58u8, 32u8]);
        }
        let skip = str_eq(name.as_str(), "connection") || (own_length && (str_eq(
            name.as_str(),
            "transfer-encoding",
        ) || str_eq(name.as_str(), "content-length")));
        if !skip && !map_contains(hidden, name.as_str()) {
            let ghost before = dst@;
            put_bytes(dst, name.as_str().as_bytes());
            put(dst, ": ");
            put_bytes(dst, value.as_slice());
            dst.push(13);
            dst.push(10);
            assert(dst@ =~= before + line_bytes(name@, value@));
            assert(dst@ =~= old(dst)@ + written(
                all.subrange(0, i + 1),
                own_length,
                fields(*hidden),
            ));
        }
        i += 1;
    }
    assert(all.subrange(0, i as int) =~= all);
}

/// The headers of a message as they are written: `mine` are those of the
/// message, `extra` those that take the place of headers with the same name.
pub open spec fn headers_bytes(
    status: Option<StatusCode>,
    chunked: bool,
    version: Version,
    length: BodySize,
    ctype: ConnectionType,
    mine: Seq<(Seq<char>, Seq<u8>)>,
    extra: Seq<(Seq<char>, Seq<u8>)>,
    mine_fields: Fields,
    extra_fields: Fields,
    date: Seq<u8>,
) -> Seq<u8> {
    let own = own_length(status, length, chunked);
    length_line(announced(status, length), chunked) + connection_line(ctype, version) + written(
        mine,
        own,
        extra_fields,
    ) + written(extra, own, no_fields()) + (if mine_fields.contains_key(key("date"@))
        || extra_fields.contains_key(key("date"@)) {
        crlf()
    } else {
        date_header(date)
    })
}

proof fn regroup(
    o: Seq<u8>,
    a: Seq<u8>,
    b: Seq<u8>,
    c: Seq<u8>,
    d: Seq<u8>,
    e: Seq<u8>,
)
    ensures
        o + a + b + c + d + e == o + (a + b + c + d + e),
{
    assert(o + a + b + c + d + e =~= o + (a + b + c + d + e));
}

/// The fields that extra headers give.
pub open spec fn extra_fields(extra: Option<HeaderMap>) -> Fields {
    match extra {
        Some(m) => fields(m),
        None => no_fields(),
    }
}

fn put_line_end(dst: &mut Vec<u8>)
    ensures
        final(dst)@ == old(dst)@ + crlf(),
{
    dst.push(13);
    dst.push(10);
    assert(dst@ =~= old(dst)@ + crlf());
}

/// Ends the start line and announces the body. Returns whether the length
/// headers of the message are left out.
fn put_length(
    dst: &mut Vec<u8>,
    status: Option<StatusCode>,
    length: BodySize,
    chunked: bool,
) -> (r: bool)
    ensures
        r == own_length(status, length, chunked),
        final(dst)@ == old(dst)@ + length_line(announced(status, length), chunked),
{
    let mut own = length != BodySize::Stream;
    let mut length = length;
    if let Some(status) = status {
        if status.0 == 204 || status.0 == 100 || status.0 == 102 {
            length = BodySize::NoBody;
        } else if status.0 == 101 {
            length = BodySize::Stream;
        }
    }
    match length {
        BodySize::NoBody => {
            put_line_end(dst);
        },
        BodySize::Empty => {
            write_content_length(0, dst);
        },
        BodySize::Sized(len) => {
            write_content_length(len, dst);
        },
        BodySize::Stream => {
            if chunked {
                own = true;
                proof {
                    reveal_strlit("\r\ntransfer-encoding: chunked\r\n");
                }
                put(dst, "\r\ntransfer-encoding: chunked\r\n");
            } else {
                own = false;
                put_line_end(dst);
            }
        },
    }
    own
}

/// Announces what becomes of the connection.
fn put_connection(dst: &mut Vec<u8>, ctype: ConnectionType, version: Version)
    ensures
        final(dst)@ == old(dst)@ + connection_line(ctype, version),
{
    match ctype {
        ConnectionType::Upgrade => {
            proof {
                reveal_strlit("connection: upgrade\r\n");
            }
            put(dst, "connection: upgrade\r\n");
        },
        ConnectionType::KeepAlive => {
            if version.before_http_11() {
                proof {
                    reveal_strlit("connection: keep-alive\r\n");
                }
                put(dst, "connection: keep-alive\r\n");
            }
        },
        ConnectionType::Close => {
            if !version.before_http_11() {
                proof {
                    reveal_strlit("connection: close\r\n");
                }
                put(dst, "connection: close\r\n");
            }
        },
    }
    assert(dst@ =~= old(dst)@ + connection_line(ctype, version));
}

/// A message that is sent: a request or a response.
pub trait MessageType: Sized {
    /// Status, of a response.
    spec fn status_spec(self) -> Option<StatusCode>;

    /// Header fields.
    spec fn headers_spec(self) -> Fields;

    /// A body of unknown length is sent in chunks.
    spec fn chunked_spec(self) -> bool;

    /// The start line has a place for its parts.
    spec fn can_encode(self) -> bool;

    /// The start line, without its end.
    spec fn start_bytes(self) -> Seq<u8>;

    /// Status, of a response.
    fn status(&self) -> (r: Option<StatusCode>)
        ensures
            r == self.status_spec(),
    ;

    /// Header map.
    fn headers(&self) -> (r: &HeaderMap)
        ensures
            fields(*r) == self.headers_spec(),
    ;

    /// Whether a body of unknown length is sent in chunks.
    fn chunked(&self) -> (r: bool)
        ensures
            r == self.chunked_spec(),
    ;

    /// Appends the start line, without its end.
    fn encode_status(&self, dst: &mut Vec<u8>)
        requires
            self.can_encode(),
        ensures
            final(dst)@ == old(dst)@ + self.start_bytes(),
    ;

    /// Appends the end of the start line, the headers and the empty line.
    fn encode_headers(
        &self,
        dst: &mut Vec<u8>,
        version: Version,
        length: BodySize,
        ctype: ConnectionType,
        extra_headers: Option<HeaderMap>,
        date: &mut DateService,
        now: u64,
    ) -> (r: Result<(), EncodeError>)
        requires
            old(date).wf(),
            now < DATE_LIMIT,
        ensures
            r is Ok,
            final(date).wf(),
            exists|mine: Seq<(Seq<char>, Seq<u8>)>, extra: Seq<(Seq<char>, Seq<u8>)>|
                #![trigger lists(mine, self.headers_spec()), lists(
                    extra,
                    extra_fields(extra_headers),
                )]
                lists(mine, self.headers_spec()) && lists(extra, extra_fields(extra_headers))
                    && final(dst)@ == old(dst)@ + headers_bytes(
                    self.status_spec(),
                    self.chunked_spec(),
                    version,
                    length,
                    ctype,
                    mine,
                    extra,
                    self.headers_spec(),
                    extra_fields(extra_headers),
                    old(date).date_at(now),
                ),
    {
        let chunked = self.chunked();
        let own = put_length(dst, self.status(), length, chunked);
        put_connection(dst, ctype, version);
        let extra = match extra_headers {
            Some(m) => m,
            None => map_new(),
        };
        let mine_lines = map_lines(self.headers());
        let extra_lines = map_lines(&extra);
        let none = map_new();
        write_lines(dst, &mine_lines, own, &extra);
        write_lines(dst, &extra_lines, own, &none);
        if map_contains(self.headers(), "date") || map_contains(&extra, "date") {
            put_line_end(dst);
        } else {
            date.set_date_header(now, dst);
        }
        proof {
            let mine = lines(mine_lines@);
            let extra = lines(extra_lines@);
            assert(lists(mine, self.headers_spec()));
            assert(lists(extra, extra_fields(extra_headers)));
            regroup(
                old(dst)@,
                length_line(announced(self.status_spec(), length), chunked),
                connection_line(ctype, version),
                written(mine, own, extra_fields(extra_headers)),
                written(extra, own, no_fields()),
                if self.headers_spec().contains_key(key("date"@)) || extra_fields(
                    extra_headers,
                ).contains_key(key("date"@)) {
                    crlf()
                } else {
                    date_header(old(date).date_at(now))
                },
            );
        }
        Ok(())
    }
}

impl MessageType for ResponseHead {
    open spec fn status_spec(self) -> Option<StatusCode> {
        Some(self.status)
    }

    open spec fn headers_spec(self) -> Fields {
        self.fields()
    }

    open spec fn chunked_spec(self) -> bool {
        !self.flags.no_chunking
    }

    open spec fn can_encode(self) -> bool {
        self.status.0 <= 9999
    }

    open spec fn start_bytes(self) -> Seq<u8> {
        status_line_bytes(self.version, self.status.0) + encode_utf8(
            reason_of(self.reason, standard_reason(self.status.0)),
        )
    }

    fn status(&self) -> (r: Option<StatusCode>) {
        Some(self.status)
    }

    fn headers(&self) -> (r: &HeaderMap) {
        &self.headers
    }

    fn chunked(&self) -> (r: bool) {
        !self.flags.no_chunking
    }

    fn encode_status(&self, dst: &mut Vec<u8>) {
        let reason = self.reason();
        write_status_line(self.version, self.status.0, dst);
        put_bytes(dst, reason.as_bytes());
        assert(dst@ =~= old(dst)@ + self.start_bytes());
    }
}

/// Name of the version in a request line.
pub open spec fn request_version(version: Version) -> Seq<char> {
    match version {
        Version::HTTP_09 => "HTTP/0.9"@,
        Version::HTTP_10 => "HTTP/1.0"@,
        _ => "HTTP/1.1"@,
    }
}

impl MessageType for RequestHead {
    open spec fn status_spec(self) -> Option<StatusCode> {
        None
    }

    open spec fn headers_spec(self) -> Fields {
        self.fields()
    }

    open spec fn chunked_spec(self) -> bool {
        !self.flags.no_chunking
    }

    open spec fn can_encode(self) -> bool {
        true
    }

    open spec fn start_bytes(self) -> Seq<u8> {
        encode_utf8(self.method.name()) + seq![32u8] + encode_utf8(
            match self.uri@.path_and_query {
                Some(p) => p,
                None => "/"@,
            },
        ) + seq![32u8] + ascii(request_version(self.version))
    }

    fn status(&self) -> (r: Option<StatusCode>) {
        None
    }

    fn headers(&self) -> (r: &HeaderMap) {
        &self.headers
    }

    fn chunked(&self) -> (r: bool) {
        !self.flags.no_chunking
    }

    fn encode_status(&self, dst: &mut Vec<u8>) {
        put_bytes(dst, self.method.as_str().as_bytes());
        dst.push(32);
        let target = match &self.uri.path_and_query {
            Some(p) => p.as_str(),
            None => "/",
        };
        put_bytes(dst, target.as_bytes());
        dst.push(32);
        let version = match self.version {
            Version::HTTP_09 => "HTTP/0.9",
            Version::HTTP_10 => "HTTP/1.0",
            _ => "HTTP/1.1",
        };
        proof {
            reveal_strlit("HTTP/0.9");
            reveal_strlit("HTTP/1.0");
            reveal_strlit("HTTP/1.1");
        }
        put(dst, version);
        assert(dst@ =~= old(dst)@ + self.start_bytes());
    }
}

/// How the end of the body of a message is told.
pub open spec fn body_coding(
    head: bool,
    stream: bool,
    length: BodySize,
    chunked: bool,
) -> TransferEncodingKind {
    if head {
        TransferEncodingKind::Length(0)
    } else {
        match length {
            BodySize::Empty | BodySize::NoBody => TransferEncodingKind::Length(0),
            BodySize::Sized(n) => TransferEncodingKind::Length(n),
            BodySize::Stream => if chunked && !stream {
                TransferEncodingKind::Chunked(false)
            } else {
                TransferEncodingKind::Eof
            },
        }
    }
}

/// The bytes of a message head, with the header lines in some order of the
/// names.
pub open spec fn is_head_of<T: MessageType>(
    bytes: Seq<u8>,
    message: T,
    version: Version,
    length: BodySize,
    ctype: ConnectionType,
    extra_headers: Option<HeaderMap>,
    date: Seq<u8>,
) -> bool {
    exists|mine: Seq<(Seq<char>, Seq<u8>)>, extra: Seq<(Seq<char>, Seq<u8>)>|
        #![trigger lists(mine, message.headers_spec()), lists(extra, extra_fields(extra_headers))]
        lists(mine, message.headers_spec()) && lists(extra, extra_fields(extra_headers)) && bytes
            == message.start_bytes() + headers_bytes(
            message.status_spec(),
            message.chunked_spec(),
            version,
            length,
            ctype,
            mine,
            extra,
            message.headers_spec(),
            extra_fields(extra_headers),
            date,
        )
}

/// Outgoing message encoder
#[derive(Debug, Copy, Clone, PartialEq, Eq, Structural)]
pub struct MessageEncoder {
    pub te: TransferEncoding,
}

impl MessageEncoder {
    /// An encoder without a body.
    pub fn new() -> (r: MessageEncoder)
        ensures
            r.te.kind == TransferEncodingKind::Length(0),
    {
        MessageEncoder { te: TransferEncoding::empty() }
    }

    /// Encode a piece of the body. Returns whether it was the last one.
    pub fn encode_chunk(&mut self, msg: Vec<u8>, buf: &mut Vec<u8>) -> (r: Result<
        bool,
        EncodeError,
    >)
        ensures
            r == Ok::<bool, EncodeError>(was_last(old(self).te.kind, msg@)),
            final(self).te.kind == encoder_after(old(self).te.kind, msg@),
            final(buf)@ == old(buf)@ + encoded(old(self).te.kind, msg@),
    {
        self.te.encode(msg, buf)
    }

    /// Encode eof
    pub fn encode_eof(&mut self, buf: &mut Vec<u8>) -> (r: Result<(), EncodeError>)
        ensures
            may_end(old(self).te.kind) ==> r is Ok,
            !may_end(old(self).te.kind) ==> r == Err::<(), EncodeError>(EncodeError::UnexpectedEof),
            final(buf)@ == old(buf)@ + eof_encoded(old(self).te.kind),
            final(self).te.kind == match old(self).te.kind {
                TransferEncodingKind::Chunked(_) => TransferEncodingKind::Chunked(true),
                kind => kind,
            },
    {
        self.te.encode_eof(buf)
    }

    /// Encode the head of a message, and choose the coding of its body.
    pub fn encode<T: MessageType>(
        &mut self,
        dst: &mut Vec<u8>,
        message: &T,
        head: bool,
        stream: bool,
        version: Version,
        length: BodySize,
        ctype: ConnectionType,
        extra_headers: Option<HeaderMap>,
        date: &mut DateService,
        now: u64,
    ) -> (r: Result<(), EncodeError>)
        requires
            message.can_encode(),
            old(date).wf(),
            now < DATE_LIMIT,
        ensures
            r is Ok,
            final(date).wf(),
            final(self).te.kind == body_coding(head, stream, length, message.chunked_spec()),
            head ==> final(self).te.kind == TransferEncodingKind::Length(0),
            !head ==> (length matches BodySize::Sized(n) ==> final(self).te.kind
                == TransferEncodingKind::Length(n)),
            final(dst)@.len() >= old(dst)@.len(),
            final(dst)@.subrange(0, old(dst)@.len() as int) == old(dst)@,
            is_head_of(
                final(dst)@.subrange(old(dst)@.len() as int, final(dst)@.len() as int),
                *message,
                version,
                length,
                ctype,
                extra_headers,
                old(date).date_at(now),
            ),
    {
        self.te = if head {
            TransferEncoding::empty()
        } else {
            match length {
                BodySize::Empty | BodySize::NoBody => TransferEncoding::empty(),
                BodySize::Sized(len) => TransferEncoding::length(len),
                BodySize::Stream => {
                    if message.chunked() && !stream {
                        TransferEncoding::chunked()
                    } else {
                        TransferEncoding::eof()
                    }
                },
            }
        };
        let ghost n = dst@.len() as int;
        message.encode_status(dst);
        let r = message.encode_headers(dst, version, length, ctype, extra_headers, date, now);
        proof {
            let (mine, extra) = choose|
                mine: Seq<(Seq<char>, Seq<u8>)>,
                extra: Seq<(Seq<char>, Seq<u8>)>,
            |
                #![trigger lists(mine, message.headers_spec()), lists(
                    extra,
                    extra_fields(extra_headers),
                )]
                lists(mine, message.headers_spec()) && lists(extra, extra_fields(extra_headers))
                    && dst@ == old(dst)@ + message.start_bytes() + headers_bytes(
                    message.status_spec(),
                    message.chunked_spec(),
                    version,
                    length,
                    ctype,
                    mine,
                    extra,
                    message.headers_spec(),
                    extra_fields(extra_headers),
                    old(date).date_at(now),
                );
            assert(dst@.subrange(0, n) =~= old(dst)@);
            assert(dst@.subrange(n, dst@.len() as int) =~= message.start_bytes() + headers_bytes(
                message.status_spec(),
                message.chunked_spec(),
                version,
                length,
                ctype,
                mine,
                extra,
                message.headers_spec(),
                extra_fields(extra_headers),
                old(date).date_at(now),
            ));
        }
        r
    }
}

} // verus!
