//! Messages as they are written.

use vstd::prelude::*;
use vstd::utf8::encode_utf8;

use crate::body::BodySize;
use crate::h1::encoder::{
    announced, body_coding, connection_line, content_length_bytes, encoded, encoded_all,
    encoder_after, encoder_after_all, eof_encoded, extra_fields, frames, headers_bytes, is_head_of,
    joined, length_is_enforced, length_line, may_end, own_length, pieces_become_chunks,
    status_line_bytes, status_version, three_digits, was_last, written, MessageType,
    TransferEncodingKind,
};
use crate::headers::{lists, no_fields, Fields};
use crate::message::{standard_reason, ConnectionType, RequestHead, ResponseHead};
use crate::text::{ascii, crlf, decimal, hex};
use crate::types::{StatusCode, Version};

verus! {

// ---------------------------------------------------------------------------
// Bodies
// ---------------------------------------------------------------------------

/// Where only a head was asked for, no piece of the body and no end of it adds a
/// byte, and the body may end at any time, whatever its size is.
pub proof fn head_only_has_no_body(
    stream: bool,
    length: BodySize,
    chunked: bool,
    pieces: Seq<Seq<u8>>,
)
    ensures
        ({
            let kind = body_coding(true, stream, length, chunked);
            &&& encoded_all(kind, pieces) == Seq::<u8>::empty()
            &&& eof_encoded(encoder_after_all(kind, pieces)) == Seq::<u8>::empty()
            &&& may_end(encoder_after_all(kind, pieces))
        }),
{
    length_is_enforced(0, pieces);
    assert(encoded_all(body_coding(true, stream, length, chunked), pieces) =~= Seq::empty());
}

/// A message without a body has none, whatever pieces are handed in.
pub proof fn no_body_is_sent(
    head: bool,
    stream: bool,
    length: BodySize,
    chunked: bool,
    pieces: Seq<Seq<u8>>,
)
    requires
        length == BodySize::NoBody || length == BodySize::Empty || length == BodySize::Sized(0),
    ensures
        ({
            let kind = body_coding(head, stream, length, chunked);
            &&& encoded_all(kind, pieces) == Seq::<u8>::empty()
            &&& eof_encoded(encoder_after_all(kind, pieces)) == Seq::<u8>::empty()
            &&& may_end(encoder_after_all(kind, pieces))
        }),
{
    length_is_enforced(0, pieces);
    assert(encoded_all(body_coding(head, stream, length, chunked), pieces) =~= Seq::empty());
}

/// A body of a declared size is sent as it is, up to that size: it may end exactly
/// where as many bytes came, and nothing is sent at its end.
pub proof fn sized_body_is_sent_as_it_is(
    stream: bool,
    n: u64,
    chunked: bool,
    pieces: Seq<Seq<u8>>,
)
    ensures
        ({
            let kind = body_coding(false, stream, BodySize::Sized(n), chunked);
            let body = joined(pieces);
            &&& body.len() <= n ==> encoded_all(kind, pieces) == body
            &&& body.len() > n ==> encoded_all(kind, pieces) == body.take(n as int)
            &&& may_end(encoder_after_all(kind, pieces)) <==> body.len() >= n
            &&& eof_encoded(encoder_after_all(kind, pieces)) == Seq::<u8>::empty()
        }),
{
    length_is_enforced(n, pieces);
    let body = joined(pieces);
    assert(body.subrange(0, body.len() as int) =~= body);
    assert(body.len() >= n ==> body.subrange(0, n as int) =~= body.take(n as int));
}

/// A body of unknown size is sent in chunks, each with its length in hexadecimal
/// digits, and ended by an empty one, where chunks are allowed and the connection
/// was not turned into a stream.
pub proof fn streamed_body_is_chunked(pieces: Seq<Seq<u8>>)
    requires
        forall|i: int| 0 <= i < pieces.len() ==> (#[trigger] pieces[i]).len() > 0,
    ensures
        ({
            let kind = body_coding(false, false, BodySize::Stream, true);
            let after = encoder_after_all(kind, pieces);
            &&& encoded_all(kind, pieces) + eof_encoded(after) == chunks_of(pieces) + seq![
                48u8,
                13,
                10,
                13,
                10,
            ]
            &&& may_end(after)
            &&& eof_encoded(encoder_after(after, Seq::empty())) == Seq::<u8>::empty()
            &&& encoded(after, Seq::empty()) == eof_encoded(after)
        }),
{
    pieces_become_chunks(pieces);
    chunks_are_frames(pieces);
}

/// Pieces, each between its length and line ends.
pub open spec fn chunks_of(pieces: Seq<Seq<u8>>) -> Seq<u8>
    decreases pieces.len(),
{
    if pieces.len() == 0 {
        Seq::empty()
    } else {
        let p = pieces.last();
        chunks_of(pieces.drop_last()) + hex(p.len()) + seq![13u8, 10] + p + seq![13u8, 10]
    }
}

proof fn chunks_are_frames(pieces: Seq<Seq<u8>>)
    ensures
        frames(pieces) == chunks_of(pieces),
    decreases pieces.len(),
{
    if pieces.len() > 0 {
        chunks_are_frames(pieces.drop_last());
        assert(frames(pieces) =~= chunks_of(pieces));
    }
}

/// A body of unknown size that is not sent in chunks is sent as it is, and ends
/// with the connection.
pub proof fn unframed_body_is_sent_as_it_is(stream: bool, chunked: bool, pieces: Seq<Seq<u8>>)
    requires
        stream || !chunked,
    ensures
        ({
            let kind = body_coding(false, stream, BodySize::Stream, chunked);
            let after = encoder_after_all(kind, pieces);
            &&& encoded_all(kind, pieces) == joined(pieces)
            &&& may_end(after)
            &&& eof_encoded(after) == Seq::<u8>::empty()
            &&& after == kind
        }),
    decreases pieces.len(),
{
    if pieces.len() > 0 {
        unframed_body_is_sent_as_it_is(stream, chunked, pieces.drop_last());
    }
}

/// A piece is reported as the last one exactly where the body may end behind it
/// and nothing more would be written.
pub proof fn last_piece_is_told(n: u64, msg: Seq<u8>, ended: bool)
    ensures
        was_last(TransferEncodingKind::Length(n), msg) <==> msg.len() >= n,
        was_last(TransferEncodingKind::Length(n), msg) <==> may_end(
            encoder_after(TransferEncodingKind::Length(n), msg),
        ),
        was_last(TransferEncodingKind::Eof, msg) <==> msg.len() == 0,
        was_last(TransferEncodingKind::Chunked(ended), msg) <==> eof_encoded(
            encoder_after(TransferEncodingKind::Chunked(ended), msg),
        ).len() == 0,
{
}

// ---------------------------------------------------------------------------
// Heads
// ---------------------------------------------------------------------------

/// Header lines, each ended by a line end.
pub open spec fn text_of(l: Seq<(Seq<char>, Seq<u8>)>) -> Seq<u8>
    decreases l.len(),
{
    if l.len() == 0 {
        Seq::empty()
    } else {
        text_of(l.drop_last()) + encode_utf8(l.last().0) + seq![58u8, 32] + l.last().1 + seq![
            13u8,
            10,
        ]
    }
}

/// The name announces how long a body is.
pub open spec fn is_length_name(name: Seq<char>) -> bool {
    name == "content-length"@ || name == "transfer-encoding"@
}

/// The lines of a message that its head holds: not those on the connection, not
/// those that others take the place of, and none on the length where the head has
/// its own.
pub open spec fn kept_lines(
    l: Seq<(Seq<char>, Seq<u8>)>,
    own: bool,
    hidden: Fields,
) -> Seq<(Seq<char>, Seq<u8>)> {
    l.filter(
        |p: (Seq<char>, Seq<u8>)|
            p.0 != "connection"@ && !(own && is_length_name(p.0)) && !hidden.contains_key(p.0),
    )
}

proof fn written_is_text(l: Seq<(Seq<char>, Seq<u8>)>, own: bool, hidden: Fields)
    ensures
        written(l, own, hidden) == text_of(kept_lines(l, own, hidden)),
    decreases l.len(),
{
    let keep = |p: (Seq<char>, Seq<u8>)|
        p.0 != "connection"@ && !(own && is_length_name(p.0)) && !hidden.contains_key(p.0);
    reveal(Seq::filter);
    if l.len() > 0 {
        let front = l.drop_last();
        written_is_text(front, own, hidden);
        let last = l.last();
        if keep(last) {
            assert(kept_lines(l, own, hidden) == front.filter(keep).push(last));
            assert(front.filter(keep).push(last).drop_last() =~= front.filter(keep));
            assert(written(l, own, hidden) =~= text_of(kept_lines(l, own, hidden)));
        }
    }
}

/// What a head says of the length of its body.
pub open spec fn size_text(size: BodySize, chunked: bool) -> Seq<u8> {
    match size {
        BodySize::Sized(n) => ascii("content-length: "@) + decimal(n as nat) + seq![13u8, 10],
        BodySize::Empty => ascii("content-length: 0\r\n"@),
        BodySize::Stream if chunked => ascii("transfer-encoding: chunked\r\n"@),
        _ => Seq::empty(),
    }
}

/// What a head says of the connection.
pub open spec fn connection_text(t: ConnectionType, v: Version) -> Seq<u8> {
    let old = v == Version::HTTP_10 || v == Version::HTTP_09;
    match t {
        ConnectionType::Upgrade => ascii("connection: upgrade\r\n"@),
        ConnectionType::Close if !old => ascii("connection: close\r\n"@),
        ConnectionType::KeepAlive if old => ascii("connection: keep-alive\r\n"@),
        _ => Seq::empty(),
    }
}

/// The size of the body that a status allows: none after 100, 102 and 204, a
/// stream after 101.
pub open spec fn allowed_size(status: Option<StatusCode>, size: BodySize) -> BodySize {
    match status {
        Some(StatusCode(204)) | Some(StatusCode(100)) | Some(StatusCode(102)) => BodySize::NoBody,
        Some(StatusCode(101)) => BodySize::Stream,
        _ => size,
    }
}

/// A head is a start line, at most one line on the length of the body, at most one
/// on the connection, the header lines, a date and an empty line. It has one
/// connection line and no other where the connection is upgraded, or does not do
/// what its version implies. No header line is lost, but those on the connection,
/// and those on the length where the head has its own line. The date is that of a
/// header where there is one.
pub proof fn head_reads<T: MessageType>(
    bytes: Seq<u8>,
    message: T,
    version: Version,
    length: BodySize,
    ctype: ConnectionType,
    extra_headers: Option<ntex_http::HeaderMap>,
    date: Seq<u8>,
)
    requires
        is_head_of(bytes, message, version, length, ctype, extra_headers, date),
    ensures
        ({
            let size = allowed_size(message.status_spec(), length);
            let chunked = message.chunked_spec();
            let own = size_text(size, chunked).len() > 0 || length != BodySize::Stream && size
                != BodySize::Stream;
            exists|mine: Seq<(Seq<char>, Seq<u8>)>, extra: Seq<(Seq<char>, Seq<u8>)>|
                #![trigger lists(mine, message.headers_spec()), lists(
                    extra,
                    extra_fields(extra_headers),
                )]
                lists(mine, message.headers_spec()) && lists(extra, extra_fields(extra_headers))
                    && bytes == message.start_bytes() + seq![13u8, 10] + size_text(size, chunked)
                    + connection_text(ctype, version) + text_of(
                    kept_lines(mine, own, extra_fields(extra_headers)),
                ) + text_of(kept_lines(extra, own, no_fields())) + (
                if message.headers_spec().contains_key("date"@) || extra_fields(
                    extra_headers,
                ).contains_key("date"@) {
                    seq![13u8, 10]
                } else {
                    ascii("date: "@) + date + seq![13u8, 10, 13, 10]
                })
        }),
{
    let f = message.headers_spec();
    let g = extra_fields(extra_headers);
    let (mine, extra) = choose|mine: Seq<(Seq<char>, Seq<u8>)>, extra: Seq<(Seq<char>, Seq<u8>)>|
        #![trigger lists(mine, f), lists(extra, g)]
        lists(mine, f) && lists(extra, g) && bytes == message.start_bytes() + headers_bytes(
            message.status_spec(),
            message.chunked_spec(),
            version,
            length,
            ctype,
            mine,
            extra,
            f,
            g,
            date,
        );
    let chunked = message.chunked_spec();
    let status = message.status_spec();
    let size = allowed_size(status, length);
    let own = size_text(size, chunked).len() > 0 || length != BodySize::Stream && size
        != BodySize::Stream;
    size_line_reads(status, length, chunked);
    connection_line_reads(ctype, version);
    reveal_strlit("date");
    assert(crate::headers::key("date"@) =~= "date"@);
    written_is_text(mine, own, g);
    written_is_text(extra, own, no_fields());
    let end = if f.contains_key("date"@) || g.contains_key("date"@) {
        seq![13u8, 10]
    } else {
        ascii("date: "@) + date + seq![13u8, 10, 13, 10]
    };
    assert(crate::config::date_header(date) =~= ascii("date: "@) + date + seq![13u8, 10, 13, 10]);
    assert(crlf() =~= seq![13u8, 10]);
    joined_in_order(
        message.start_bytes(),
        size_text(size, chunked),
        connection_text(ctype, version),
        text_of(kept_lines(mine, own, g)),
        text_of(kept_lines(extra, own, no_fields())),
        end,
    );
}

proof fn joined_in_order(
    start: Seq<u8>,
    size: Seq<u8>,
    con: Seq<u8>,
    mine: Seq<u8>,
    extra: Seq<u8>,
    end: Seq<u8>,
)
    ensures
        start + (seq![13u8, 10] + size + con + mine + extra + end) == start + seq![13u8, 10] + size
            + con + mine + extra + end,
{
    assert(start + (seq![13u8, 10] + size + con + mine + extra + end) =~= start + seq![13u8, 10]
        + size + con + mine + extra + end);
}

proof fn size_line_reads(status: Option<StatusCode>, length: BodySize, chunked: bool)
    ensures
        ({
            let size = allowed_size(status, length);
            &&& length_line(announced(status, length), chunked) == seq![13u8, 10] + size_text(
                size,
                chunked,
            )
            &&& own_length(status, length, chunked) == (size_text(size, chunked).len() > 0
                || length != BodySize::Stream && size != BodySize::Stream)
        }),
{
    let size = allowed_size(status, length);
    assert(size == announced(status, length));
    reveal_strlit("content-length: ");
    reveal_strlit("\r\ncontent-length: ");
    reveal_strlit("content-length: 0\r\n");
    reveal_strlit("transfer-encoding: chunked\r\n");
    reveal_strlit("\r\ntransfer-encoding: chunked\r\n");
    assert(decimal(0) =~= seq![48u8]);
    match size {
        BodySize::Sized(n) => {
            assert(ascii("\r\ncontent-length: "@) =~= seq![13u8, 10] + ascii("content-length: "@));
            assert(content_length_bytes(n) =~= seq![13u8, 10] + size_text(size, chunked));
        },
        BodySize::Empty => {
            assert(ascii("\r\ncontent-length: "@) =~= seq![13u8, 10] + ascii("content-length: "@));
            assert(ascii("content-length: 0\r\n"@) =~= ascii("content-length: "@) + seq![
                48u8,
                13,
                10,
            ]);
            assert(content_length_bytes(0) =~= seq![13u8, 10] + size_text(size, chunked));
        },
        BodySize::Stream => {
            if chunked {
                assert(ascii("\r\ntransfer-encoding: chunked\r\n"@) =~= seq![13u8, 10] + ascii(
                    "transfer-encoding: chunked\r\n"@,
                ));
            } else {
                assert(crlf() =~= seq![13u8, 10] + size_text(size, chunked));
            }
        },
        BodySize::NoBody => {
            assert(crlf() =~= seq![13u8, 10] + size_text(size, chunked));
        },
    }
}

/// The line on the connection is there where the connection is upgraded, where it
/// is closed although the version keeps it alive, and where it is kept alive
/// although the version closes it.
pub proof fn connection_line_reads(ctype: ConnectionType, version: Version)
    ensures
        connection_line(ctype, version) == connection_text(ctype, version),
{
}

/// Three decimal digits are the number.
proof fn three_digits_are_decimal(n: nat)
    requires
        100 <= n <= 999,
    ensures
        three_digits(n as int) == decimal(n),
{
    reveal_with_fuel(decimal, 4);
    assert(decimal(n) =~= decimal(n / 10).push((48 + n % 10) as u8));
    assert(decimal(n / 10) =~= decimal(n / 10 / 10).push((48 + n / 10 % 10) as u8));
    assert(n / 10 / 10 == n / 100) by (nonlinear_arith);
    assert(decimal(n / 100) =~= seq![(48 + n / 100) as u8]);
    assert(three_digits(n as int) =~= decimal(n));
}

/// The start line of a response is its version, its status in decimal digits and
/// its reason, with a blank between them: a reason of its own, or that of the
/// status.
pub proof fn status_line_reads(head: ResponseHead)
    requires
        100 <= head.status.0 <= 999,
    ensures
        ({
            let version = match head.version {
                Version::HTTP_09 => "HTTP/0.9"@,
                Version::HTTP_10 => "HTTP/1.0"@,
                Version::HTTP_2 => "HTTP/2  "@,
                _ => "HTTP/1.1"@,
            };
            let line = ascii(version) + seq![32u8] + decimal(head.status.0 as nat) + seq![32u8];
            &&& head.reason matches Some(own) ==> head.start_bytes() == line + encode_utf8(own@)
            &&& head.reason is None ==> (standard_reason(head.status.0) matches Some(text)
                ==> head.start_bytes() == line + encode_utf8(text))
        }),
{
    three_digits_are_decimal(head.status.0 as nat);
    let version = status_version(head.version);
    assert(status_line_bytes(head.version, head.status.0) == ascii(version) + seq![32u8] + decimal(
        head.status.0 as nat,
    ) + seq![32u8]);
}

/// The start line of a request is its method, its target and its version, with a
/// blank between them. The target is the path and the query, the root where there
/// is neither.
pub proof fn request_line_reads(head: RequestHead)
    ensures
        ({
            let target = match head.uri@.path_and_query {
                Some(p) => p,
                None => "/"@,
            };
            let version = match head.version {
                Version::HTTP_09 => "HTTP/0.9"@,
                Version::HTTP_10 => "HTTP/1.0"@,
                _ => "HTTP/1.1"@,
            };
            head.start_bytes() == encode_utf8(head.method.name()) + seq![32u8] + encode_utf8(
                target,
            ) + seq![32u8] + ascii(version)
        }),
{
}

/// A head and its body agree: the head announces a length exactly where the body
/// is cut off at it, and chunks exactly where they are sent. This holds of every
/// message that asks for more than a head, but of a response whose status has no
/// body, and of one on a connection that was turned into a stream.
pub proof fn head_and_body_agree(status: Option<StatusCode>, length: BodySize, chunked: bool)
    requires
        allowed_size(status, length) == length,
    ensures
        ({
            let kind = body_coding(false, false, length, chunked);
            let line = length_line(announced(status, length), chunked);
            &&& kind == TransferEncodingKind::Chunked(false) <==> line == ascii(
                "\r\ntransfer-encoding: chunked\r\n"@,
            )
            &&& kind matches TransferEncodingKind::Length(n) ==> (n > 0 ==> line
                == content_length_bytes(n))
            &&& kind == TransferEncodingKind::Eof ==> line == crlf()
        }),
{
    reveal_strlit("\r\ntransfer-encoding: chunked\r\n");
    reveal_strlit("\r\ncontent-length: ");
    let kind = body_coding(false, false, length, chunked);
    let line = length_line(announced(status, length), chunked);
    let te = ascii("\r\ntransfer-encoding: chunked\r\n"@);
    assert(te[2] == 116);
    if let BodySize::Sized(n) = length {
        assert(content_length_bytes(n)[2] == 99);
    }
    if length == BodySize::Empty {
        assert(content_length_bytes(0)[2] == 99);
    }
    assert(crlf().len() == 2 && te.len() > 2);
}

} // verus!
