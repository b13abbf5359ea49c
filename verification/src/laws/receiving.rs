//! Messages as they are read.

use vstd::prelude::*;

use crate::config::HttpServiceConfig;
use crate::h1::decoder::{
    chunk_step, decoded, decoded_from, fresh_message, header_state, no_headers, read_headers, ready,
    rest, type_from, ChunkedState, HeadState, HeadersOut, HeadersRead, Kind, MessageDecoder,
    MessageType, PayloadDecoder, PayloadType, StartLine, Step,
};
use crate::h1::parser::{
    chunk_line, header_line, request_line, status_line, ChunkLine, HeaderLine, RequestLine,
    StatusLine,
};
use crate::headers::{appended, key, values_of, Fields};
use crate::message::{ConnectionType, Flags, ResponseHead};
use crate::request::Request;
use crate::text::{all_digits, ascii, decimal_value, eq_ignore_case, is_text, trim};
use crate::types::{chars, parsed_uri, Method, Version};

verus! {

/// The value asks for a websocket.
pub open spec fn is_websocket(v: Seq<u8>) -> bool {
    is_text(v) && eq_ignore_case(trim(v), ascii("websocket"@))
}

/// One of the values asks for a websocket.
pub open spec fn some_websocket(values: Seq<Seq<u8>>) -> bool {
    exists|i: int| 0 <= i < values.len() && is_websocket(#[trigger] values[i])
}

/// One of the values expects to be told to go on.
pub open spec fn some_continue(values: Seq<Seq<u8>>) -> bool {
    exists|i: int|
        0 <= i < values.len() && eq_ignore_case(#[trigger] values[i], ascii("100-continue"@))
}

/// A coding in chunks.
pub open spec fn is_chunked(v: Seq<u8>) -> bool {
    eq_ignore_case(trim(v), ascii("chunked"@))
}

/// What the headers of a message add up to. `f` are the headers, `st` is what they
/// said.
pub open spec fn adds_up(f: Fields, st: HeadState) -> bool {
    let te = values_of(f, "transfer-encoding"@);
    let cl = values_of(f, "content-length"@);
    let up = values_of(f, "upgrade"@);
    let con = values_of(f, "connection"@);
    &&& st.has_upgrade <==> up.len() > 0
    &&& st.expect <==> some_continue(values_of(f, "expect"@))
    &&& st.ka == (if con.len() > 0 && is_text(con.last()) {
        type_from(con.last(), 0)
    } else {
        None
    })
    &&& cl.len() == 0 ==> st.content_length is None
    &&& !some_websocket(up) ==> cl.len() <= 1 && (cl.len() == 1 ==> all_digits(cl[0])
        && st.content_length == Some(decimal_value(cl[0]) as u64) && decimal_value(cl[0])
        <= u64::MAX)
    &&& st.version == Version::HTTP_11 ==> te.len() <= 1 && (st.seen_te <==> te.len() == 1) && (
    st.chunked <==> te.len() == 1 && is_chunked(te[0]))
    &&& st.version == Version::HTTP_10 ==> te.len() == 0 && !st.chunked
    &&& !(st.chunked && st.content_length is Some)
}

proof fn names_differ()
    ensures
        "content-length"@.len() == 14,
        "transfer-encoding"@.len() == 17,
        "connection"@.len() == 10,
        "upgrade"@.len() == 7,
        "expect"@.len() == 6,
{
    reveal_strlit("content-length");
    reveal_strlit("transfer-encoding");
    reveal_strlit("connection");
    reveal_strlit("upgrade");
    reveal_strlit("expect");
}

proof fn chunked_is_not_identity(v: Seq<u8>)
    ensures
        !(eq_ignore_case(v, ascii("chunked"@)) && eq_ignore_case(v, ascii("identity"@))),
{
    reveal_strlit("chunked");
    reveal_strlit("identity");
    if eq_ignore_case(v, ascii("chunked"@)) && eq_ignore_case(v, ascii("identity"@)) {
        assert(crate::text::lower_seq(v).len() == 7);
        assert(crate::text::lower_seq(v).len() == 8);
    }
}

/// A header that is accepted adds to what the headers of a message add up to.
pub proof fn header_adds_up(f: Fields, st: HeadState, name: Seq<char>, value: Seq<u8>)
    requires
        adds_up(f, st),
        st.version == Version::HTTP_11 || st.version == Version::HTTP_10,
        header_state(st, name, value) is Ok,
    ensures
        adds_up(appended(f, name, value), header_state(st, name, value)->Ok_0),
        header_state(st, name, value)->Ok_0.version == st.version,
{
    names_differ();
    chunked_is_not_identity(trim(value));
    let g = appended(f, name, value);
    let st2 = header_state(st, name, value)->Ok_0;
    let up = values_of(f, "upgrade"@);
    let up2 = values_of(g, "upgrade"@);
    let ex = values_of(f, "expect"@);
    let ex2 = values_of(g, "expect"@);
    assert forall|other: Seq<char>| other != name implies #[trigger] values_of(g, other)
        == values_of(f, other) by {}
    assert(values_of(g, name) == values_of(f, name).push(value));
    if name == "upgrade"@ {
        if some_websocket(up) {
            let i = choose|i: int| 0 <= i < up.len() && is_websocket(#[trigger] up[i]);
            assert(is_websocket(up2[i]));
        }
        if is_websocket(value) {
            assert(is_websocket(up2[up.len() as int]));
        }
    }
    if name == "expect"@ {
        if some_continue(ex) {
            let i = choose|i: int|
                0 <= i < ex.len() && eq_ignore_case(#[trigger] ex[i], ascii("100-continue"@));
            assert(eq_ignore_case(ex2[i], ascii("100-continue"@)));
        }
        if eq_ignore_case(value, ascii("100-continue"@)) {
            assert(eq_ignore_case(ex2[ex.len() as int], ascii("100-continue"@)));
        }
        if some_continue(ex2) {
            let i = choose|i: int|
                0 <= i < ex2.len() && eq_ignore_case(#[trigger] ex2[i], ascii("100-continue"@));
            if i < ex.len() {
                assert(eq_ignore_case(ex[i], ascii("100-continue"@)));
            }
        }
    }
}

/// All headers of a message add up, however many there are, and there are no more
/// of them than are allowed.
pub proof fn headers_add_up(src: Seq<u8>, h: HeadersRead, cfg: HttpServiceConfig)
    requires
        adds_up(h.fields, h.st),
        h.st.version == Version::HTTP_11 || h.st.version == Version::HTTP_10,
        h.count <= cfg.max_headers,
    ensures
        match read_headers(src, h, cfg) {
            HeadersOut::Done(_, h2) | HeadersOut::Pending(_, h2) => adds_up(h2.fields, h2.st)
                && h2.st.version == h.st.version && h.count <= h2.count <= cfg.max_headers,
            HeadersOut::Failed(_) => true,
        },
    decreases src.len(),
{
    if let HeaderLine::Complete(name, value, len) = header_line(src) {
        let k = key(chars(name));
        if h.count < cfg.max_headers && header_state(h.st, k, value) is Ok && 0 < len
            <= src.len() {
            header_adds_up(h.fields, h.st, k, value);
            let st = header_state(h.st, k, value)->Ok_0;
            headers_add_up(
                rest(src, len as int),
                crate::h1::decoder::with_header(h, st, name, value, cfg.headers_vec),
                cfg,
            );
        }
    }
}

/// A header line that is accepted is among the headers of the message, under its
/// name in lower case and behind the values that the name had; no header is lost
/// on the way.
pub proof fn headers_are_kept(
    src: Seq<u8>,
    h: HeadersRead,
    cfg: HttpServiceConfig,
    name: Seq<char>,
)
    ensures
        match read_headers(src, h, cfg) {
            HeadersOut::Done(_, h2) | HeadersOut::Pending(_, h2) => {
                &&& values_of(h.fields, name).is_prefix_of(values_of(h2.fields, name))
                &&& header_line(src) matches HeaderLine::Complete(n, value, _) ==> values_of(
                    h.fields,
                    key(chars(n)),
                ).push(value).is_prefix_of(values_of(h2.fields, key(chars(n))))
                &&& !cfg.headers_vec ==> h2.items == h.items
                &&& cfg.headers_vec ==> h2.items.len() - h.items.len() == h2.count - h.count
            },
            HeadersOut::Failed(_) => true,
        },
    decreases src.len(),
{
    if let HeaderLine::Complete(n, value, len) = header_line(src) {
        let k = key(chars(n));
        if h.count < cfg.max_headers && header_state(h.st, k, value) is Ok && 0 < len
            <= src.len() {
            let st = header_state(h.st, k, value)->Ok_0;
            let next = crate::h1::decoder::with_header(h, st, n, value, cfg.headers_vec);
            headers_are_kept(rest(src, len as int), next, cfg, name);
            headers_are_kept(rest(src, len as int), next, cfg, k);
            assert(values_of(next.fields, k) == values_of(h.fields, k).push(value));
            if name != k {
                assert(values_of(next.fields, name) == values_of(h.fields, name));
            } else {
                assert(values_of(h.fields, k).is_prefix_of(values_of(next.fields, k)));
            }
        }
    }
}

proof fn nothing_adds_up(version: Version)
    requires
        version == Version::HTTP_11 || version == Version::HTTP_10,
    ensures
        adds_up(no_headers(version).fields, no_headers(version).st),
{
}

/// A body in chunks.
pub open spec fn chunks_follow() -> PayloadType {
    PayloadType::Payload(PayloadDecoder { kind: Kind::Chunked(ChunkedState::Size, 0) })
}

/// A body of so many bytes.
pub open spec fn bytes_follow(n: nat) -> PayloadType {
    PayloadType::Payload(PayloadDecoder { kind: Kind::Length(n as u64) })
}

/// The headers announce a body in chunks.
pub open spec fn announces_chunks(f: Fields) -> bool {
    let te = values_of(f, "transfer-encoding"@);
    te.len() > 0 && is_chunked(te[0])
}

/// The headers announce a body of a length other than zero. Those that ask for a
/// websocket announce none.
pub open spec fn announces_bytes(f: Fields) -> bool {
    let cl = values_of(f, "content-length"@);
    cl.len() > 0 && decimal_value(cl[0]) > 0 && !some_websocket(values_of(f, "upgrade"@))
}

/// The type of connection that the headers ask for.
pub open spec fn connection_asked(f: Fields) -> Option<ConnectionType> {
    let con = values_of(f, "connection"@);
    if con.len() > 0 && is_text(con.last()) {
        type_from(con.last(), 0)
    } else {
        None
    }
}

/// A request has the body that its headers announce, whatever its method, its
/// version and its other headers are: one in chunks, or one of as many bytes as
/// they say. It has no body where they announce none, but a stream where they ask
/// for an upgrade or the method is to connect.
pub proof fn request_has_the_announced_body(
    d: MessageDecoder<Request>,
    src: Seq<u8>,
    after: MessageDecoder<Request>,
    left: Seq<u8>,
    req: Request,
    pl: PayloadType,
)
    requires
        ready(d),
        decoded(d, src, after, left, Ok(Some((req, pl)))),
    ensures
        ({
            let f = req.head.fields();
            let cl = values_of(f, "content-length"@);
            let te = values_of(f, "transfer-encoding"@);
            let up = values_of(f, "upgrade"@);
            &&& req.head.version == Version::HTTP_11 || req.head.version == Version::HTTP_10
            &&& announces_chunks(f) ==> pl == chunks_follow()
            &&& announces_bytes(f) ==> pl == bytes_follow(decimal_value(cl[0]))
            &&& pl is NoPayload ==> !announces_chunks(f) && !announces_bytes(f)
            &&& pl matches PayloadType::Payload(p) ==> announces_chunks(f) || cl.len() > 0
            &&& cl.len() == 0 && te.len() == 0 && up.len() == 0 && !(req.head.method is CONNECT)
                ==> pl is NoPayload
            &&& cl.len() == 0 && te.len() == 0 && (up.len() > 0 || req.head.method is CONNECT)
                ==> pl == PayloadType::Stream(PayloadDecoder { kind: Kind::Eof })
            &&& pl is Stream ==> !announces_chunks(f) && !announces_bytes(f) && (up.len() > 0
                || req.head.method is CONNECT)
            &&& req.head.version == Version::HTTP_10 ==> te.len() == 0 && (req.head.method is POST
                ==> cl.len() > 0 || up.len() > 0)
            &&& !(announces_chunks(f) && announces_bytes(f))
        }),
{
    let h2 = request_headers(d, src, after, left, req, pl);
    names_differ();
}

/// A request is marked as its headers ask for: to close, to keep alive or to
/// upgrade the connection as the last connection header says, to upgrade it where a
/// stream follows, and to be told to go on where it expects that.
pub proof fn request_has_the_asked_marks(
    d: MessageDecoder<Request>,
    src: Seq<u8>,
    after: MessageDecoder<Request>,
    left: Seq<u8>,
    req: Request,
    pl: PayloadType,
)
    requires
        ready(d),
        decoded(d, src, after, left, Ok(Some((req, pl)))),
    ensures
        ({
            let f = req.head.fields();
            let asked = connection_asked(f);
            &&& req.head.flags.close <==> asked == Some(ConnectionType::Close)
            &&& req.head.flags.keep_alive <==> asked == Some(ConnectionType::KeepAlive)
            &&& req.head.flags.upgrade <==> asked == Some(ConnectionType::Upgrade) || pl is Stream
            &&& req.head.flags.expect <==> some_continue(values_of(f, "expect"@))
            &&& !req.head.flags.no_chunking
        }),
{
    let h2 = request_headers(d, src, after, left, req, pl);
}

/// What was read of the headers of a request.
proof fn request_headers(
    d: MessageDecoder<Request>,
    src: Seq<u8>,
    after: MessageDecoder<Request>,
    left: Seq<u8>,
    req: Request,
    pl: PayloadType,
) -> (h2: HeadersRead)
    requires
        ready(d),
        decoded(d, src, after, left, Ok(Some((req, pl)))),
    ensures
        adds_up(req.head.fields(), h2.st),
        h2.st.version == req.head.version,
        req.head.version == Version::HTTP_11 || req.head.version == Version::HTTP_10,
        crate::h1::decoder::request_body(
            req.head.method,
            req.head.version,
            crate::message::no_flags(),
            h2.st,
        ) == Ok::<
            (Flags, PayloadType),
            crate::error::DecodeError,
        >((req.head.flags, pl)),
{
    let (n, version) = match Request::start_line(src) {
        StartLine::Complete(n, v) => (n, v),
        _ => (0, Version::HTTP_11),
    };
    let msg = choose|msg: Request| #[trigger]
        fresh_message(msg, src, version) && decoded_from(
            d,
            src.len() as int,
            msg,
            rest(src, n),
            no_headers(version),
            after,
            left,
            Ok(Some((req, pl))),
        );
    let h = no_headers(version);
    nothing_adds_up(version);
    headers_add_up(rest(src, n), h, d.cfg);
    read_headers(rest(src, n), h, d.cfg)->Done_1
}

/// A request has the method, the target and the version of its start line.
pub proof fn request_has_its_start_line(
    d: MessageDecoder<Request>,
    src: Seq<u8>,
    after: MessageDecoder<Request>,
    left: Seq<u8>,
    req: Request,
    pl: PayloadType,
)
    requires
        ready(d),
        decoded(d, src, after, left, Ok(Some((req, pl)))),
    ensures
        request_line(src) matches RequestLine::Complete(method, target, minor, _)
            && req.head.method.name() == chars(method) && parsed_uri(target) == Ok::<
            crate::types::UriParts,
            Seq<char>,
        >(req.head.uri@) && (minor == 1 <==> req.head.version == Version::HTTP_11),
        ready(after),
{
    let (n, version) = match Request::start_line(src) {
        StartLine::Complete(n, v) => (n, v),
        _ => (0, Version::HTTP_11),
    };
    let msg = choose|msg: Request| #[trigger]
        fresh_message(msg, src, version) && decoded_from(
            d,
            src.len() as int,
            msg,
            rest(src, n),
            no_headers(version),
            after,
            left,
            Ok(Some((req, pl))),
        );
}

/// A response has the body that its headers announce, whatever its status and its
/// other headers are. Without an announcement it has none, but a stream where the
/// protocol is switched, and all that comes up to the end of the connection where
/// the version is HTTP/1.0. It has the status and the version of its start line.
pub proof fn response_has_the_announced_body(
    d: MessageDecoder<ResponseHead>,
    src: Seq<u8>,
    after: MessageDecoder<ResponseHead>,
    left: Seq<u8>,
    res: ResponseHead,
    pl: PayloadType,
)
    requires
        ready(d),
        decoded(d, src, after, left, Ok(Some((res, pl)))),
    ensures
        status_line(src) matches StatusLine::Complete(minor, code, _) && res.status.0 == code && (
        minor == 1 <==> res.version == Version::HTTP_11),
        ({
            let f = res.fields();
            let cl = values_of(f, "content-length"@);
            let te = values_of(f, "transfer-encoding"@);
            let none = !announces_chunks(f) && (cl.len() == 0 || decimal_value(cl[0]) == 0
                && !some_websocket(values_of(f, "upgrade"@)));
            let eof = PayloadDecoder { kind: Kind::Eof };
            let asked = connection_asked(f);
            &&& announces_chunks(f) ==> pl == chunks_follow()
            &&& announces_bytes(f) ==> pl == bytes_follow(decimal_value(cl[0]))
            &&& none && res.status.0 == 101 ==> pl == PayloadType::Stream(eof)
            &&& none && res.status.0 != 101 && res.version == Version::HTTP_10 ==> pl
                == PayloadType::Payload(eof) && res.flags.close
            &&& none && res.status.0 != 101 && res.version == Version::HTTP_11 ==> pl is NoPayload
            &&& res.version == Version::HTTP_11 ==> (res.flags.close <==> asked == Some(
                ConnectionType::Close,
            ))
            &&& res.flags.keep_alive <==> asked == Some(ConnectionType::KeepAlive)
            &&& res.flags.upgrade <==> asked == Some(ConnectionType::Upgrade)
        }),
{
    let (n, version) = match ResponseHead::start_line(src) {
        StartLine::Complete(n, v) => (n, v),
        _ => (0, Version::HTTP_11),
    };
    let msg = choose|msg: ResponseHead| #[trigger]
        fresh_message(msg, src, version) && decoded_from(
            d,
            src.len() as int,
            msg,
            rest(src, n),
            no_headers(version),
            after,
            left,
            Ok(Some((res, pl))),
        );
    let h = no_headers(version);
    nothing_adds_up(version);
    headers_add_up(rest(src, n), h, d.cfg);
    let h2 = read_headers(rest(src, n), h, d.cfg)->Done_1;
    assert(adds_up(res.fields(), h2.st));
    names_differ();
}

/// A message is given only where its head keeps to the limits: not too many
/// headers, and not too many bytes.
pub proof fn head_keeps_to_the_limits<T: MessageType>(
    d: MessageDecoder<T>,
    src: Seq<u8>,
    after: MessageDecoder<T>,
    left: Seq<u8>,
    m: (T, PayloadType),
)
    requires
        ready(d),
        decoded(d, src, after, left, Ok(Some(m))),
    ensures
        src.len() - left.len() <= d.cfg.max_buf_size,
{
}

/// A connection header that is one word, in any case, asks for what it says.
pub proof fn connection_words(v: Seq<u8>)
    ensures
        eq_ignore_case(v, ascii("close"@)) ==> type_from(v, 0) == Some(ConnectionType::Close),
        eq_ignore_case(v, ascii("keep-alive"@)) ==> type_from(v, 0) == Some(
            ConnectionType::KeepAlive,
        ),
        eq_ignore_case(v, ascii("upgrade"@)) ==> type_from(v, 0) == Some(ConnectionType::Upgrade),
        v.len() == 0 ==> type_from(v, 0) is None,
{
    reveal_strlit("close");
    reveal_strlit("keep-alive");
    reveal_strlit("upgrade");
    let c = ascii("close"@);
    let k = ascii("keep-alive"@);
    let u = ascii("upgrade"@);
    assert(crate::text::lower_seq(v).len() == v.len());
    assert(c.len() == 5 && k.len() == 10 && u.len() == 7);
    assert(crate::text::lower_seq(c).len() == 5);
    assert(crate::text::lower_seq(k).len() == 10);
    assert(crate::text::lower_seq(u).len() == 7);
    if eq_ignore_case(v, c) {
        assert(v.subrange(0, 5) =~= v);
        assert(crate::h1::decoder::token_at(v, 0, c));
    }
    if eq_ignore_case(v, k) {
        assert(v.subrange(0, 10) =~= v);
        assert(crate::h1::decoder::token_at(v, 0, k));
    }
    if eq_ignore_case(v, u) {
        assert(v.subrange(0, 7) =~= v);
        assert(crate::h1::decoder::token_at(v, 0, u));
        assert(crate::text::lower_seq(v)[0] == 117);
        let w = v.subrange(0, 5);
        assert(crate::text::lower_seq(w)[0] == crate::text::lower_seq(v)[0]);
        assert(crate::text::lower_seq(c)[0] == 99);
        assert(!crate::h1::decoder::token_at(v, 0, c));
    }
}

/// A header is refused only where it is a length that is none, that came before or
/// that chunks exclude, or a transfer coding that came before, that is none, or that
/// the version or a length excludes. No other header is ever refused.
pub proof fn headers_that_are_refused(st: HeadState, name: Seq<char>, value: Seq<u8>)
    ensures
        name != "content-length"@ && name != "transfer-encoding"@ ==> header_state(
            st,
            name,
            value,
        ) is Ok,
        name == "content-length"@ ==> (header_state(st, name, value) is Ok <==> value.len() > 0
            && all_digits(value) && decimal_value(value) <= u64::MAX && st.content_length is None
            && !st.chunked),
        name == "transfer-encoding"@ && st.version == Version::HTTP_10 ==> header_state(
            st,
            name,
            value,
        ) is Err,
        name == "transfer-encoding"@ && st.version == Version::HTTP_11 ==> (header_state(
            st,
            name,
            value,
        ) is Ok <==> !st.seen_te && is_text(value) && (is_chunked(value) && st.content_length
            is None || eq_ignore_case(trim(value), ascii("identity"@)))),
{
    names_differ();
}

/// A header line that is well formed and accepted is taken, and reading goes on
/// behind it; one too many is refused.
pub proof fn header_lines_are_taken(src: Seq<u8>, h: HeadersRead, cfg: HttpServiceConfig)
    ensures
        header_line(src) matches HeaderLine::Complete(name, value, len) ==> {
            let k = key(chars(name));
            &&& h.count >= cfg.max_headers ==> read_headers(src, h, cfg) == HeadersOut::Failed(
                crate::error::DecodeError::MaxHeaders,
            )
            &&& h.count < cfg.max_headers && crate::headers::is_name_text(name)
                && crate::headers::valid_value(value) && header_state(h.st, k, value) is Ok && 0
                < len <= src.len() ==> read_headers(src, h, cfg) == read_headers(
                src.subrange(len as int, src.len() as int),
                crate::h1::decoder::with_header(
                    h,
                    header_state(h.st, k, value)->Ok_0,
                    name,
                    value,
                    cfg.headers_vec,
                ),
                cfg,
            )
            &&& h.count < cfg.max_headers && !crate::headers::is_name_text(name) ==> read_headers(
                src,
                h,
                cfg,
            ) is Failed
        },
        header_line(src) matches HeaderLine::Eof(len) ==> read_headers(src, h, cfg)
            == HeadersOut::Done(src.subrange(len as int, src.len() as int), h),
        header_line(src) is Partial ==> read_headers(src, h, cfg) == HeadersOut::Pending(src, h),
        header_line(src) is Failed ==> read_headers(src, h, cfg) is Failed,
{
}

/// A request is owed where its start line and its headers are complete, accepted and
/// within the limits, but for one of HTTP/1.0 that posts without a length.
pub proof fn complete_requests_are_given(
    d: MessageDecoder<Request>,
    src: Seq<u8>,
    after: MessageDecoder<Request>,
    left: Seq<u8>,
    r: Result<Option<(Request, PayloadType)>, crate::error::DecodeError>,
)
    requires
        ready(d),
        decoded(d, src, after, left, r),
    ensures
        request_line(src) matches RequestLine::Complete(method, target, minor, len) ==> ({
            let version = if minor == 1 {
                Version::HTTP_11
            } else {
                Version::HTTP_10
            };
            let out = read_headers(rest(src, len as int), no_headers(version), d.cfg);
            let named = crate::types::is_token_text(method) && parsed_uri(target) is Ok;
            &&& !named ==> r is Err
            &&& named ==> (out matches HeadersOut::Done(behind, h2) ==> ({
                let size = src.len() - behind.len();
                let unsized_post = chars(method) == "POST"@ && minor != 1 && values_of(
                    h2.fields,
                    "content-length"@,
                ).len() == 0 && values_of(h2.fields, "upgrade"@).len() == 0;
                &&& size > d.cfg.max_buf_size ==> r is Err
                &&& size <= d.cfg.max_buf_size && !unsized_post && !some_websocket(
                    values_of(h2.fields, "upgrade"@),
                ) ==> (r matches Ok(Some(_))) && left == behind
            }))
            &&& named && out is Failed ==> r is Err
            &&& named && out is Pending ==> (src.len() < d.cfg.max_buf_size ==> r matches Ok(None))
                && (src.len() >= d.cfg.max_buf_size ==> r is Err)
        }),
        request_line(src) is Partial ==> (src.len() < d.cfg.max_buf_size ==> r matches Ok(None))
            && (src.len() >= d.cfg.max_buf_size ==> r is Err),
        request_line(src) is Failed ==> r is Err,
{
    names_differ();
    if let RequestLine::Complete(method, target, minor, len) = request_line(src) {
        let version = if minor == 1 {
            Version::HTTP_11
        } else {
            Version::HTTP_10
        };
        if crate::types::is_token_text(method) && parsed_uri(target) is Ok {
            let h = no_headers(version);
            nothing_adds_up(version);
            headers_add_up(rest(src, len as int), h, d.cfg);
            assert(Request::start_line(src) == StartLine::Complete(len as int, version));
            let msg = choose|msg: Request| #[trigger]
                fresh_message(msg, src, version) && decoded_from(
                    d,
                    src.len() as int,
                    msg,
                    rest(src, len as int),
                    h,
                    after,
                    left,
                    r,
                );
            if let HeadersOut::Done(behind, h2) = read_headers(rest(src, len as int), h, d.cfg) {
                post_is_named(msg.head.method, chars(method));
            }
        }
    }
}

proof fn post_is_named(m: Method, name: Seq<char>)
    requires
        Method::named(m, name),
    ensures
        m is POST ==> name == "POST"@,
{
}

/// A chunk is followed by a line end, and so is the last one; anything else is no
/// body in chunks, and nothing is taken for its data.
pub proof fn chunks_end_with_line_ends(size: u64, src: Seq<u8>)
    requires
        src.len() > 0,
    ensures
        src[0] != 13 ==> chunk_step(ChunkedState::BodyCr, size, src) is Failed && chunk_step(
            ChunkedState::EndCr,
            size,
            src,
        ) is Failed,
        src[0] != 10 ==> chunk_step(ChunkedState::BodyLf, size, src) is Failed && chunk_step(
            ChunkedState::EndLf,
            size,
            src,
        ) is Failed,
        src[0] == 13 ==> chunk_step(ChunkedState::BodyCr, size, src) == Step::Next(
            ChunkedState::BodyLf,
            size,
            None,
            src.subrange(1, src.len() as int),
        ) && chunk_step(ChunkedState::EndCr, size, src) == Step::Next(
            ChunkedState::EndLf,
            size,
            None,
            src.subrange(1, src.len() as int),
        ),
        src[0] == 10 ==> chunk_step(ChunkedState::BodyLf, size, src) == Step::Next(
            ChunkedState::Size,
            size,
            None,
            src.subrange(1, src.len() as int),
        ) && chunk_step(ChunkedState::EndLf, size, src) == Step::Next(
            ChunkedState::End,
            size,
            None,
            src.subrange(1, src.len() as int),
        ),
{
}

/// The data of a chunk is as many bytes as its size says, or all that is there.
pub proof fn chunks_hold_their_size(size: u64, src: Seq<u8>)
    requires
        src.len() > 0,
    ensures
        size <= src.len() ==> chunk_step(ChunkedState::Body, size, src) == Step::Next(
            ChunkedState::BodyCr,
            0,
            Some(src.subrange(0, size as int)),
            src.subrange(size as int, src.len() as int),
        ),
        size > src.len() ==> chunk_step(ChunkedState::Body, size, src) == Step::Next(
            ChunkedState::Body,
            (size - src.len()) as u64,
            Some(src),
            Seq::empty(),
        ),
        chunk_line(src) matches ChunkLine::Complete(len, n) ==> (chunk_step(
            ChunkedState::Size,
            size,
            src,
        ) matches Step::Next(next, n2, None, left) && n2 == n && left == src.subrange(
            len as int,
            src.len() as int,
        ) && (n > 0 ==> next == ChunkedState::Body) && (n == 0 ==> next == ChunkedState::EndCr)),
        chunk_line(src) == ChunkLine::Failed ==> chunk_step(ChunkedState::Size, size, src)
            is Failed,
{
}

/// Of a connection header with several words the first one decides.
pub proof fn first_word_decides(v: Seq<u8>, tail: Seq<u8>)
    ensures
        v == ascii("close, "@) + tail ==> type_from(v, 0) == Some(ConnectionType::Close),
        v == ascii("keep-alive, "@) + tail ==> type_from(v, 0) == Some(ConnectionType::KeepAlive),
        v == ascii("upgrade, "@) + tail ==> type_from(v, 0) == Some(ConnectionType::Upgrade),
{
    reveal_strlit("close");
    reveal_strlit("keep-alive");
    reveal_strlit("upgrade");
    reveal_strlit("close, ");
    reveal_strlit("keep-alive, ");
    reveal_strlit("upgrade, ");
    let c = ascii("close"@);
    let k = ascii("keep-alive"@);
    let u = ascii("upgrade"@);
    if v == ascii("close, "@) + tail {
        assert(v.subrange(0, 5) =~= c);
        assert(v[6] == 32);
        if crate::h1::decoder::token_at(v, 0, k) {
            let w = v.subrange(0, 10);
            assert(crate::text::lower_seq(w)[0] == crate::text::lower_seq(k)[0]);
            assert(w[0] == 99);
        }
    }
    if v == ascii("keep-alive, "@) + tail {
        assert(v.subrange(0, 10) =~= k);
        assert(v[11] == 32);
    }
    if v == ascii("upgrade, "@) + tail {
        assert(v.subrange(0, 7) =~= u);
        assert(v[8] == 32);
        if crate::h1::decoder::token_at(v, 0, k) {
            let w = v.subrange(0, 10);
            assert(crate::text::lower_seq(w)[0] == crate::text::lower_seq(k)[0]);
            assert(w[0] == 117);
        }
        if crate::h1::decoder::token_at(v, 0, c) {
            let w = v.subrange(0, 5);
            assert(crate::text::lower_seq(w)[0] == crate::text::lower_seq(c)[0]);
            assert(w[0] == 117);
        }
    }
}

/// What a message says of its transfer coding: chunks where the word stands in its
/// first value, none without a value.
pub proof fn chunked_messages(f: Fields)
    ensures
        !f.contains_key("transfer-encoding"@) ==> crate::request::chunked_of(f) == Some(false),
        f.contains_key("transfer-encoding"@) && eq_ignore_case(
            f["transfer-encoding"@][0],
            ascii("chunked"@),
        ) && is_text(f["transfer-encoding"@][0]) ==> crate::request::chunked_of(f) == Some(true),
        f.contains_key("transfer-encoding"@) && !is_text(f["transfer-encoding"@][0])
            ==> crate::request::chunked_of(f) is None,
{
    reveal_strlit("transfer-encoding");
    reveal_strlit("chunked");
    assert(key("transfer-encoding"@) =~= "transfer-encoding"@);
    let v = f["transfer-encoding"@][0];
    let c = ascii("chunked"@);
    if eq_ignore_case(v, c) {
        assert(crate::text::lower_seq(v).len() == v.len());
        assert(crate::text::lower_seq(c).len() == c.len());
        let i: int = 0;
        assert(v.subrange(i, i + c.len()) =~= v);
        assert(crate::text::lower_seq(v.subrange(i, i + c.len())) == crate::text::lower_seq(c));
        assert(crate::request::contains_ignore_case(v, c));
    }
}

/// The errors of the parser are told as what is wrong with the message.
pub proof fn parse_errors(e: crate::error::ParseError)
    ensures
        e is Version ==> crate::error::decode_error(e) is Version,
        e is Status ==> crate::error::decode_error(e) is Status,
        e is TooManyHeaders ==> crate::error::decode_error(e) is TooLarge,
        e is HeaderName || e is HeaderValue || e is NewLine || e is Token
            ==> crate::error::decode_error(e) is Header,
{
}

/// A header says what it says whatever came before it: a request for a websocket
/// takes back a length, a length is the number that its digits stand for, chunks
/// are announced, and the last connection header counts. All else that was said
/// stays.
pub proof fn headers_say(st: HeadState, name: Seq<char>, value: Seq<u8>)
    requires
        header_state(st, name, value) is Ok,
    ensures
        ({
            let st2 = header_state(st, name, value)->Ok_0;
            &&& name == "upgrade"@ ==> st2.has_upgrade
            &&& name == "upgrade"@ && is_websocket(value) ==> st2.content_length is None
            &&& name == "upgrade"@ && !is_websocket(value) ==> st2.content_length
                == st.content_length
            &&& name == "content-length"@ ==> st2.content_length == Some(
                decimal_value(value) as u64,
            )
            &&& name == "transfer-encoding"@ && st.version == Version::HTTP_11 ==> st2.seen_te && (
            st2.chunked <==> st.chunked || is_chunked(value))
            &&& name == "connection"@ ==> st2.ka == (if is_text(value) {
                type_from(value, 0)
            } else {
                None
            })
            &&& name == "expect"@ ==> (st2.expect <==> st.expect || eq_ignore_case(
                value,
                ascii("100-continue"@),
            ))
            &&& name != "upgrade"@ && name != "content-length"@ ==> st2.content_length
                == st.content_length
            &&& name != "upgrade"@ ==> st2.has_upgrade == st.has_upgrade
            &&& name != "connection"@ ==> st2.ka == st.ka
            &&& name != "expect"@ ==> st2.expect == st.expect
            &&& name != "transfer-encoding"@ ==> st2.chunked == st.chunked && st2.seen_te
                == st.seen_te
            &&& st2.version == st.version
        }),
{
    names_differ();
    chunked_is_not_identity(trim(value));
}

/// Where headers are kept in their original form, each one is kept behind those
/// before it, with its name as it was written.
pub proof fn originals_are_kept(
    h: HeadersRead,
    st: HeadState,
    origin: Seq<u8>,
    value: Seq<u8>,
    keep: bool,
)
    ensures
        ({
            let h2 = crate::h1::decoder::with_header(h, st, origin, value, keep);
            &&& keep ==> h2.items.len() == h.items.len() + 1 && h2.items.last().origin == origin
                && h2.items.last().value == value && h2.items.last().name == key(chars(origin))
                && h2.items.drop_last() == h.items
            &&& !keep ==> h2.items == h.items
            &&& h2.count == h.count + 1
            &&& h2.st == st
            &&& values_of(h2.fields, key(chars(origin))) == values_of(
                h.fields,
                key(chars(origin)),
            ).push(value)
        }),
{
    let h2 = crate::h1::decoder::with_header(h, st, origin, value, keep);
    if keep {
        assert(h2.items.drop_last() =~= h.items);
    }
}

} // verus!
