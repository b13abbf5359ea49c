//! Requests of the client and what it reads of responses.

use vstd::prelude::*;
use vstd::utf8::encode_utf8;

use crate::body::{Body, BodySize, StreamPoll};
use crate::client::builder::{base64_text, basic_value, bearer_value, credentials};
use crate::client::connector::{is_pool_of, is_secure};
use crate::client::error::{ExchangeError, JsonPayloadError, SendRequestError};
use crate::client::h1proto::{
    body_received, exchange_answered, exchange_fed, exchange_flushed, is_hosted, Answered, Exchange,
    ExchangeStep, PlStep, RecvEvent, Sending,
};
use crate::client::request::{is_request_to, ClientRequest};
use crate::client::response::{
    announced_length, chunk_taken, is_body_of, is_json_body_of, parsed_mime, BodyPoll,
    ClientResponse, JsonBody, MessageBody,
};
use crate::client::sender::{has_header, is_typed, opt_fields};
use crate::error::{IoError, PayloadError};
use crate::h1::client::ClientCodec;
use crate::h1::encoder::{encoded, encoded_all, encoder_after_all, eof_encoded, joined, may_end};
use crate::h1::MessageType;
use crate::headers::{key, valid_value, values_of, Fields};
use crate::message::{ConnectionType, RequestHeadType, ResponseHead};
use crate::payload::{Payload, PayloadPoll};
use crate::text::{all_digits, ascii, decimal, decimal_value, is_text};
use crate::types::chars;

verus! {

/// All headers that a request is sent with, under a name.
pub open spec fn sent_values(head: RequestHeadType, name: Seq<char>) -> Seq<Seq<u8>> {
    match head {
        RequestHeadType::Owned(h) => values_of(h.fields(), name),
        RequestHeadType::Rc(h, extra) => if opt_fields(extra).contains_key(name) {
            values_of(opt_fields(extra), name)
        } else {
            values_of(h.fields(), name)
        },
    }
}

/// A request that names no host is sent with the host of its target, with the port
/// unless it goes without saying; one that does is sent as it is. Nothing else of
/// it changes.
pub proof fn requests_name_their_host(after: RequestHeadType, before: RequestHeadType, name: Seq<char>)
    requires
        is_hosted(after, before),
    ensures
        has_header(before, "host"@) ==> after == before,
        !has_header(before, "host"@) ==> (before.head().uri@.host matches Some(host) ==> ({
            let port = before.head().uri@.port;
            let value = if port is None || port == Some(80u16) || port == Some(443u16) {
                encode_utf8(host)
            } else {
                encode_utf8(host) + seq![58u8] + decimal(port->0 as nat)
            };
            valid_value(value) ==> sent_values(after, "host"@) == seq![value]
        })),
        name != "host"@ ==> sent_values(after, name) == sent_values(before, name),
        after.head().method == before.head().method,
        after.head().uri == before.head().uri,
        after.head().version == before.head().version,
        after.head().flags == before.head().flags,
{
    reveal_strlit("host");
    assert(key("host"@) =~= "host"@);
}

/// A request with a body of a type is sent with its text as it is, under the type
/// that it names, or else under the given one; a body that could not be made is an
/// error.
pub proof fn typed_bodies(
    head: RequestHeadType,
    body: Result<String, String>,
    content_type: Seq<char>,
    r: Result<(RequestHeadType, Body), SendRequestError>,
)
    requires
        is_typed(head, body, content_type, r),
    ensures
        r is Ok <==> body is Ok,
        r matches Ok((h, b)) ==> {
            &&& b matches Body::Bytes(bytes) && bytes@ == encode_utf8(body->Ok_0@)
            &&& has_header(head, "content-type"@) ==> h == head
            &&& !has_header(head, "content-type"@) ==> sent_values(h, "content-type"@) == seq![
                ascii(content_type),
            ]
        },
        body matches Err(e) ==> r == Err::<(RequestHeadType, Body), SendRequestError>(
            SendRequestError::Error(e),
        ),
{
    reveal_strlit("content-type");
    assert(key("content-type"@) =~= "content-type"@);
}

/// A secured connection is asked for by `https` and `wss`, and by nothing else.
pub proof fn secured_schemes(scheme: Option<Seq<char>>)
    ensures
        is_secure(Some("https"@)),
        is_secure(Some("wss"@)),
        !is_secure(Some("http"@)),
        !is_secure(Some("ws"@)),
        !is_secure(None),
        is_secure(scheme) ==> scheme == Some("https"@) || scheme == Some("wss"@),
{
    reveal_strlit("https");
    reveal_strlit("wss");
    reveal_strlit("http");
    reveal_strlit("ws");
    assert("http"@.len() == 4 && "https"@.len() == 5 && "ws"@.len() == 2 && "wss"@.len() == 3);
}

/// The length of a body is announced by decimal digits. Without a header none is
/// announced, and anything else is no length.
pub proof fn lengths_are_digits(f: Fields)
    ensures
        ({
            let v = f["content-length"@][0];
            &&& !f.contains_key("content-length"@) ==> announced_length(f) == Ok::<
                Option<usize>,
                (),
            >(None)
            &&& f.contains_key("content-length"@) && v.len() > 0 && all_digits(v) && decimal_value(
                v,
            ) <= usize::MAX ==> announced_length(f) == Ok::<Option<usize>, ()>(
                Some(decimal_value(v) as usize),
            )
            &&& f.contains_key("content-length"@) && v.len() == 0 ==> announced_length(f) is Err
        }),
{
    reveal_strlit("content-length");
    assert(key("content-length"@) =~= "content-length"@);
    let v = f["content-length"@][0];
    if v.len() > 0 && all_digits(v) {
        assert(v[0] != 43);
        assert forall|i: int| 0 <= i < v.len() implies crate::text::is_visible(
            #[trigger] v[i],
        ) by {
            assert(crate::text::is_digit(v[i]));
        }
    }
}

/// The body of a response is taken from it, up to 256 KiB; one whose length is no
/// length is not read.
pub proof fn bodies_of_responses(res: ClientResponse, after: ClientResponse, r: MessageBody)
    requires
        is_body_of(res, after, r),
    ensures
        announced_length(res.head.fields()) is Err <==> r.err == Some(PayloadError::UnknownLength),
        announced_length(res.head.fields()) matches Ok(n) ==> r.err is None && r.length == n && (
        r.fut matches Some(b) && b.stream == res.payload && b.buf@.len() == 0 && b.limit == 256
            * 1024) && after.payload == Payload::NoPayload,
        after.head == res.head,
{
}

/// A json body is one of a json content type, by its subtype or its suffix, up to
/// 64 KiB; any other content type is an error.
pub proof fn json_bodies_of_responses(res: ClientResponse, after: ClientResponse, r: JsonBody)
    requires
        is_json_body_of(res, after, r),
    ensures
        ({
            let f = res.head.fields();
            let json = f.contains_key("content-type"@) && is_text(f["content-type"@][0]) && (
            parsed_mime(chars(f["content-type"@][0])) matches Some((sub, suffix)) && (sub
                == "json"@ || suffix == Some("json"@)));
            &&& json ==> r.err is None && (r.fut matches Some(b) && b.stream == res.payload
                && b.buf@.len() == 0 && b.limit == 64 * 1024)
            &&& !json ==> r.err == Some(JsonPayloadError::ContentType) && r.fut is None
        }),
{
    reveal_strlit("content-type");
    assert(key("content-type"@) =~= "content-type"@);
}

/// Basic authorization is the name and the password with a colon between them, in
/// base64; a bearer is told as it is.
pub proof fn authorizations(user: Seq<char>, password: Option<&str>, token: Seq<char>)
    ensures
        password matches Some(p) ==> credentials(user, password) == user + seq![':'] + p@,
        password is None ==> credentials(user, password) == user + seq![':'],
        basic_value(user, password) == seq!['B', 'a', 's', 'i', 'c', ' '] + base64_text(
            encode_utf8(credentials(user, password)),
        ),
        bearer_value(token) == seq!['B', 'e', 'a', 'r', 'e', 'r', ' '] + token,
{
    reveal_strlit(":");
    reveal_strlit("Basic ");
    reveal_strlit("Bearer ");
    assert(":"@ =~= seq![':']);
    assert("Basic "@ =~= seq!['B', 'a', 's', 'i', 'c', ' ']);
    assert("Bearer "@ =~= seq!['B', 'e', 'a', 'r', 'e', 'r', ' ']);
}

// ---------------------------------------------------------------------------
// Exchanges
// ---------------------------------------------------------------------------

/// A request is sent in its order: the head, then the body where it has one, then
/// the response is awaited. What cannot be sent fails the request.
pub proof fn requests_are_sent_in_order(
    before: Exchange,
    after: Exchange,
    res: Result<(), IoError>,
    r: ExchangeStep,
)
    requires
        exchange_flushed(before, after, res, r),
        before.at == Sending::Head || before.at == Sending::Piece || before.at == Sending::End,
    ensures
        res matches Err(e) ==> r == ExchangeStep::Failed(SendRequestError::Send(e)),
        res is Ok && before.at == Sending::Head ==> ({
            let none = before.size == BodySize::NoBody || before.size == BodySize::Empty
                || before.size == BodySize::Sized(0);
            &&& none ==> r is Recv && after.at == Sending::Response
            &&& !none ==> r is PollBody && after.at == Sending::Body
        }),
        res is Ok && before.at == Sending::Piece ==> r is PollBody && after.at == Sending::Body,
        res is Ok && before.at == Sending::End ==> r is Recv && after.at == Sending::Response,
        after.codec == before.codec,
        after.size == before.size,
{
}

/// A piece of the body of a request is written behind all that was written before,
/// as the head framed it; the end is written where the body may end, and fails the
/// request where it may not. A body that fails, fails the request.
pub proof fn request_bodies_are_written(
    before: Exchange,
    after: Exchange,
    item: StreamPoll,
    dst: Seq<u8>,
    out: Seq<u8>,
    r: ExchangeStep,
)
    requires
        exchange_fed(before, after, item, dst, out, r),
    ensures
        dst.is_prefix_of(out),
        item matches StreamPoll::Chunk(b) ==> out == dst + encoded(
            before.codec.encoder.te.kind,
            b@,
        ) && after.at == Sending::Piece && r is Flush,
        item is Done ==> out == dst + eof_encoded(before.codec.encoder.te.kind),
        item is Done && may_end(before.codec.encoder.te.kind) ==> after.at == Sending::End && r
            is Flush,
        item is Done && !may_end(before.codec.encoder.te.kind) ==> r is Failed,
        item matches StreamPoll::Failed(e) ==> r == ExchangeStep::Failed(
            SendRequestError::Error(e),
        ) && out == dst,
        item is Pending ==> r is Wait && out == dst && after == before,
{
}

/// All pieces of a body together are written as the head framed them, whatever they
/// are: `exs` is the exchange before each piece, and after the last one.
pub proof fn whole_bodies_are_written(
    exs: Seq<Exchange>,
    pieces: Seq<Vec<u8>>,
    outs: Seq<Seq<u8>>,
    n: int,
)
    requires
        exs.len() == pieces.len() + 1,
        outs.len() == pieces.len() + 1,
        0 <= n <= pieces.len(),
        forall|i: int|
            0 <= i < pieces.len() ==> #[trigger] exchange_fed(
                exs[i],
                exs[i + 1],
                StreamPoll::Chunk(pieces[i]),
                outs[i],
                outs[i + 1],
                ExchangeStep::Flush(false),
            ),
    ensures
        ({
            let kind = exs[0].codec.encoder.te.kind;
            let views = crate::payload::pieces(pieces).take(n);
            &&& outs[n] == outs[0] + encoded_all(kind, views)
            &&& exs[n].codec.encoder.te.kind == encoder_after_all(kind, views)
        }),
    decreases n,
{
    let kind = exs[0].codec.encoder.te.kind;
    let all = crate::payload::pieces(pieces);
    if n == 0 {
        assert(outs[0] + encoded_all(kind, all.take(0)) =~= outs[0]);
    } else {
        whole_bodies_are_written(exs, pieces, outs, n - 1);
        let i = n - 1;
        assert(exchange_fed(
            exs[i],
            exs[i + 1],
            StreamPoll::Chunk(pieces[i]),
            outs[i],
            outs[i + 1],
            ExchangeStep::Flush(false),
        ));
        assert(all.take(n).drop_last() =~= all.take(n - 1));
        assert(all.take(n).last() == pieces[i]@);
        assert(outs[n] =~= outs[0] + encoded_all(kind, all.take(n)));
    }
}

/// A response without a body gives the connection back, open exactly where it is
/// kept alive; one with a body is read on with the codec that read its head. A
/// connection that ends without a response, and what cannot be read or decoded, fail
/// the request.
pub proof fn responses_are_taken(
    ex: Exchange,
    res: Result<Option<ResponseHead>, ExchangeError>,
    r: Answered,
)
    requires
        exchange_answered(ex, res, r),
    ensures
        res matches Ok(Some(head)) ==> {
            let none = ex.codec.payload is None && !ex.codec.stream;
            &&& none ==> r == Answered::Release(head, ex.codec.ctype != ConnectionType::KeepAlive)
            &&& !none ==> (r matches Answered::ReadBody(h, c) && h == head && c.inner == ex.codec)
        },
        res matches Ok(None) ==> r is Failed,
        res matches Err(ExchangeError::Decode(e)) ==> r == Answered::Failed(
            SendRequestError::Response(e),
        ),
        res matches Err(ExchangeError::Io(e)) ==> r == Answered::Failed(SendRequestError::Send(e)),
        res is Err ==> r is Failed,
{
}

/// The body of a response is handed on piece by piece; at its end the connection is
/// given back, open exactly where it is kept alive; an error fails it.
pub proof fn response_bodies_are_read(ctype: ConnectionType, ev: RecvEvent, r: PlStep)
    requires
        body_received(ctype, ev, r),
    ensures
        ev matches RecvEvent::Item(Some(c)) ==> r == PlStep::Data(c),
        ev matches RecvEvent::Item(None) ==> r == PlStep::Release(
            ctype != ConnectionType::KeepAlive,
        ),
        ev matches RecvEvent::Decoder(e) ==> r == PlStep::Failed(e),
        ev matches RecvEvent::PeerGone(Some(e)) ==> r == PlStep::Failed(PayloadError::Io(e)),
        ev matches RecvEvent::PeerGone(None) ==> r is Done,
        ev is KeepAlive || ev is Stop ==> r is Failed,
        ev is WriteBackpressure ==> r is Flush,
{
}

/// A body that is collected is all its pieces in their order, and no more than the
/// limit: `bufs` is what was collected before each piece, and after the last one.
pub proof fn bodies_are_collected(
    bufs: Seq<Seq<u8>>,
    pieces: Seq<Vec<u8>>,
    limit: usize,
    n: int,
)
    requires
        bufs.len() == pieces.len() + 1,
        bufs[0] == Seq::<u8>::empty(),
        0 <= n <= pieces.len(),
        forall|i: int|
            0 <= i < pieces.len() ==> #[trigger] chunk_taken(
                bufs[i],
                bufs[i + 1],
                limit,
                PayloadPoll::Data(pieces[i]),
                BodyPoll::Again,
            ),
    ensures
        bufs[n] == joined(crate::payload::pieces(pieces).take(n)),
        bufs[n].len() <= limit,
    decreases n,
{
    let all = crate::payload::pieces(pieces);
    if n > 0 {
        bodies_are_collected(bufs, pieces, limit, n - 1);
        let i = n - 1;
        assert(chunk_taken(
            bufs[i],
            bufs[i + 1],
            limit,
            PayloadPoll::Data(pieces[i]),
            BodyPoll::Again,
        ));
        assert(all.take(n).drop_last() =~= all.take(n - 1));
        assert(all.take(n).last() == pieces[i]@);
    }
}

/// A piece is refused exactly where it would take the body beyond the limit; the end
/// hands out all that was collected, and a failure is told.
pub proof fn limits_are_kept(
    before: Seq<u8>,
    after: Seq<u8>,
    limit: usize,
    item: PayloadPoll,
    r: BodyPoll,
)
    requires
        chunk_taken(before, after, limit, item, r),
    ensures
        item matches PayloadPoll::Data(c) ==> (r == BodyPoll::Failed(PayloadError::Overflow)
            <==> before.len() + c@.len() > limit) && (r is Again <==> before.len() + c@.len()
            <= limit),
        item is Done ==> (r matches BodyPoll::Done(all) && all@ == before),
        item matches PayloadPoll::Failed(e) ==> r == BodyPoll::Failed(e),
        item is Pending ==> r is Pending && after == before,
{
}

/// The message that a client codec has read so far: a stream where the connection was
/// turned into one, a body where one is read, none otherwise.
pub proof fn messages_are_told_apart(c: ClientCodec)
    ensures
        c.stream <==> c.type_spec() == MessageType::Stream,
        !c.stream && c.payload is None <==> c.type_spec() == MessageType::NoPayload,
        !c.stream && c.payload is Some <==> c.type_spec() == MessageType::Payload,
{
}

/// A body has ended before it began exactly where there is none or it is empty.
pub proof fn sizes_without_bytes(size: BodySize)
    ensures
        size.ends() <==> size == BodySize::NoBody || size == BodySize::Empty || size
            == BodySize::Sized(0),
{
}

/// The pools of a connector are empty and set up as it says.
pub proof fn pools_of_connectors(
    p: crate::client::pool::ConnectionPool,
    c: crate::client::connector::Connector,
    disconnect_timeout: crate::time::Seconds,
    h2config: crate::builder::H2Config,
)
    requires
        is_pool_of(p, c, disconnect_timeout, h2config),
    ensures
        p.inner@.limit == c.limit,
        p.inner@.conn_keep_alive == c.conn_keep_alive,
        p.inner@.conn_lifetime == c.conn_lifetime,
        p.inner@.disconnect_timeout == disconnect_timeout,
        p.inner@.h2config == h2config,
        p.inner@.acquired == 0,
        crate::client::pool::within_limit(p.inner@),
{
}

/// A request of the client goes to its target with its method, and is refused where
/// the target is none.
pub proof fn requests_go_to_their_target(
    r: ClientRequest,
    method: crate::types::Method,
    url: Seq<char>,
    f: Fields,
)
    requires
        is_request_to(r, method, url, f),
    ensures
        crate::types::parsed_uri(encode_utf8(url)) matches Ok(uri) ==> r.err is None && r.head.uri@
            == uri,
        crate::types::parsed_uri(encode_utf8(url)) is Err ==> r.err is Some,
        r.head.method == method,
        r.head.fields() == f,
        r.head.version == crate::types::Version::HTTP_11,
        r.head.flags == crate::message::no_flags(),
{
}

} // verus!
