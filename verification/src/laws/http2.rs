//! HTTP/2 requests and responses.

use ntex_http::HeaderMap;
use vstd::prelude::*;
use vstd::utf8::encode_utf8;

use crate::body::{Body, BodySize, MessageBody};
use crate::client::h2proto::{are_request_fields, is_first_message, is_payload_message};
use crate::error::{H2Error, PayloadError};
use crate::h2::dispatcher::is_sent;
use crate::h2::service::{
    ended, is_answer, is_handled, is_outcome, requested, response_fields, response_size, H2Answer,
    Handled, MessageKind, PseudoHeaders, StreamEof, StreamOp,
};
use crate::headers::{added, is_one_of, key, no_fields, values_of, Fields};
use crate::message::ResponseHead;
use crate::payload::Payload;
use crate::request::Request;
use crate::response::Response;
use crate::text::{ascii, decimal};
use crate::types::{parsed_uri, StatusCode, Version};

verus! {

proof fn names_are_keys()
    ensures
        key("content-length"@) == "content-length"@,
        key("connection"@) == "connection"@,
        key("transfer-encoding"@) == "transfer-encoding"@,
        key("upgrade"@) == "upgrade"@,
        key("keep-alive"@) == "keep-alive"@,
        key("proxy-connection"@) == "proxy-connection"@,
        key("date"@) == "date"@,
        "content-length"@.len() == 14,
        "connection"@.len() == 10 && "connection"@[0] == 'c',
        "transfer-encoding"@.len() == 17,
        "upgrade"@.len() == 7,
        "keep-alive"@.len() == 10 && "keep-alive"@[0] == 'k',
        "proxy-connection"@.len() == 16,
        "date"@.len() == 4,
{
    reveal_strlit("content-length");
    reveal_strlit("connection");
    reveal_strlit("transfer-encoding");
    reveal_strlit("upgrade");
    reveal_strlit("keep-alive");
    reveal_strlit("proxy-connection");
    reveal_strlit("date");
    assert(key("content-length"@) =~= "content-length"@);
    assert(key("connection"@) =~= "connection"@);
    assert(key("transfer-encoding"@) =~= "transfer-encoding"@);
    assert(key("upgrade"@) =~= "upgrade"@);
    assert(key("keep-alive"@) =~= "keep-alive"@);
    assert(key("proxy-connection"@) =~= "proxy-connection"@);
    assert(key("date"@) =~= "date"@);
}

/// The headers of a stream make a request exactly where they name a path and a
/// method, a scheme where they name an authority, and a target that is one. The
/// request has the method, the headers and the target of the stream, and a payload
/// exactly where the stream goes on.
pub proof fn streams_make_requests(
    id: usize,
    pseudo: PseudoHeaders,
    headers: HeaderMap,
    eof: bool,
    r: Result<Request, H2Error>,
)
    requires
        requested(id, pseudo, headers, eof, r),
    ensures
        r matches Ok(req) ==> {
            &&& pseudo.path is Some
            &&& pseudo.method == Some(req.head.method)
            &&& req.head.headers == headers
            &&& req.head.version == Version::HTTP_2
            &&& req.head.id == id
            &&& eof <==> req.payload == Payload::NoPayload
            &&& !eof ==> req.payload == Payload::H2
            &&& pseudo.authority is None ==> parsed_uri(encode_utf8(pseudo.path->0@)) == Ok::<
                crate::types::UriParts,
                Seq<char>,
            >(req.head.uri@)
            &&& pseudo.authority matches Some(a) ==> (pseudo.scheme matches Some(s) && parsed_uri(
                encode_utf8(s@ + "://"@ + a@ + pseudo.path->0@),
            ) == Ok::<crate::types::UriParts, Seq<char>>(req.head.uri@))
        },
        pseudo.path is None || pseudo.method is None || pseudo.authority is Some && pseudo.scheme
            is None ==> r matches Err(H2Error::MissingPseudo(_)),
        pseudo.path is Some && pseudo.method is Some && (pseudo.authority is Some ==> pseudo.scheme
            is Some) ==> !(r matches Err(H2Error::MissingPseudo(_))),
        r matches Err(e) ==> (e is MissingPseudo || e is Uri),
{
}

/// The end of a stream ends its payload with the last data, with none after
/// trailers, and fails it after an error.
pub proof fn ends_of_streams(item: StreamEof, op: StreamOp)
    requires
        ended(item, op),
    ensures
        item matches StreamEof::Data(d) ==> op == StreamOp::Eof(d),
        item is Trailers ==> (op matches StreamOp::Eof(d) && d@ == Seq::<u8>::empty()),
        item matches StreamEof::Error(e) ==> op == StreamOp::Error(PayloadError::Http2Payload(e)),
{
}

/// A response without a body by its status announces none, a switch of protocols a
/// stream, and any other what it has.
pub proof fn sizes_of_responses(status: StatusCode, size: BodySize)
    ensures
        status.0 == 100 || status.0 == 102 || status.0 == 204 ==> response_size(status, size)
            == BodySize::NoBody,
        status.0 == 101 ==> response_size(status, size) == BodySize::Stream,
        status.0 != 100 && status.0 != 101 && status.0 != 102 && status.0 != 204 ==> response_size(
            status,
            size,
        ) == size,
{
}

/// A response keeps all its headers but those that only HTTP/1 has and that on its
/// length, which is the one that is announced; a date of its own is kept.
pub proof fn headers_of_responses(f: Fields, size: BodySize, date: Seq<u8>, name: Seq<char>)
    ensures
        ({
            let sent = response_fields(f, size, date);
            let dropped = name == "connection"@ || name == "transfer-encoding"@ || name
                == "upgrade"@ || name == "keep-alive"@ || name == "proxy-connection"@;
            &&& dropped ==> values_of(sent, name) == Seq::<Seq<u8>>::empty()
            &&& !dropped && name != "content-length"@ && name != "date"@ ==> values_of(sent, name)
                == values_of(f, name)
            &&& f.contains_key("date"@) ==> values_of(sent, "date"@) == values_of(f, "date"@)
            &&& !f.contains_key("date"@) ==> values_of(sent, "date"@) == seq![date]
            &&& size matches BodySize::Sized(n) ==> values_of(sent, "content-length"@) == seq![
                decimal(n as nat),
            ]
            &&& size is NoBody || size is Stream ==> values_of(sent, "content-length"@) == Seq::<
                Seq<u8>,
            >::empty()
        }),
{
    names_are_keys();
}

/// A response is sent with all its headers but those on the connection and the
/// transfer coding, behind the length of its body where that is known; its own
/// length is left out where that is asked for. It has a date.
pub proof fn headers_that_are_sent(
    f: Fields,
    size: BodySize,
    skip_len: bool,
    date: Seq<u8>,
    sent: Fields,
    name: Seq<char>,
)
    requires
        is_sent(f, size, skip_len, date, sent),
    ensures
        ({
            let own: Seq<Seq<u8>> = match size {
                BodySize::Empty => seq![ascii("0"@)],
                BodySize::Sized(n) => seq![decimal(n as nat)],
                _ => Seq::empty(),
            };
            &&& values_of(sent, "connection"@) == Seq::<Seq<u8>>::empty()
            &&& values_of(sent, "transfer-encoding"@) == Seq::<Seq<u8>>::empty()
            &&& skip_len ==> values_of(sent, "content-length"@) == own
            &&& !skip_len ==> values_of(sent, "content-length"@) == own + values_of(
                f,
                "content-length"@,
            )
            &&& name != "connection"@ && name != "transfer-encoding"@ && name != "content-length"@
                && name != "date"@ ==> values_of(sent, name) == values_of(f, name)
            &&& !f.contains_key("date"@) ==> values_of(sent, "date"@) == seq![date]
            &&& f.contains_key("date"@) ==> values_of(sent, "date"@) == values_of(f, "date"@)
        }),
{
    names_are_keys();
    let (names, mid) = choose|names: Seq<&str>, mid: Fields| #[trigger]
        added(crate::h2::dispatcher::own_fields(size), f, names, mid)
            && crate::h2::dispatcher::unsent(names, skip_len) && sent == (if f.contains_key(
            key("date"@),
        ) {
            mid
        } else {
            crate::headers::replaced(mid, key("date"@), date)
        });
    let own = crate::h2::dispatcher::own_fields(size);
    assert(names[0]@ == "connection"@ && names[1]@ == "transfer-encoding"@);
    assert(is_one_of(names, "connection"@));
    assert(is_one_of(names, "transfer-encoding"@));
    if skip_len {
        assert(names[2]@ == "content-length"@);
        assert(is_one_of(names, "content-length"@));
    }
    assert forall|k: Seq<char>|
        k != "connection"@ && k != "transfer-encoding"@ && !(skip_len && k
            == "content-length"@) implies !#[trigger] is_one_of(names, k) by {
        if is_one_of(names, k) {
            let i = choose|i: int| 0 <= i < names.len() && (#[trigger] names[i])@ == k;
            assert(i == 0 || i == 1 || i == 2);
        }
    }
    assert(values_of(mid, "connection"@) =~= Seq::empty());
    assert(values_of(mid, "transfer-encoding"@) =~= Seq::empty());
    assert(values_of(mid, "date"@) =~= values_of(f, "date"@));
    assert(values_of(mid, name) == values_of(own, name) + (if is_one_of(names, name) {
        Seq::empty()
    } else {
        values_of(f, name)
    }));
    assert(!is_one_of(names, name) && name != "content-length"@ ==> values_of(mid, name)
        =~= values_of(f, name));
    assert(values_of(mid, "content-length"@) == values_of(own, "content-length"@) + (if is_one_of(
        names,
        "content-length"@,
    ) {
        Seq::empty()
    } else {
        values_of(f, "content-length"@)
    }));
    if skip_len {
        assert(values_of(mid, "content-length"@) =~= values_of(own, "content-length"@));
    }
}

/// A request of the client is sent with its own headers and those that are added to
/// it; of those on the connection and the transfer coding the added ones take the
/// place of its own. The length is that of the body where it is known.
pub proof fn headers_of_requests(
    own: Fields,
    extra: Fields,
    size: BodySize,
    sent: Fields,
    name: Seq<char>,
)
    requires
        are_request_fields(own, extra, size, sent),
    ensures
        name != "content-length"@ && name != "connection"@ && name != "transfer-encoding"@
            ==> values_of(sent, name) == values_of(own, name) + values_of(extra, name),
        extra.contains_key("connection"@) ==> values_of(sent, "connection"@) == values_of(
            extra,
            "connection"@,
        ),
        !extra.contains_key("connection"@) ==> values_of(sent, "connection"@) == values_of(
            own,
            "connection"@,
        ),
        size matches BodySize::Sized(n) ==> values_of(sent, "content-length"@) == seq![
            decimal(n as nat),
        ],
        size is Empty ==> values_of(sent, "content-length"@) == seq![ascii("0"@)],
{
    names_are_keys();
    let (names, mid, all) = choose|names: Seq<&str>, mid: Fields, all: Fields|
        #![trigger added(no_fields(), own, names, mid), added(mid, extra, Seq::<&str>::empty(), all)]
        crate::client::h2proto::gives_way(names, extra) && added(no_fields(), own, names, mid)
            && added(mid, extra, Seq::<&str>::empty(), all) && sent
            == crate::client::h2proto::with_body_length(all, size);
    let c = extra.contains_key("connection"@);
    let t = extra.contains_key("transfer-encoding"@);
    assert forall|k: Seq<char>| !#[trigger] is_one_of(Seq::<&str>::empty(), k) by {}
    assert forall|k: Seq<char>| k != "connection"@ && k != "transfer-encoding"@ implies !#[trigger]
    is_one_of(names, k) by {
        if is_one_of(names, k) {
            let i = choose|i: int| 0 <= i < names.len() && (#[trigger] names[i])@ == k;
            assert(i == 0 || i == 1);
        }
    }
    if c {
        assert(names[0]@ == "connection"@);
        assert(is_one_of(names, "connection"@));
    } else {
        if is_one_of(names, "connection"@) {
            let i = choose|i: int| 0 <= i < names.len() && (#[trigger] names[i])@ == "connection"@;
            assert(i == 0);
        }
    }
    assert(values_of(mid, name) == values_of(no_fields(), name) + (if is_one_of(names, name) {
        Seq::empty()
    } else {
        values_of(own, name)
    }));
    assert(!is_one_of(names, name) ==> values_of(mid, name) =~= values_of(own, name));
    assert(values_of(all, name) == values_of(mid, name) + values_of(extra, name));
    let k = "connection"@;
    assert(values_of(mid, k) == values_of(no_fields(), k) + (if is_one_of(names, k) {
        Seq::empty()
    } else {
        values_of(own, k)
    }));
    assert(values_of(all, k) == values_of(mid, k) + values_of(extra, k));
    if c {
        assert(values_of(all, k) =~= values_of(extra, k));
    } else {
        assert(values_of(all, k) =~= values_of(own, k));
    }
}

/// The first message of a response is its head: it has a status, and a body exactly
/// where the stream goes on. Anything else is an error.
pub proof fn first_messages(
    msg: Option<MessageKind>,
    r: Result<(ResponseHead, bool), crate::client::error::SendRequestError>,
)
    requires
        is_first_message(msg, r),
    ensures
        r is Ok <==> (msg matches Some(MessageKind::Headers { pseudo, .. }) && pseudo.status
            is Some),
        r matches Ok((head, body)) ==> (msg matches Some(
            MessageKind::Headers { pseudo, headers, eof },
        ) && pseudo.status == Some(head.status) && head.headers == headers && body == !eof
            && head.version == Version::HTTP_2),
{
}

/// Data of a response is handed on as it is; its end ends the payload, errors fail
/// it, and only an end of all messages and a second head are the last looked at.
pub proof fn further_messages(msg: Option<MessageKind>, op: StreamOp, last: bool)
    requires
        is_payload_message(msg, op, last),
    ensures
        msg matches Some(MessageKind::Data(d, cap)) ==> op == StreamOp::Data(d, cap) && !last,
        msg matches Some(MessageKind::Eof(StreamEof::Data(d))) ==> op == StreamOp::Eof(d),
        msg matches Some(MessageKind::Eof(StreamEof::Trailers)) ==> op is Eof,
        msg matches Some(MessageKind::Eof(StreamEof::Error(e))) ==> op == StreamOp::Error(
            PayloadError::Http2Payload(e),
        ),
        msg matches Some(MessageKind::Disconnect(_)) ==> op is Error,
        msg is None ==> last && op is Eof,
        msg matches Some(MessageKind::Headers { .. }) ==> last && op is Error,
        msg matches Some(m) ==> (last <==> m is Headers),
{
}

/// Data of a stream reaches the payload of its request until the stream ends, in the
/// order in which it comes, and that of no other stream. Headers make a request, or
/// are refused.
pub proof fn messages_of_streams(
    id: usize,
    open: Set<u32>,
    stream: u32,
    kind: MessageKind,
    after: Set<u32>,
    r: Handled,
)
    requires
        is_handled(id, open, stream, kind, after, r),
    ensures
        kind matches MessageKind::Data(d, cap) ==> after == open && (open.contains(stream) ==> r
            == Handled::Feed(StreamOp::Data(d, cap))) && (!open.contains(stream) ==> r is Ignored),
        kind is Eof || kind is Disconnect ==> !after.contains(stream) && (r is Feed
            <==> open.contains(stream)),
        kind matches MessageKind::Eof(StreamEof::Data(d)) ==> (open.contains(stream) ==> r
            == Handled::Feed(StreamOp::Eof(d))),
        kind is Disconnect && open.contains(stream) ==> (r matches Handled::Feed(
            StreamOp::Error(_),
        )),
        kind matches MessageKind::Headers { pseudo, headers, eof } ==> {
            &&& r is Request || r is Failed
            &&& eof ==> after == open
            &&& !eof ==> after.contains(stream)
            &&& r matches Handled::Request(req, only) ==> only == (req.head.method
                == crate::types::Method::HEAD) && req.head.headers == headers && pseudo.method
                == Some(req.head.method)
        },
        forall|other: u32|
            other != stream ==> (#[trigger] after.contains(other) <==> open.contains(other)),
{
}

/// A response is sent with its status, its headers as HTTP/2 has them and its body; a
/// body follows the head unless there is none, it is empty, or a head was all that
/// was asked for. A service that failed is answered as its error says.
pub proof fn answers_are_sent<E: crate::response::ResponseError>(
    result: Result<Response<Body>, E>,
    res: Response<Body>,
    head_only: bool,
    date: Seq<u8>,
    r: H2Answer,
)
    requires
        is_outcome(result, res),
        is_answer(res, head_only, date, r),
    ensures
        result matches Ok(val) ==> res == val,
        result matches Err(e) ==> e.answered_with(res),
        r.status == res.head.status,
        r.body == res.body,
        head_only ==> r.eof,
        !head_only && res.head.status.0 != 100 && res.head.status.0 != 101 && res.head.status.0
            != 102 && res.head.status.0 != 204 ==> (r.eof <==> (res.body.size_spec()
            == BodySize::NoBody || res.body.size_spec() == BodySize::Empty || res.body.size_spec()
            == BodySize::Sized(0))),
        res.head.status.0 == 204 ==> r.eof,
        values_of(crate::headers::fields(r.headers), "connection"@) == Seq::<Seq<u8>>::empty(),
{
    headers_of_responses(
        res.head.fields(),
        response_size(res.head.status, res.body.size_spec()),
        date,
        "connection"@,
    );
}

} // verus!
