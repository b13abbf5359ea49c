//! What becomes of a connection.

use vstd::prelude::*;

use crate::error::DecodeError;
use crate::h1::client::{after_response, client_decoded, ClientCodec};
use crate::h1::codec::{
    after_request, codec_decoded, connection_after, connection_with, with_id, Codec,
};
use crate::h1::decoder::{MessageDecoder, PayloadType};
use crate::message::{
    flags_with, marked_type, no_flags, type_of, ConnectionType, Flags, ResponseHead,
};
use crate::request::Request;
use crate::types::{Method, Version};

verus! {

/// A response that is marked to close the connection closes it, one that is marked
/// to upgrade it and nothing else upgrades it, and any other leaves it as the
/// request wanted it, whatever that was.
pub proof fn response_mark_prevails(t: ConnectionType, head: ResponseHead)
    ensures
        head.flags.close ==> connection_with(t, head) == ConnectionType::Close,
        head.flags.upgrade && !head.flags.close && !head.flags.keep_alive ==> connection_with(
            t,
            head,
        ) == ConnectionType::Upgrade,
        !head.flags.close && head.flags.keep_alive ==> connection_with(t, head) == t,
        !head.flags.close && !head.flags.keep_alive && !head.flags.upgrade ==> connection_with(
            t,
            head,
        ) == t,
{
}

/// A response says nothing that a second response would have to say again: what
/// it marks stays, and nothing keeps a connection alive that the request closes.
pub proof fn response_cannot_revive(t: ConnectionType, head: ResponseHead)
    ensures
        connection_with(connection_with(t, head), head) == connection_with(t, head),
        t != ConnectionType::KeepAlive ==> connection_with(t, head) != ConnectionType::KeepAlive,
{
}

/// A message that carries one mark and no other is of the type of the mark,
/// whatever its version is.
pub proof fn one_mark_names_its_type(t: ConnectionType, v: Version)
    ensures
        type_of(flags_with(no_flags(), t), v) == t,
        marked_type(flags_with(no_flags(), t)) == Some(t),
        marked_type(no_flags()) is None,
{
}

/// Of the marks of a message, closing wins over keeping alive and keeping alive
/// over upgrading; without a mark HTTP/1.0 and HTTP/0.9 close, later versions keep
/// alive. What is expected and how a body is cut plays no part.
pub proof fn marks_are_ordered(f: Flags, v: Version)
    ensures
        f.close ==> type_of(f, v) == ConnectionType::Close,
        !f.close && f.keep_alive ==> type_of(f, v) == ConnectionType::KeepAlive,
        !f.close && !f.keep_alive && f.upgrade ==> type_of(f, v) == ConnectionType::Upgrade,
        !f.close && !f.keep_alive && !f.upgrade && (v == Version::HTTP_10 || v
            == Version::HTTP_09) ==> type_of(f, v) == ConnectionType::Close,
        !f.close && !f.keep_alive && !f.upgrade && (v == Version::HTTP_11 || v == Version::HTTP_2
            || v == Version::HTTP_3) ==> type_of(f, v) == ConnectionType::KeepAlive,
        marked_type(f) is Some <==> f.close || f.keep_alive || f.upgrade,
        forall|e: bool, n: bool| #[trigger]
            type_of(Flags { expect: e, no_chunking: n, ..f }, v) == type_of(f, v),
{
}

/// Marking a head adds a mark and takes none away.
pub proof fn marks_add_up(f: Flags, t: ConnectionType)
    ensures
        flags_with(f, t).close == (f.close || t == ConnectionType::Close),
        flags_with(f, t).keep_alive == (f.keep_alive || t == ConnectionType::KeepAlive),
        flags_with(f, t).upgrade == (f.upgrade || t == ConnectionType::Upgrade),
        flags_with(f, t).expect == f.expect,
        flags_with(f, t).no_chunking == f.no_chunking,
{
}

/// A connection is kept alive after a request only where the request and the
/// configuration allow it; it is upgraded where the request asks for that, and
/// closed otherwise.
pub proof fn request_decides_connection(c: Codec, req: Request, payload: PayloadType)
    ensures
        ({
            let f = req.head.flags;
            let v = req.head.version;
            let old = v == Version::HTTP_10 || v == Version::HTTP_09;
            let keeps = !f.close && (f.keep_alive || !f.upgrade && !old);
            let upgrades = !f.close && !f.keep_alive && f.upgrade;
            let after = after_request(c, req, payload);
            &&& after.ctype == ConnectionType::KeepAlive <==> keeps && c.ka_enabled
            &&& after.ctype == ConnectionType::Upgrade <==> upgrades
            &&& after.upgraded <==> upgrades
            &&& after.head <==> req.head.method == Method::HEAD
            &&& after.version == v
            &&& after.stream <==> c.stream || payload is Stream
            &&& after.ka_enabled == c.ka_enabled
            &&& after.con_id == c.con_id
            &&& after.decoder == c.decoder
            &&& after.encoder == c.encoder
        }),
{
}

/// What a request is is told with the id of its connection and left alone
/// otherwise.
pub proof fn request_keeps_its_contents(req: Request, id: usize)
    ensures
        with_id(req, id).head.id == id,
        with_id(req, id).head.same_but_id(req.head),
        with_id(req, id).payload == req.payload,
{
}

/// Keeping alive takes that it is enabled; nothing else does.
pub proof fn keep_alive_has_to_be_enabled(t: ConnectionType, enabled: bool)
    ensures
        connection_after(t, enabled) == ConnectionType::KeepAlive <==> t
            == ConnectionType::KeepAlive && enabled,
        t != ConnectionType::KeepAlive ==> connection_after(t, enabled) == t,
        connection_after(t, enabled) != t ==> connection_after(t, enabled)
            == ConnectionType::Close,
{
}

/// A client reads the body of a response as the response frames it, unless it asked
/// for a head only: then there is none. What becomes of the connection is as with
/// a response of a server.
pub proof fn client_reads_the_body(c: ClientCodec, res: ResponseHead, pl: PayloadType)
    ensures
        ({
            let after = after_response(c, res, pl);
            &&& c.head ==> after.payload is None && after.stream == c.stream
            &&& !c.head ==> match pl {
                PayloadType::NoPayload => after.payload is None && after.stream == c.stream,
                PayloadType::Payload(d) => after.payload == Some(d) && after.stream == c.stream,
                PayloadType::Stream(d) => after.payload == Some(d) && after.stream,
            }
            &&& res.flags.close ==> after.ctype == ConnectionType::Close
            &&& res.flags.upgrade && !res.flags.close && !res.flags.keep_alive ==> after.ctype
                == ConnectionType::Upgrade
            &&& !res.flags.close && (res.flags.keep_alive || !res.flags.upgrade) ==> after.ctype
                == c.ctype
            &&& after.head == c.head
            &&& after.version == c.version
            &&& after.encoder == c.encoder
            &&& after.decoder == c.decoder
        }),
{
}

/// A codec hands on the request that was decoded, with the id of the connection, and
/// takes it into account; an incomplete head and an error are handed on as they are,
/// and change nothing but the decoder.
pub proof fn decoded_requests_are_handed_on(
    c: Codec,
    d: MessageDecoder<Request>,
    inner: Result<Option<(Request, PayloadType)>, DecodeError>,
    after: Codec,
    r: Result<Option<(Request, PayloadType)>, DecodeError>,
)
    requires
        codec_decoded(c, d, inner, after, r),
    ensures
        inner matches Ok(Some((req, pl))) ==> (r matches Ok(Some((req2, pl2))) && pl2 == pl
            && req2.head.id == c.con_id && req2.head.same_but_id(req.head)) && after.version
            == req.head.version && (after.head <==> req.head.method == Method::HEAD),
        inner matches Ok(None) ==> (r matches Ok(None)) && after.ctype == c.ctype && after.version
            == c.version && after.stream == c.stream,
        inner matches Err(e) ==> r == Err::<Option<(Request, PayloadType)>, DecodeError>(e),
        after.decoder == d,
        after.encoder == c.encoder,
{
}

/// A client codec hands on the response that was decoded, and an error as it is.
pub proof fn decoded_responses_are_handed_on(
    c: ClientCodec,
    d: MessageDecoder<ResponseHead>,
    inner: Result<Option<(ResponseHead, PayloadType)>, DecodeError>,
    after: ClientCodec,
    r: Result<Option<ResponseHead>, DecodeError>,
)
    requires
        client_decoded(c, d, inner, after, r),
    ensures
        inner matches Ok(Some((res, pl))) ==> r == Ok::<Option<ResponseHead>, DecodeError>(
            Some(res),
        ) && (!c.head && pl is NoPayload ==> after.payload is None) && (!c.head ==> (
        pl matches PayloadType::Payload(p) ==> after.payload == Some(p))) && (c.head
            ==> after.payload is None),
        inner matches Ok(None) ==> (r matches Ok(None)) && after.payload == c.payload && after.ctype
            == c.ctype,
        inner matches Err(e) ==> r == Err::<Option<ResponseHead>, DecodeError>(e),
        after.decoder == d,
{
}

} // verus!
