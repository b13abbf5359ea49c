//! The codec of a server connection.

use vstd::prelude::*;

use crate::body::BodySize;
use crate::config::{DateService, HttpServiceConfig, DATE_LIMIT};
use crate::error::{DecodeError, EncodeError};
use crate::h1::decoder::{decoded, ready, MessageDecoder, PayloadType};
use crate::h1::encoder::{
    body_coding, encoded, encoder_after, eof_encoded, is_head_of, may_end, MessageEncoder,
    TransferEncodingKind,
};
use crate::h1::Message;
use crate::message::{marked_type, type_of, ConnectionType, RequestHead, ResponseHead};
use crate::request::Request;
use crate::types::Version;

verus! {

/// Stateful HTTP/1 request decoder and response encoder.
///
/// The codec tracks the version, connection behavior, request method, and
/// streaming state of the most recently decoded request. It only transforms
/// buffers.
#[derive(Debug)]
pub struct Codec {
    /// Connection id, handed on in request heads.
    pub con_id: usize,
    /// Request decoder.
    pub decoder: MessageDecoder<Request>,
    /// Version of the last request.
    pub version: Version,
    /// What becomes of the connection.
    pub ctype: ConnectionType,
    /// The last request asked for a head only.
    pub head: bool,
    /// A request turned the connection into a stream.
    pub stream: bool,
    /// Persistent connections are enabled.
    pub ka_enabled: bool,
    /// The last request asked for an upgrade.
    pub upgraded: bool,
    /// Response encoder.
    pub encoder: MessageEncoder,
}

/// What becomes of the connection after a request: keeping it alive takes that
/// persistent connections are enabled.
pub open spec fn connection_after(t: ConnectionType, ka_enabled: bool) -> ConnectionType {
    if t == ConnectionType::KeepAlive && !ka_enabled {
        ConnectionType::Close
    } else {
        t
    }
}

/// The codec after a request.
pub open spec fn after_request(c: Codec, req: Request, payload: PayloadType) -> Codec {
    let t = type_of(req.head.flags, req.head.version);
    Codec {
        head: req.head.method is HEAD,
        version: req.head.version,
        upgraded: t == ConnectionType::Upgrade,
        ctype: connection_after(t, c.ka_enabled),
        stream: c.stream || payload is Stream,
        ..c
    }
}

/// The request with the id of its connection.
pub open spec fn with_id(req: Request, id: usize) -> Request {
    Request { head: RequestHead { id, ..req.head }, ..req }
}

/// What decoding gives, from what the request decoder gave.
pub open spec fn codec_decoded(
    c: Codec,
    d: MessageDecoder<Request>,
    inner: Result<Option<(Request, PayloadType)>, DecodeError>,
    after: Codec,
    r: Result<Option<(Request, PayloadType)>, DecodeError>,
) -> bool {
    let same = Codec { decoder: d, ..c };
    match inner {
        Ok(Some((req, payload))) => r == Ok::<Option<(Request, PayloadType)>, DecodeError>(
            Some((with_id(req, c.con_id), payload)),
        ) && after == after_request(same, req, payload),
        _ => r == inner && after == same,
    }
}

/// What becomes of the connection with a response: one that closes or upgrades
/// it prevails.
pub open spec fn connection_with(t: ConnectionType, head: ResponseHead) -> ConnectionType {
    match marked_type(head.flags) {
        Some(ct) => if ct != ConnectionType::KeepAlive {
            ct
        } else {
            t
        },
        None => t,
    }
}

impl Codec {
    /// Creates an HTTP/1 codec.
    ///
    /// `con_id` identifies the connection in decoded request heads. Protocol
    /// limits and keep-alive behavior are read from `cfg`.
    pub fn new(con_id: usize, cfg: HttpServiceConfig) -> (r: Codec)
        ensures
            r.con_id == con_id,
            ready(r.decoder),
            r.decoder.cfg == cfg,
            r.version == Version::HTTP_11,
            r.ka_enabled == cfg.ka_enabled,
            r.ctype == connection_after(ConnectionType::KeepAlive, cfg.ka_enabled),
            !r.head,
            !r.stream,
            !r.upgraded,
            r.encoder.te.kind == TransferEncodingKind::Length(0),
    {
        let ctype = if cfg.ka_enabled {
            ConnectionType::KeepAlive
        } else {
            ConnectionType::Close
        };
        Codec {
            con_id,
            decoder: MessageDecoder::new(cfg),
            version: Version::HTTP_11,
            ctype,
            head: false,
            stream: false,
            ka_enabled: cfg.ka_enabled,
            upgraded: false,
            encoder: MessageEncoder::new(),
        }
    }

    /// The codec in a log.
    pub fn label(&self) -> (r: &'static str)
        ensures
            r@ == "h1::Codec"@,
    {
        "h1::Codec"
    }

    /// A copy of the codec for whoever takes over the connection. Its decoder
    /// starts anew.
    pub fn duplicate(&self) -> (r: Codec)
        ensures
            r == (Codec { decoder: r.decoder, ..*self }),
            ready(r.decoder),
            r.decoder.cfg == self.decoder.cfg,
    {
        Codec {
            con_id: self.con_id,
            decoder: self.decoder.restart(),
            version: self.version,
            ctype: self.ctype,
            head: self.head,
            stream: self.stream,
            ka_enabled: self.ka_enabled,
            upgraded: self.upgraded,
            encoder: self.encoder,
        }
    }

    /// Whether a request head is being read.
    pub fn is_reading_hdrs(&self) -> (r: bool)
        ensures
            r == self.decoder.hdrs,
    {
        self.decoder.is_reading_hdrs()
    }

    /// Returns whether the most recently decoded request upgrades the
    /// connection.
    pub fn upgrade(&self) -> (r: bool)
        ensures
            r == self.upgraded,
    {
        self.upgraded
    }

    /// Returns whether the current HTTP connection state is persistent.
    pub fn keepalive(&self) -> (r: bool)
        ensures
            r == (self.ctype == ConnectionType::KeepAlive),
    {
        self.ctype == ConnectionType::KeepAlive
    }

    /// The connection is not turned into a stream, and is closed.
    pub fn reset_upgrade(&mut self)
        ensures
            *final(self) == (Codec { stream: false, ctype: ConnectionType::Close, ..*old(self) }),
    {
        self.stream = false;
        self.ctype = ConnectionType::Close;
    }

    /// Takes a decoded request into account. Returns it with the id of the
    /// connection.
    pub fn accept_request(&mut self, req: Request, payload: &PayloadType) -> (r: Request)
        ensures
            r == with_id(req, old(self).con_id),
            *final(self) == after_request(*old(self), req, *payload),
    {
        let mut req = req;
        req.head.id = self.con_id;
        self.head = req.head.method.is_head();
        self.version = req.head.version;
        let ctype = req.head.connection_type();
        self.upgraded = ctype == ConnectionType::Upgrade;
        if ctype == ConnectionType::KeepAlive && !self.ka_enabled {
            self.ctype = ConnectionType::Close;
        } else {
            self.ctype = ctype;
        }
        if let PayloadType::Stream(_) = payload {
            self.stream = true;
        }
        req
    }

    /// Decodes the next request head.
    ///
    /// `Ok(None)` means that more bytes are required. A [`DecodeError`]
    /// indicates invalid framing or a configured request-head limit; the codec
    /// is not used for decoding afterwards.
    pub fn decode(&mut self, src: &mut Vec<u8>) -> (r: Result<
        Option<(Request, PayloadType)>,
        DecodeError,
    >)
        requires
            !old(self).decoder.failed,
            old(self).decoder.consumed + old(src)@.len() <= usize::MAX,
        ensures
            final(self).decoder.cfg == old(self).decoder.cfg,
            exists|inner: Result<Option<(Request, PayloadType)>, DecodeError>| #[trigger]
                decoded(
                    old(self).decoder,
                    old(src)@,
                    final(self).decoder,
                    final(src)@,
                    inner,
                ) && codec_decoded(*old(self), final(self).decoder, inner, *final(self), r),
    {
        let inner = self.decoder.decode(src);
        let ghost d = self.decoder;
        assert(decoded(old(self).decoder, old(src)@, d, src@, inner));
        match inner {
            Err(e) => Err(e),
            Ok(None) => Ok(None),
            Ok(Some((req, payload))) => {
                let req = self.accept_request(req, &payload);
                assert(codec_decoded(
                    *old(self),
                    d,
                    inner,
                    *self,
                    Ok(Some((req, payload))),
                ));
                Ok(Some((req, payload)))
            },
        }
    }

    /// Encodes a response head, a piece of a response body, or its end.
    pub fn encodev(
        &mut self,
        item: Message<(ResponseHead, BodySize)>,
        dst: &mut Vec<u8>,
        date: &mut DateService,
        now: u64,
    ) -> (r: Result<(), EncodeError>)
        requires
            item matches Message::Item((res, _)) ==> res.status.0 <= 9999,
            old(date).wf(),
            now < DATE_LIMIT,
        ensures
            final(date).wf(),
            match item {
                Message::Item((res, length)) => {
                    let head = ResponseHead { version: old(self).version, ..res };
                    let ctype = connection_with(old(self).ctype, res);
                    let n = old(dst)@.len() as int;
                    &&& r is Ok
                    &&& final(self).encoder.te.kind == body_coding(
                        old(self).head,
                        old(self).stream,
                        length,
                        !res.flags.no_chunking,
                    )
                    &&& *final(self) == (Codec {
                        ctype,
                        encoder: final(self).encoder,
                        ..*old(self)
                    })
                    &&& res.flags.close ==> final(self).ctype == ConnectionType::Close
                    &&& res.flags.upgrade && !res.flags.close && !res.flags.keep_alive
                        ==> final(self).ctype == ConnectionType::Upgrade
                    &&& final(dst)@.len() >= n
                    &&& final(dst)@.subrange(0, n) == old(dst)@
                    &&& is_head_of(
                        final(dst)@.subrange(n, final(dst)@.len() as int),
                        head,
                        old(self).version,
                        length,
                        ctype,
                        None,
                        old(date).date_at(now),
                    )
                },
                Message::Chunk(Some(bytes)) => {
                    let kind = old(self).encoder.te.kind;
                    &&& r is Ok
                    &&& final(self).encoder.te.kind == encoder_after(kind, bytes@)
                    &&& *final(self) == (Codec { encoder: final(self).encoder, ..*old(self) })
                    &&& final(dst)@ == old(dst)@ + encoded(kind, bytes@)
                },
                Message::Chunk(None) => {
                    let kind = old(self).encoder.te.kind;
                    &&& r is Ok <==> may_end(kind)
                    &&& r is Err ==> r == Err::<(), EncodeError>(EncodeError::UnexpectedEof)
                    &&& final(self).encoder.te.kind == match kind {
                        TransferEncodingKind::Chunked(_) => TransferEncodingKind::Chunked(true),
                        k => k,
                    }
                    &&& *final(self) == (Codec { encoder: final(self).encoder, ..*old(self) })
                    &&& final(dst)@ == old(dst)@ + eof_encoded(kind)
                },
            },
    {
        match item {
            Message::Item((res, length)) => {
                let mut res = res;
                // response version
                res.version = self.version;
                // connection status
                if let Some(ct) = res.ctype() {
                    if ct != ConnectionType::KeepAlive {
                        self.ctype = ct;
                    }
                }
                self.encoder.encode(
                    dst,
                    &res,
                    self.head,
                    self.stream,
                    self.version,
                    length,
                    self.ctype,
                    None,
                    date,
                    now,
                )
            },
            Message::Chunk(Some(bytes)) => match self.encoder.encode_chunk(bytes, dst) {
                Ok(_) => Ok(()),
                Err(e) => Err(e),
            },
            Message::Chunk(None) => self.encoder.encode_eof(dst),
        }
    }
}

} // verus!
