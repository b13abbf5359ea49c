//! The codecs of a client connection.

use vstd::prelude::*;

use crate::body::BodySize;
use crate::config::{default_config, DateService, HttpServiceConfig, DATE_LIMIT};
use crate::error::{DecodeError, EncodeError, PayloadError};
use crate::h1::codec::{connection_after, connection_with};
use crate::h1::decoder::{
    body_step, decoded, ready, ItemView, MessageDecoder, PayloadDecoder, PayloadItem, PayloadType,
};
use crate::h1::encoder::{
    body_coding, encoded, encoder_after, eof_encoded, is_head_of, may_end, MessageEncoder,
    TransferEncodingKind,
};
use crate::h1::{Message, MessageType};
use crate::message::{type_of, ConnectionType, RequestHeadType, ResponseHead};
use crate::types::Version;

verus! {

/// HTTP/1 Codec
#[derive(Debug)]
pub struct ClientCodec {
    /// Response decoder.
    pub decoder: MessageDecoder<ResponseHead>,
    /// Decoder of the response body that is being read.
    pub payload: Option<PayloadDecoder>,
    /// Version of the last request.
    pub version: Version,
    /// What becomes of the connection.
    pub ctype: ConnectionType,
    /// The last request asked for a head only.
    pub head: bool,
    /// Persistent connections are enabled.
    pub ka_enabled: bool,
    /// A response turned the connection into a stream.
    pub stream: bool,
    /// Request encoder.
    pub encoder: MessageEncoder,
}

/// HTTP/1 Payload Codec
#[derive(Debug)]
pub struct ClientPayloadCodec {
    /// The codec of the messages.
    pub inner: ClientCodec,
}

/// The decoder of the body of a response.
pub open spec fn body_decoder(payload: PayloadType) -> Option<PayloadDecoder> {
    match payload {
        PayloadType::NoPayload => None,
        PayloadType::Payload(pl) => Some(pl),
        PayloadType::Stream(pl) => Some(pl),
    }
}

/// The codec after a response.
pub open spec fn after_response(c: ClientCodec, res: ResponseHead, pl: PayloadType) -> ClientCodec {
    ClientCodec {
        ctype: connection_with(c.ctype, res),
        payload: if c.head {
            None
        } else {
            body_decoder(pl)
        },
        stream: c.stream || (!c.head && pl is Stream),
        ..c
    }
}

/// What decoding gives, from what the response decoder gave.
pub open spec fn client_decoded(
    c: ClientCodec,
    d: MessageDecoder<ResponseHead>,
    inner: Result<Option<(ResponseHead, PayloadType)>, DecodeError>,
    after: ClientCodec,
    r: Result<Option<ResponseHead>, DecodeError>,
) -> bool {
    let same = ClientCodec { decoder: d, ..c };
    match inner {
        Ok(Some((res, payload))) => r == Ok::<Option<ResponseHead>, DecodeError>(Some(res))
            && after == after_response(same, res, payload),
        Ok(None) => r == Ok::<Option<ResponseHead>, DecodeError>(None) && after == same,
        Err(e) => r == Err::<Option<ResponseHead>, DecodeError>(e) && after == same,
    }
}

impl Default for ClientCodec {
    fn default() -> (r: ClientCodec)
        ensures
            ready(r.decoder),
            r.decoder.cfg == default_config(),
            r.payload is None,
            r.version == Version::HTTP_11,
            r.ctype == ConnectionType::Close,
            !r.head,
            r.ka_enabled,
            !r.stream,
            r.encoder.te.kind == TransferEncodingKind::Length(0),
    {
        ClientCodec::new(true)
    }
}

impl ClientCodec {
    /// Create HTTP/1 codec.
    ///
    /// `keep_alive` tells whether connections are kept alive.
    pub fn new(keep_alive: bool) -> (r: ClientCodec)
        ensures
            ready(r.decoder),
            r.decoder.cfg == default_config(),
            r.payload is None,
            r.version == Version::HTTP_11,
            r.ctype == ConnectionType::Close,
            !r.head,
            r.ka_enabled == keep_alive,
            !r.stream,
            r.encoder.te.kind == TransferEncodingKind::Length(0),
    {
        ClientCodec {
            decoder: MessageDecoder::new(HttpServiceConfig::new()),
            payload: None,
            version: Version::HTTP_11,
            ctype: ConnectionType::Close,
            head: false,
            ka_enabled: keep_alive,
            stream: false,
            encoder: MessageEncoder::new(),
        }
    }

    /// Check if request is upgrade
    pub fn upgrade(&self) -> (r: bool)
        ensures
            r == (self.ctype == ConnectionType::Upgrade),
    {
        self.ctype == ConnectionType::Upgrade
    }

    /// Check if last response is keep-alive
    pub fn keepalive(&self) -> (r: bool)
        ensures
            r == (self.ctype == ConnectionType::KeepAlive),
    {
        self.ctype == ConnectionType::KeepAlive
    }

    /// The type of the last message.
    pub open spec fn type_spec(self) -> MessageType {
        if self.stream {
            MessageType::Stream
        } else if self.payload is None {
            MessageType::NoPayload
        } else {
            MessageType::Payload
        }
    }

    /// Check last request's message type
    pub fn message_type(&self) -> (r: MessageType)
        ensures
            r == self.type_spec(),
    {
        if self.stream {
            MessageType::Stream
        } else if self.payload.is_none() {
            MessageType::NoPayload
        } else {
            MessageType::Payload
        }
    }

    /// Convert message codec to a payload codec
    pub fn into_payload_codec(self) -> (r: ClientPayloadCodec)
        ensures
            r.inner == self,
    {
        ClientPayloadCodec { inner: self }
    }

    /// Takes a decoded response into account.
    pub fn accept_response(&mut self, res: &ResponseHead, payload: PayloadType)
        ensures
            *final(self) == after_response(*old(self), *res, payload),
    {
        if let Some(ctype) = res.ctype() {
            // do not use peer's keep-alive
            if ctype != ConnectionType::KeepAlive {
                self.ctype = ctype;
            }
        }
        if !self.head {
            match payload {
                PayloadType::NoPayload => {
                    self.payload = None;
                },
                PayloadType::Payload(pl) => {
                    self.payload = Some(pl);
                },
                PayloadType::Stream(pl) => {
                    self.payload = Some(pl);
                    self.stream = true;
                },
            }
        } else {
            self.payload = None;
        }
    }

    /// Decodes the next response head. The body of the response before it was
    /// read to its end.
    pub fn decode(&mut self, src: &mut Vec<u8>) -> (r: Result<Option<ResponseHead>, DecodeError>)
        requires
            old(self).payload is None,
            !old(self).decoder.failed,
            old(self).decoder.consumed + old(src)@.len() <= usize::MAX,
        ensures
            final(self).decoder.cfg == old(self).decoder.cfg,
            exists|inner: Result<Option<(ResponseHead, PayloadType)>, DecodeError>| #[trigger]
                decoded(
                    old(self).decoder,
                    old(src)@,
                    final(self).decoder,
                    final(src)@,
                    inner,
                ) && client_decoded(*old(self), final(self).decoder, inner, *final(self), r),
    {
        let inner = self.decoder.decode(src);
        let ghost d = self.decoder;
        assert(decoded(old(self).decoder, old(src)@, d, src@, inner));
        match inner {
            Err(e) => Err(e),
            Ok(None) => Ok(None),
            Ok(Some((res, payload))) => {
                self.accept_response(&res, payload);
                assert(client_decoded(*old(self), d, inner, *self, Ok(Some(res))));
                Ok(Some(res))
            },
        }
    }

    /// Encodes a request head, a piece of a request body, or its end.
    pub fn encode(
        &mut self,
        item: Message<(RequestHeadType, BodySize)>,
        dst: &mut Vec<u8>,
        date: &mut DateService,
        now: u64,
    ) -> (r: Result<(), EncodeError>)
        requires
            old(date).wf(),
            now < DATE_LIMIT,
        ensures
            final(date).wf(),
            match item {
                Message::Item((head, length)) => {
                    let h = head.head();
                    let ctype = connection_after(type_of(h.flags, h.version), old(self).ka_enabled);
                    let n = old(dst)@.len() as int;
                    &&& r is Ok
                    &&& final(self).encoder.te.kind == body_coding(
                        false,
                        false,
                        length,
                        !h.flags.no_chunking,
                    )
                    &&& *final(self) == (ClientCodec {
                        version: h.version,
                        head: h.method is HEAD,
                        ctype,
                        encoder: final(self).encoder,
                        ..*old(self)
                    })
                    &&& final(dst)@.len() >= n
                    &&& final(dst)@.subrange(0, n) == old(dst)@
                    &&& is_head_of(
                        final(dst)@.subrange(n, final(dst)@.len() as int),
                        h,
                        h.version,
                        length,
                        ctype,
                        head.extra(),
                        old(date).date_at(now),
                    )
                },
                Message::Chunk(Some(bytes)) => {
                    let kind = old(self).encoder.te.kind;
                    &&& r is Ok
                    &&& final(self).encoder.te.kind == encoder_after(kind, bytes@)
                    &&& *final(self) == (ClientCodec {
                        encoder: final(self).encoder,
                        ..*old(self)
                    })
                    &&& final(dst)@ == old(dst)@ + encoded(kind, bytes@)
                },
                Message::Chunk(None) => {
                    let kind = old(self).encoder.te.kind;
                    &&& r is Ok <==> may_end(kind)
                    &&& r is Err ==> r == Err::<(), EncodeError>(EncodeError::UnexpectedEof)
                    &&& final(self).encoder.te.kind == match kind {
                        TransferEncodingKind::Chunked(_) => TransferEncodingKind::Chunked(true),
                        k => k,
                    }
                    &&& *final(self) == (ClientCodec {
                        encoder: final(self).encoder,
                        ..*old(self)
                    })
                    &&& final(dst)@ == old(dst)@ + eof_encoded(kind)
                },
            },
    {
        match item {
            Message::Item((head, length)) => {
                let (head, extra) = head.into_parts();
                self.version = head.version;
                self.head = head.method.is_head();
                // connection status
                let ctype = head.connection_type();
                if ctype == ConnectionType::KeepAlive && !self.ka_enabled {
                    self.ctype = ConnectionType::Close;
                } else {
                    self.ctype = ctype;
                }
                self.encoder.encode(
                    dst,
                    &head,
                    false,
                    false,
                    self.version,
                    length,
                    self.ctype,
                    extra,
                    date,
                    now,
                )
            },
            Message::Chunk(Some(bytes)) => match self.encoder.encode_chunk(bytes, dst) {
                Ok(_) => Ok(()),
                Err(e) => Err(e),
            },
            Message::Chunk(None) => self.encoder.encode_eof(dst),
        }
    }
}

impl ClientPayloadCodec {
    /// Check if last response is keep-alive
    pub fn keepalive(&self) -> (r: bool)
        ensures
            r == (self.inner.ctype == ConnectionType::KeepAlive),
    {
        self.inner.ctype == ConnectionType::KeepAlive
    }

    /// Transform payload codec to a message codec
    pub fn into_message_codec(self) -> (r: ClientCodec)
        ensures
            r == self.inner,
    {
        self.inner
    }

    /// Decodes the next piece of the body: `Some(None)` is its end, `None` asks
    /// for more bytes.
    pub fn decode(&mut self, src: &mut Vec<u8>) -> (r: Result<
        Option<Option<Vec<u8>>>,
        PayloadError,
    >)
        requires
            old(self).inner.payload is Some,
        ensures
            ({
                let step = body_step(old(self).inner.payload->0.kind, old(src)@);
                &&& final(src)@ == step.rest
                &&& final(self).inner == (ClientCodec {
                    payload: if step.item == Ok::<Option<ItemView>, &'static str>(
                        Some(ItemView::Eof),
                    ) {
                        None
                    } else {
                        Some(PayloadDecoder { kind: step.kind })
                    },
                    ..old(self).inner
                })
                &&& match step.item {
                    Ok(Some(ItemView::Chunk(data))) => r matches Ok(Some(Some(chunk))) && chunk@
                        == data,
                    Ok(Some(ItemView::Eof)) => r matches Ok(Some(None)),
                    Ok(None) => r matches Ok(None),
                    Err(e) => r == Err::<Option<Option<Vec<u8>>>, PayloadError>(
                        PayloadError::Decode(DecodeError::InvalidInput(e)),
                    ),
                }
            }),
    {
        let mut payload: Option<PayloadDecoder> = None;
        std::mem::swap(&mut self.inner.payload, &mut payload);
        match payload {
            None => Ok(None),
            Some(mut pl) => {
                let item = pl.decode(src);
                match item {
                    Ok(Some(PayloadItem::Chunk(chunk))) => {
                        self.inner.payload = Some(pl);
                        Ok(Some(Some(chunk)))
                    },
                    Ok(Some(PayloadItem::Eof)) => Ok(Some(None)),
                    Ok(None) => {
                        self.inner.payload = Some(pl);
                        Ok(None)
                    },
                    Err(e) => {
                        self.inner.payload = Some(pl);
                        Err(PayloadError::from(e))
                    },
                }
            },
        }
    }
}

} // verus!
