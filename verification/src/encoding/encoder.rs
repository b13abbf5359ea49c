//! Stream encoder

use vstd::prelude::*;

use crate::body::{Body, BodySize, MessageBody, NextChunk, ResponseBody, StreamPoll};
use crate::encoding::coders::{no_pieces, plain_of, stream_of, ContentEncoder};
use crate::encoding::ContentEncoding;
use crate::h1::encoder::joined;
use crate::headers::{key, map_contains, map_insert, replaced};
use crate::message::{Flags, ResponseHead};
use crate::text::{ascii, ascii_bytes, take_all};

verus! {

/// Chunks of at least this many bytes are encoded away from the event loop.
pub const INPLACE: usize = 1024;

/// The body that is encoded.
pub enum EncoderBody<B> {
    /// Bytes.
    Bytes(Vec<u8>),
    /// The body of the handler.
    Stream(B),
    /// A stream that took its place, with its size hint.
    BoxedStream(BodySize),
}

/// A body that is encoded on its way out.
pub struct Encoder<B> {
    /// The last bytes were handed out.
    pub eof: bool,
    /// What is encoded.
    pub body: EncoderBody<B>,
    /// The encoder, unless it is at work elsewhere or has done.
    pub encoder: Option<ContentEncoder>,
    /// The encoder is at work elsewhere.
    pub busy: bool,
}

/// What is to be done next.
pub enum EncodeStep {
    /// Asks the body for its next chunk.
    AskBody,
    /// Waits for the encoder that is at work elsewhere.
    AskWriter,
    /// Starts over.
    Again,
    /// Waits.
    Pending,
    /// Hands out bytes.
    Output(Vec<u8>),
    /// Lets the encoder write the bytes elsewhere.
    Offload(ContentEncoder, Vec<u8>),
    /// The body has ended.
    Done,
    /// The body failed.
    Failed(String),
}

/// What became of the encoder that was at work elsewhere.
pub enum WriterPoll {
    /// Nothing yet.
    Pending,
    /// It has written the bytes.
    Written(ContentEncoder),
    /// It failed.
    Failed(String),
    /// It was given up.
    Canceled,
}

/// Whether the body of a response is encoded.
pub open spec fn is_encoded<B>(
    encoding: ContentEncoding,
    head: ResponseHead,
    body: ResponseBody<B>,
) -> bool {
    &&& encoding is Br || encoding is Gzip || encoding is Deflate
    &&& !head.fields().contains_key(key("content-encoding"@))
    &&& head.status.0 != 101
    &&& head.status.0 != 204
    &&& !(body matches ResponseBody::Other(Body::NoBody))
    &&& !(body matches ResponseBody::Other(Body::Empty))
}

/// What a body that is encoded holds.
pub open spec fn held_body<B>(body: ResponseBody<B>) -> EncoderBody<B> {
    match body {
        ResponseBody::Other(Body::Bytes(b)) => EncoderBody::Bytes(b),
        ResponseBody::Other(Body::Message(size)) => EncoderBody::BoxedStream(size),
        ResponseBody::Other(_) => EncoderBody::BoxedStream(BodySize::NoBody),
        ResponseBody::Body(b) => EncoderBody::Stream(b),
    }
}

/// What the encoder makes of an item of the body.
pub open spec fn item_taken<B>(
    before: Encoder<B>,
    after: Encoder<B>,
    item: Result<Option<Seq<u8>>, Seq<char>>,
    r: EncodeStep,
) -> bool {
    match item {
        Err(e) => r matches EncodeStep::Failed(t) && t@ == e && after.encoder == before.encoder
            && after.busy == before.busy && after.eof == before.eof,
        Ok(Some(chunk)) => match before.encoder {
            None => r matches EncodeStep::Output(out) && out@ == chunk && after.encoder is None
                && after.busy == before.busy && after.eof == before.eof,
            Some(enc) => if chunk.len() < INPLACE {
                &&& after.busy == before.busy
                &&& after.eof == before.eof
                &&& match r {
                    EncodeStep::Output(out) => out@.len() > 0 && has_written(
                        enc,
                        after.encoder,
                        chunk,
                        out@,
                    ),
                    EncodeStep::Again => has_written(enc, after.encoder, chunk, Seq::empty()),
                    _ => false,
                }
            } else {
                &&& r matches EncodeStep::Offload(e, data)
                &&& e == enc
                &&& data@ == chunk
                &&& after.encoder is None
                &&& after.busy
                &&& after.eof == before.eof
            },
        },
        Ok(None) => {
            &&& after.encoder is None
            &&& after.busy == before.busy
            &&& match before.encoder {
                None => r is Done && after.eof == before.eof,
                Some(enc) => match r {
                    EncodeStep::Output(out) => after.eof && out@.len() > 0 && has_ended(enc, out@),
                    EncodeStep::Done => after.eof == before.eof && has_ended(enc, Seq::empty()),
                    _ => false,
                },
            }
        },
    }
}

/// The stream has ended with the given bytes.
pub open spec fn has_ended(enc: ContentEncoder, out: Seq<u8>) -> bool {
    enc.ready().is_prefix_of(out) && is_encoded_form(
        enc.encoding(),
        enc.taken() + out,
        enc.writes(),
    )
}

/// The bytes that came out of an encoder are the encoded form of the chunks that
/// went in, and decompressing them gives the chunks back.
pub open spec fn is_encoded_form(
    encoding: ContentEncoding,
    out: Seq<u8>,
    chunks: Seq<Seq<u8>>,
) -> bool {
    out == stream_of(encoding, chunks) && plain_of(encoding, out) == Some(joined(chunks))
}

/// The encoder has written a chunk, and all that was ready was taken out of it.
pub open spec fn has_written(
    enc: ContentEncoder,
    after: Option<ContentEncoder>,
    chunk: Seq<u8>,
    out: Seq<u8>,
) -> bool {
    &&& after matches Some(e)
    &&& e.wf()
    &&& e.encoding() == enc.encoding()
    &&& e.writes() == enc.writes().push(chunk)
    &&& e.taken() == enc.taken() + out
    &&& e.ready() == Seq::<u8>::empty()
    &&& enc.ready().is_prefix_of(out)
}

/// Chunks went into an encoder and bytes came out of it.
pub open spec fn has_run(
    enc: ContentEncoder,
    encoding: ContentEncoding,
    chunks: Seq<Seq<u8>>,
    out: Seq<u8>,
) -> bool {
    &&& enc.encoding() == encoding
    &&& enc.writes() == chunks
    &&& enc.taken() == out
}

/// The bytes that an encoder hands out, one after another, are the encoded form
/// of the chunks of the body: a chunk adds to what went in and what came out,
/// and at the end of the body all that came out is the stream of all that went
/// in, which decompresses to it. No step fails, and no bytes are handed out that
/// are empty.
pub proof fn output_is_the_stream<B>(
    before: Encoder<B>,
    after: Encoder<B>,
    item: Option<Seq<u8>>,
    r: EncodeStep,
    encoding: ContentEncoding,
    chunks: Seq<Seq<u8>>,
    out: Seq<u8>,
)
    requires
        before.encoder matches Some(enc) && has_run(enc, encoding, chunks, out),
        item_taken(before, after, Ok(item), r),
    ensures
        r matches EncodeStep::Output(bytes) ==> bytes@.len() > 0,
        match (item, r) {
            (Some(chunk), EncodeStep::Output(bytes)) => after.encoder matches Some(enc) && has_run(
                enc,
                encoding,
                chunks.push(chunk),
                out + bytes@,
            ),
            (Some(chunk), EncodeStep::Again) => after.encoder matches Some(enc) && has_run(
                enc,
                encoding,
                chunks.push(chunk),
                out,
            ),
            (Some(chunk), EncodeStep::Offload(enc, data)) => data@ == chunk && has_run(
                enc,
                encoding,
                chunks,
                out,
            ),
            (None, EncodeStep::Output(bytes)) => is_encoded_form(encoding, out + bytes@, chunks),
            (None, EncodeStep::Done) => is_encoded_form(encoding, out, chunks),
            _ => false,
        },
{
    assert(out + Seq::<u8>::empty() =~= out);
}

/// The same holds of a chunk that is written elsewhere: `enc` is the encoder that
/// was handed over, `written` what it is once it has written the chunk.
pub proof fn output_from_elsewhere<B>(
    enc: ContentEncoder,
    written: ContentEncoder,
    chunk: Seq<u8>,
    after: Encoder<B>,
    r: EncodeStep,
    encoding: ContentEncoding,
    chunks: Seq<Seq<u8>>,
    out: Seq<u8>,
)
    requires
        has_run(enc, encoding, chunks, out),
        written.encoding() == encoding,
        written.writes() == chunks.push(chunk),
        written.taken() == out,
        enc.ready().is_prefix_of(written.ready()),
        writer_is_back(written, after, r),
        after.encoder matches Some(e) && e.wf(),
    ensures
        r matches EncodeStep::Output(bytes) ==> bytes@.len() > 0,
        has_written(enc, after.encoder, chunk, handed_out(r)),
        after.encoder matches Some(e) && has_run(
            e,
            encoding,
            chunks.push(chunk),
            out + handed_out(r),
        ),
{
    assert(written.ready().len() == 0 ==> written.ready() =~= Seq::<u8>::empty());
}

/// The bytes that a step hands out.
pub open spec fn handed_out(r: EncodeStep) -> Seq<u8> {
    match r {
        EncodeStep::Output(bytes) => bytes@,
        _ => Seq::empty(),
    }
}

/// All that comes out while a body is encoded is its encoded form. `encs` is the
/// encoder before each chunk and at the end of the body, `outs` what each of the
/// chunks brought out, and `last` what the end of the body brought out.
pub proof fn whole_body_is_encoded(
    encoding: ContentEncoding,
    encs: Seq<ContentEncoder>,
    chunks: Seq<Seq<u8>>,
    outs: Seq<Seq<u8>>,
    last: Seq<u8>,
)
    requires
        encs.len() == chunks.len() + 1,
        outs.len() == chunks.len(),
        has_run(encs[0], encoding, no_pieces(), Seq::empty()),
        forall|i: int|
            0 <= i < chunks.len() ==> has_written(
                #[trigger] encs[i],
                Some(encs[i + 1]),
                chunks[i],
                outs[i],
            ),
        has_ended(encs.last(), last),
    ensures
        is_encoded_form(encoding, joined(outs.push(last)), chunks),
{
    let n = chunks.len() as int;
    has_run_so_far(encoding, encs, chunks, outs, n);
    assert(chunks.take(n) =~= chunks);
    assert(outs.take(n) =~= outs);
    assert(outs.push(last).drop_last() =~= outs);
}

proof fn has_run_so_far(
    encoding: ContentEncoding,
    encs: Seq<ContentEncoder>,
    chunks: Seq<Seq<u8>>,
    outs: Seq<Seq<u8>>,
    n: int,
)
    requires
        encs.len() == chunks.len() + 1,
        outs.len() == chunks.len(),
        0 <= n <= chunks.len(),
        has_run(encs[0], encoding, no_pieces(), Seq::empty()),
        forall|i: int|
            0 <= i < chunks.len() ==> has_written(
                #[trigger] encs[i],
                Some(encs[i + 1]),
                chunks[i],
                outs[i],
            ),
    ensures
        has_run(encs[n], encoding, chunks.take(n), joined(outs.take(n))),
    decreases n,
{
    if n == 0 {
        assert(chunks.take(0) =~= no_pieces());
    } else {
        has_run_so_far(encoding, encs, chunks, outs, n - 1);
        assert(has_written(encs[n - 1], Some(encs[n - 1 + 1]), chunks[n - 1], outs[n - 1]));
        assert(chunks.take(n) =~= chunks.take(n - 1).push(chunks[n - 1]));
        assert(outs.take(n).drop_last() =~= outs.take(n - 1));
    }
}

/// The encoder that was at work elsewhere is back, and hands out what it has
/// ready.
pub open spec fn writer_is_back<B>(
    enc: ContentEncoder,
    after: Encoder<B>,
    r: EncodeStep,
) -> bool {
    &&& !after.busy
    &&& after.encoder matches Some(e)
    &&& e.encoding() == enc.encoding()
    &&& e.writes() == enc.writes()
    &&& e.taken() == enc.taken() + enc.ready()
    &&& e.ready() == Seq::<u8>::empty()
    &&& if enc.ready().len() > 0 {
        r matches EncodeStep::Output(out) && out@ == enc.ready()
    } else {
        r is Again
    }
}

impl<B: MessageBody> Encoder<B> {
    /// The encoder is in order.
    pub open spec fn wf(self) -> bool {
        self.encoder matches Some(e) ==> e.wf()
    }

    /// Encodes the body of a response where that can be done: the head says so,
    /// and the size of the body is not known any more.
    pub fn response(encoding: ContentEncoding, head: &mut ResponseHead, body: ResponseBody<B>) -> (r:
        (ResponseBody<B>, Option<Encoder<B>>))
        ensures
            !is_encoded(encoding, *old(head), body) ==> r.0 == body && r.1 is None && *final(
                head) == *old(head),
            is_encoded(encoding, *old(head), body) ==> {
                &&& r.0 == ResponseBody::<B>::Other(Body::Message(BodySize::Stream))
                &&& r.1 matches Some(e)
                &&& e.wf()
                &&& !e.eof
                &&& !e.busy
                &&& e.body == held_body(body)
                &&& e.encoder matches Some(enc)
                &&& has_run(enc, encoding, no_pieces(), Seq::empty())
                &&& enc.ready() == Seq::<u8>::empty()
                &&& final(head).fields() == replaced(
                    old(head).fields(),
                    key("content-encoding"@),
                    ascii(encoding.name()),
                )
                &&& *final(head) == (ResponseHead {
                    headers: final(head).headers,
                    flags: Flags { no_chunking: false, ..old(head).flags },
                    ..*old(head)
                })
            },
    {
        let status: u16 = head.status.as_u16();
        let can_encode = ContentEncoder::can_encode(encoding) && !(map_contains(
            head.headers(),
            "content-encoding",
        ) || status == 101 || status == 204);
        if !can_encode {
            return (body, None);
        }
        let body = match body {
            ResponseBody::Other(b) => match b {
                Body::NoBody => {
                    return (ResponseBody::Other(Body::NoBody), None);
                },
                Body::Empty => {
                    return (ResponseBody::Other(Body::Empty), None);
                },
                Body::Bytes(buf) => EncoderBody::Bytes(buf),
                Body::Message(size) => EncoderBody::BoxedStream(size),
            },
            ResponseBody::Body(stream) => EncoderBody::Stream(stream),
        };
        match ContentEncoder::encoder(encoding) {
            None => (ResponseBody::Other(Body::NoBody), None),
            Some(encoder) => {
                update_head(encoding, head);
                head.no_chunking(false);
                (
                    ResponseBody::Other(Body::Message(BodySize::Stream)),
                    Some(Encoder { eof: false, body, encoder: Some(encoder), busy: false }),
                )
            },
        }
    }

    /// Size hint: not known while the body is encoded.
    pub open spec fn size_hint(self) -> BodySize {
        if self.encoder is None {
            match self.body {
                EncoderBody::Bytes(b) => BodySize::Sized(b@.len() as u64),
                EncoderBody::Stream(b) => b.size_spec(),
                EncoderBody::BoxedStream(size) => size,
            }
        } else {
            BodySize::Stream
        }
    }

    /// Size hint.
    pub fn size(&self) -> (r: BodySize)
        ensures
            r == self.size_hint(),
    {
        if self.encoder.is_none() {
            match &self.body {
                EncoderBody::Bytes(b) => BodySize::Sized(b.len() as u64),
                EncoderBody::Stream(b) => b.size(),
                EncoderBody::BoxedStream(size) => *size,
            }
        } else {
            BodySize::Stream
        }
    }

    /// The body gave something.
    pub fn on_body(&mut self, item: StreamPoll) -> (r: EncodeStep)
        requires
            old(self).wf(),
        ensures
            final(self).wf(),
            final(self).body == old(self).body,
            match item {
                StreamPoll::Pending => r is Pending && *final(self) == *old(self),
                StreamPoll::Done => item_taken(*old(self), *final(self), Ok(None), r),
                StreamPoll::Chunk(c) => item_taken(*old(self), *final(self), Ok(Some(c@)), r),
                StreamPoll::Failed(e) => item_taken(*old(self), *final(self), Err(e@), r),
            },
    {
        match item {
            StreamPoll::Pending => EncodeStep::Pending,
            StreamPoll::Failed(e) => EncodeStep::Failed(e),
            StreamPoll::Chunk(chunk) => {
                let mut encoder: Option<ContentEncoder> = None;
                std::mem::swap(&mut self.encoder, &mut encoder);
                match encoder {
                    None => EncodeStep::Output(chunk),
                    Some(mut enc) => {
                        if chunk.len() < INPLACE {
                            match enc.write(chunk.as_slice()) {
                                Err(e) => EncodeStep::Failed(e),
                                Ok(()) => {
                                    let ghost taken = enc.taken();
                                    let out = enc.take();
                                    self.encoder = Some(enc);
                                    if out.len() != 0 {
                                        EncodeStep::Output(out)
                                    } else {
                                        assert(out@ =~= Seq::<u8>::empty());
                                        EncodeStep::Again
                                    }
                                },
                            }
                        } else {
                            self.busy = true;
                            EncodeStep::Offload(enc, chunk)
                        }
                    },
                }
            },
            StreamPoll::Done => {
                let mut encoder: Option<ContentEncoder> = None;
                std::mem::swap(&mut self.encoder, &mut encoder);
                match encoder {
                    None => EncodeStep::Done,
                    Some(enc) => match enc.finish() {
                        Err(e) => EncodeStep::Failed(e),
                        Ok(out) => {
                            if out.len() == 0 {
                                assert(enc.taken() + out@ =~= enc.taken());
                                EncodeStep::Done
                            } else {
                                self.eof = true;
                                EncodeStep::Output(out)
                            }
                        },
                    },
                }
            },
        }
    }

    /// The encoder that was at work elsewhere comes back, or not.
    pub fn on_writer(&mut self, res: WriterPoll) -> (r: EncodeStep)
        requires
            old(self).wf(),
            old(self).busy,
            res matches WriterPoll::Written(e) ==> e.wf(),
        ensures
            final(self).wf(),
            final(self).body == old(self).body,
            final(self).eof == old(self).eof,
            match res {
                WriterPoll::Pending => r is Pending && *final(self) == *old(self),
                WriterPoll::Failed(e) => r == EncodeStep::Failed(e) && *final(self) == *old(self),
                WriterPoll::Canceled => r matches EncodeStep::Failed(t) && t@ == "Canceled"@
                    && *final(self) == *old(self),
                WriterPoll::Written(enc) => writer_is_back(enc, *final(self), r),
            },
    {
        match res {
            WriterPoll::Pending => EncodeStep::Pending,
            WriterPoll::Failed(e) => EncodeStep::Failed(e),
            WriterPoll::Canceled => EncodeStep::Failed("Canceled".to_owned()),
            WriterPoll::Written(enc) => {
                let mut enc = enc;
                let ghost taken = enc.taken();
                let out = enc.take();
                self.encoder = Some(enc);
                self.busy = false;
                if out.len() != 0 {
                    EncodeStep::Output(out)
                } else {
                    assert(taken + out@ =~= taken);
                    EncodeStep::Again
                }
            },
        }
    }

    /// What is to be done next. A body that holds its bytes is encoded at once.
    pub fn next(&mut self) -> (r: EncodeStep)
        requires
            old(self).wf(),
        ensures
            final(self).wf(),
            if old(self).eof {
                r is Done && *final(self) == *old(self)
            } else if old(self).busy {
                r is AskWriter && *final(self) == *old(self)
            } else {
                match old(self).body {
                    EncoderBody::BoxedStream(_) => r is AskBody && *final(self) == *old(self),
                    EncoderBody::Bytes(b) => {
                        &&& final(self).body matches EncoderBody::Bytes(left)
                        &&& left@.len() == 0
                        &&& item_taken(
                            *old(self),
                            *final(self),
                            if b@.len() == 0 {
                                Ok(None)
                            } else {
                                Ok(Some(b@))
                            },
                            r,
                        )
                    },
                    EncoderBody::Stream(b) => {
                        &&& final(self).body matches EncoderBody::Stream(left)
                        &&& match b.bytes_left() {
                            None => r is AskBody && *final(self) == *old(self),
                            Some(bytes) => (if bytes.len() == 0 {
                                left.bytes_left() == b.bytes_left()
                            } else {
                                left.bytes_left() == Some(Seq::<u8>::empty())
                            }) && item_taken(
                                *old(self),
                                *final(self),
                                if bytes.len() == 0 {
                                    Ok(None)
                                } else {
                                    Ok(Some(bytes))
                                },
                                r,
                            ),
                        }
                    },
                }
            },
    {
        if self.eof {
            return EncodeStep::Done;
        }
        if self.busy {
            return EncodeStep::AskWriter;
        }
        let item = match &mut self.body {
            EncoderBody::BoxedStream(_) => {
                return EncodeStep::AskBody;
            },
            EncoderBody::Bytes(b) => {
                if b.len() == 0 {
                    StreamPoll::Done
                } else {
                    StreamPoll::Chunk(take_all(b))
                }
            },
            EncoderBody::Stream(b) => match b.next_chunk() {
                NextChunk::AskStream => {
                    return EncodeStep::AskBody;
                },
                NextChunk::Done => StreamPoll::Done,
                NextChunk::Chunk(c) => StreamPoll::Chunk(c),
            },
        };
        self.on_body(item)
    }
}

fn update_head(encoding: ContentEncoding, head: &mut ResponseHead)
    ensures
        *final(head) == (ResponseHead { headers: final(head).headers, ..*old(head) }),
        final(head).fields() == replaced(
            old(head).fields(),
            key("content-encoding"@),
            ascii(encoding.name()),
        ),
{
    proof {
        reveal_strlit("content-encoding");
        reveal_strlit("br");
        reveal_strlit("gzip");
        reveal_strlit("deflate");
        reveal_strlit("identity");
    }
    map_insert(&mut head.headers, "content-encoding", ascii_bytes(encoding.as_str()));
}

} // verus!
