//! Message bodies.

use std::collections::VecDeque;

use vstd::prelude::*;

use crate::text::{copy_bytes, take_all};

verus! {

/// Body size hint
#[derive(Debug, PartialEq, Eq, Structural, Copy, Clone)]
pub enum BodySize {
    /// There is no body
    NoBody,
    /// The body is empty
    Empty,
    /// The body has this many bytes
    Sized(u64),
    /// The number of bytes is not known
    Stream,
}

impl BodySize {
    /// The size says that nothing follows.
    pub open spec fn ends(self) -> bool {
        self is NoBody || self is Empty || self == BodySize::Sized(0)
    }

    /// Whether nothing follows.
    pub fn is_eof(&self) -> (r: bool)
        ensures
            r == self.ends(),
    {
        matches!(self, BodySize::NoBody | BodySize::Empty | BodySize::Sized(0))
    }
}

/// What a body hands out.
#[derive(Debug, Clone, PartialEq, Eq)]
pub enum NextChunk {
    /// The body has ended.
    Done,
    /// Bytes of the body.
    Chunk(Vec<u8>),
    /// The stream behind the body has to be asked.
    AskStream,
}

/// Type that provides the bytes of a message.
pub trait MessageBody: Sized {
    /// Size hint.
    spec fn size_spec(self) -> BodySize;

    /// The bytes that are still to come, `None` where they come from a stream.
    spec fn bytes_left(self) -> Option<Seq<u8>>;

    /// Size hint.
    fn size(&self) -> (r: BodySize)
        ensures
            r == self.size_spec(),
    ;

    /// The next chunk: a body that holds its bytes hands them out at once and
    /// is empty afterwards.
    fn next_chunk(&mut self) -> (r: NextChunk)
        ensures
            match old(self).bytes_left() {
                None => r is AskStream && *final(self) == *old(self),
                Some(b) => if b.len() == 0 {
                    r is Done && final(self).bytes_left() == old(self).bytes_left()
                } else {
                    &&& r matches NextChunk::Chunk(c)
                    &&& c@ == b
                    &&& final(self).bytes_left() == Some(Seq::<u8>::empty())
                },
            },
    ;

    /// A body that holds its bytes announces their number.
    proof fn size_is_length(self)
        ensures
            self.bytes_left() matches Some(b) ==> match self.size_spec() {
                BodySize::Sized(n) => n == b.len(),
                BodySize::Stream => false,
                _ => b.len() == 0,
            },
    ;
}

impl MessageBody for () {
    open spec fn size_spec(self) -> BodySize {
        BodySize::Empty
    }

    open spec fn bytes_left(self) -> Option<Seq<u8>> {
        Some(Seq::empty())
    }

    fn size(&self) -> (r: BodySize) {
        BodySize::Empty
    }

    fn next_chunk(&mut self) -> (r: NextChunk) {
        NextChunk::Done
    }

    proof fn size_is_length(self) {
    }
}

impl MessageBody for Vec<u8> {
    open spec fn size_spec(self) -> BodySize {
        BodySize::Sized(self.len() as u64)
    }

    open spec fn bytes_left(self) -> Option<Seq<u8>> {
        Some(self@)
    }

    fn size(&self) -> (r: BodySize) {
        BodySize::Sized(self.len() as u64)
    }

    fn next_chunk(&mut self) -> (r: NextChunk) {
        if self.len() == 0 {
            NextChunk::Done
        } else {
            NextChunk::Chunk(take_all(self))
        }
    }

    proof fn size_is_length(self) {
        assert(self.len() == self@.len());
    }
}

/// Represents various types of http message body.
#[derive(Debug, Clone, PartialEq, Eq)]
pub enum Body {
    /// There is no body
    NoBody,
    /// Zero sized response body
    Empty,
    /// Specific response body
    Bytes(Vec<u8>),
    /// A body whose bytes come from a stream, with its size hint
    Message(BodySize),
}

impl MessageBody for Body {
    open spec fn size_spec(self) -> BodySize {
        match self {
            Body::NoBody => BodySize::NoBody,
            Body::Empty => BodySize::Empty,
            Body::Bytes(b) => BodySize::Sized(b.len() as u64),
            Body::Message(size) => size,
        }
    }

    open spec fn bytes_left(self) -> Option<Seq<u8>> {
        match self {
            Body::NoBody => Some(Seq::empty()),
            Body::Empty => Some(Seq::empty()),
            Body::Bytes(b) => Some(b@),
            Body::Message(_) => None,
        }
    }

    fn size(&self) -> (r: BodySize) {
        match self {
            Body::NoBody => BodySize::NoBody,
            Body::Empty => BodySize::Empty,
            Body::Bytes(b) => BodySize::Sized(b.len() as u64),
            Body::Message(size) => *size,
        }
    }

    fn next_chunk(&mut self) -> (r: NextChunk) {
        match self {
            Body::NoBody => NextChunk::Done,
            Body::Empty => NextChunk::Done,
            Body::Bytes(b) => {
                if b.len() == 0 {
                    NextChunk::Done
                } else {
                    NextChunk::Chunk(take_all(b))
                }
            },
            Body::Message(_) => NextChunk::AskStream,
        }
    }

    proof fn size_is_length(self) {
        if let Body::Bytes(b) = self {
            assert(b.len() == b@.len());
        }
    }
}

impl Body {
    /// Create body from slice (copy)
    pub fn from_slice(s: &[u8]) -> (r: Body)
        ensures
            r matches Body::Bytes(b) && b@ == s@,
    {
        Body::Bytes(copy_bytes(s))
    }

    /// Create body from a text
    pub fn from_text(s: &str) -> (r: Body)
        ensures
            r matches Body::Bytes(b) && b@ == vstd::utf8::encode_utf8(s@),
    {
        Body::Bytes(copy_bytes(s.as_bytes()))
    }

    /// Create body whose bytes come from a stream
    pub fn from_message(size: BodySize) -> (r: Body)
        ensures
            r == Body::Message(size),
    {
        Body::Message(size)
    }
}

/// Represents http response body
#[derive(Debug, Clone, PartialEq, Eq)]
pub enum ResponseBody<B> {
    /// The body of the handler
    Body(B),
    /// A body that took its place
    Other(Body),
}

impl ResponseBody<Body> {
    /// The body that is held, as one that took the place of another.
    pub fn into_body<B>(self) -> (r: ResponseBody<B>)
        ensures
            r == match self {
                ResponseBody::Body(b) => ResponseBody::<B>::Other(b),
                ResponseBody::Other(b) => ResponseBody::<B>::Other(b),
            },
    {
        match self {
            ResponseBody::Body(b) => ResponseBody::Other(b),
            ResponseBody::Other(b) => ResponseBody::Other(b),
        }
    }
}

impl<B> ResponseBody<B> {
    /// A body of the handler.
    pub fn new(body: B) -> (r: ResponseBody<B>)
        ensures
            r == ResponseBody::Body(body),
    {
        ResponseBody::Body(body)
    }

    /// Takes the body out. No body is left.
    pub fn take_body(&mut self) -> (r: ResponseBody<B>)
        ensures
            r == *old(self),
            *final(self) == ResponseBody::<B>::Other(Body::NoBody),
    {
        let mut r: ResponseBody<B> = ResponseBody::Other(Body::NoBody);
        std::mem::swap(self, &mut r);
        r
    }

    /// The body of the handler, where it was not replaced.
    pub fn as_ref(&self) -> (r: Option<&B>)
        ensures
            match *self {
                ResponseBody::Body(b) => r == Some(&b),
                ResponseBody::Other(_) => r is None,
            },
    {
        match self {
            ResponseBody::Body(b) => Some(b),
            ResponseBody::Other(_) => None,
        }
    }
}

impl<B: MessageBody> MessageBody for ResponseBody<B> {
    open spec fn size_spec(self) -> BodySize {
        match self {
            ResponseBody::Body(b) => b.size_spec(),
            ResponseBody::Other(b) => b.size_spec(),
        }
    }

    open spec fn bytes_left(self) -> Option<Seq<u8>> {
        match self {
            ResponseBody::Body(b) => b.bytes_left(),
            ResponseBody::Other(b) => b.bytes_left(),
        }
    }

    fn size(&self) -> (r: BodySize) {
        match self {
            ResponseBody::Body(b) => b.size(),
            ResponseBody::Other(b) => b.size(),
        }
    }

    fn next_chunk(&mut self) -> (r: NextChunk) {
        match self {
            ResponseBody::Body(b) => b.next_chunk(),
            ResponseBody::Other(b) => b.next_chunk(),
        }
    }

    proof fn size_is_length(self) {
        match self {
            ResponseBody::Body(b) => {
                b.size_is_length();
            },
            ResponseBody::Other(b) => {
                b.size_is_length();
            },
        }
    }
}

/// What a stream of chunks gives when it is polled.
#[derive(Debug, Clone, PartialEq, Eq)]
pub enum StreamPoll {
    /// Nothing yet.
    Pending,
    /// The stream has ended.
    Done,
    /// Bytes.
    Chunk(Vec<u8>),
    /// The stream failed.
    Failed(String),
}

/// What a stream gave is handed on. An empty chunk is not: a chunk without bytes
/// would read as the end of the body.
pub open spec fn handed_on(p: StreamPoll) -> bool {
    !(p matches StreamPoll::Chunk(b) && b@.len() == 0)
}

/// The place of the first item that is handed on, or the number of items where
/// none is.
pub open spec fn first_handed(items: Seq<StreamPoll>) -> int
    decreases items.len(),
{
    if items.len() == 0 {
        0
    } else if handed_on(items[0]) {
        0
    } else {
        1 + first_handed(items.drop_first())
    }
}

/// What a body gives of the items that its stream has for it, and the items
/// that are left: the first that is handed on, or nothing yet.
pub open spec fn polled(items: Seq<StreamPoll>) -> (StreamPoll, Seq<StreamPoll>) {
    let i = first_handed(items);
    if i < items.len() {
        (items[i], items.skip(i + 1))
    } else {
        (StreamPoll::Pending, Seq::empty())
    }
}

/// Everything that a body gives of the items of its stream, poll after poll.
pub open spec fn yielded(items: Seq<StreamPoll>) -> Seq<StreamPoll>
    decreases items.len(),
    via yielded_ends
{
    if first_handed(items) < items.len() {
        seq![polled(items).0] + yielded(polled(items).1)
    } else {
        Seq::empty()
    }
}

#[via_fn]
proof fn yielded_ends(items: Seq<StreamPoll>) {
    first_is_within(items);
}

proof fn first_is_within(items: Seq<StreamPoll>)
    ensures
        0 <= first_handed(items) <= items.len(),
    decreases items.len(),
{
    if items.len() > 0 && !handed_on(items[0]) {
        first_is_within(items.drop_first());
    }
}

/// A body gives the items of its stream in their order and unchanged, errors
/// and the end among them, all but the empty chunks; so it ends where the stream
/// does and nowhere else.
pub proof fn stream_is_handed_on(items: Seq<StreamPoll>)
    ensures
        yielded(items) == items.filter(|p: StreamPoll| handed_on(p)),
    decreases items.len(),
{
    let keep = |p: StreamPoll| handed_on(p);
    first_is_within(items);
    if items.len() == 0 {
        reveal(Seq::filter);
        assert(yielded(items) =~= items.filter(keep));
    } else {
        let tail = items.drop_first();
        stream_is_handed_on(tail);
        assert(items =~= seq![items[0]] + tail);
        Seq::filter_distributes_over_add(seq![items[0]], tail, keep);
        assert(seq![items[0]].filter(keep) =~= if keep(items[0]) {
            seq![items[0]]
        } else {
            Seq::empty()
        }) by {
            reveal(Seq::filter);
            assert(seq![items[0]].drop_last() =~= Seq::empty());
            assert(Seq::<StreamPoll>::empty().filter(keep) =~= Seq::empty());
        }
        if handed_on(items[0]) {
            assert(items.skip(1) =~= tail);
        } else {
            first_is_within(tail);
            let i = first_handed(tail);
            if i < tail.len() {
                assert(items.skip(i + 2) =~= tail.skip(i + 1));
            }
            assert(yielded(items) =~= yielded(tail));
            assert(items.filter(keep) =~= tail.filter(keep));
        }
    }
}

/// Takes the items that a stream has ready up to the first that is handed on.
fn poll_stream(ready: &mut VecDeque<StreamPoll>) -> (r: StreamPoll)
    ensures
        r == polled(old(ready)@).0,
        final(ready)@ == polled(old(ready)@).1,
{
    proof {
        first_is_within(ready@);
    }
    loop
        invariant
            polled(ready@) == polled(old(ready)@),
            0 <= first_handed(ready@) <= ready@.len(),
        decreases ready@.len(),
    {
        let ghost before = ready@;
        match ready.pop_front() {
            Some(p) => {
                proof {
                    assert(ready@ =~= before.drop_first());
                    first_is_within(ready@);
                }
                let skip = match &p {
                    StreamPoll::Chunk(b) => b.len() == 0,
                    _ => false,
                };
                if !skip {
                    assert(ready@ =~= before.skip(1));
                    return p;
                }
                proof {
                    let i = first_handed(ready@);
                    if i < ready@.len() {
                        assert(ready@.skip(i + 1) =~= before.skip(i + 2));
                    }
                }
            },
            None => {
                assert(ready@ =~= Seq::empty());
                return StreamPoll::Pending;
            },
        }
    }
}

/// Type represent streaming body.
/// Response does not contain `content-length` header and appropriate transfer encoding is used.
#[derive(Debug)]
pub struct BodyStream<S> {
    pub stream: S,
}

impl<S> BodyStream<S> {
    /// A body from a stream of chunks.
    pub fn new(stream: S) -> (r: BodyStream<S>)
        ensures
            r.stream == stream,
    {
        BodyStream { stream }
    }

    /// Size hint: the number of bytes is not known.
    pub fn size(&self) -> (r: BodySize)
        ensures
            r == BodySize::Stream,
    {
        BodySize::Stream
    }

    /// Gives the next item of the stream, of those that it has ready. An empty
    /// chunk is passed over, so that it does not end the body; where nothing else
    /// is ready, the stream is asked again.
    pub fn poll_next_chunk(&mut self, ready: &mut VecDeque<StreamPoll>) -> (r: StreamPoll)
        ensures
            *final(self) == *old(self),
            r == polled(old(ready)@).0,
            final(ready)@ == polled(old(ready)@).1,
    {
        poll_stream(ready)
    }
}

/// Type represent streaming body, whose errors need no conversion.
#[derive(Debug)]
pub struct BoxedBodyStream<S> {
    pub stream: S,
}

impl<S> BoxedBodyStream<S> {
    /// A body from a stream of chunks.
    pub fn new(stream: S) -> (r: BoxedBodyStream<S>)
        ensures
            r.stream == stream,
    {
        BoxedBodyStream { stream }
    }

    /// Size hint: the number of bytes is not known.
    pub fn size(&self) -> (r: BodySize)
        ensures
            r == BodySize::Stream,
    {
        BodySize::Stream
    }

    /// Gives the next item of the stream, of those that it has ready. An empty
    /// chunk is passed over, so that it does not end the body; where nothing else
    /// is ready, the stream is asked again.
    pub fn poll_next_chunk(&mut self, ready: &mut VecDeque<StreamPoll>) -> (r: StreamPoll)
        ensures
            *final(self) == *old(self),
            r == polled(old(ready)@).0,
            final(ready)@ == polled(old(ready)@).1,
    {
        poll_stream(ready)
    }
}

/// Type represent streaming body. This body implementation should be used
/// if total size of stream is known. Data get sent as is without using transfer encoding.
#[derive(Debug)]
pub struct SizedStream<S> {
    pub size: u64,
    pub stream: S,
}

impl<S> SizedStream<S> {
    /// A body of known size from a stream of chunks.
    pub fn new(size: u64, stream: S) -> (r: SizedStream<S>)
        ensures
            r.size == size,
            r.stream == stream,
    {
        SizedStream { size, stream }
    }

    /// Size hint.
    pub fn size(&self) -> (r: BodySize)
        ensures
            r == BodySize::Sized(self.size),
    {
        BodySize::Sized(self.size)
    }

    /// Gives the next item of the stream, of those that it has ready. An empty
    /// chunk is passed over, so that it does not end the body; where nothing else
    /// is ready, the stream is asked again.
    pub fn poll_next_chunk(&mut self, ready: &mut VecDeque<StreamPoll>) -> (r: StreamPoll)
        ensures
            *final(self) == *old(self),
            r == polled(old(ready)@).0,
            final(ready)@ == polled(old(ready)@).1,
    {
        poll_stream(ready)
    }
}

} // verus!
