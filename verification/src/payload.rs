//! Request payload.

use vstd::prelude::*;

use crate::error::PayloadError;

verus! {

/// What a payload stream gives when it is read.
#[derive(Debug)]
pub enum PayloadPoll {
    /// Nothing yet.
    Pending,
    /// The stream has ended.
    Done,
    /// Bytes.
    Data(Vec<u8>),
    /// The stream failed.
    Failed(PayloadError),
}

/// The pieces in a buffer.
pub open spec fn pieces(items: Seq<Vec<u8>>) -> Seq<Seq<u8>> {
    items.map_values(|v: Vec<u8>| v@)
}

/// All bytes in a buffer, in their order.
pub open spec fn buffered(items: Seq<Vec<u8>>) -> Seq<u8>
    decreases items.len(),
{
    if items.len() == 0 {
        Seq::empty()
    } else {
        items[0]@ + buffered(items.skip(1))
    }
}

/// A piece at the end of a buffer comes after the others.
pub proof fn piece_comes_last(items: Seq<Vec<u8>>, data: Vec<u8>)
    ensures
        buffered(items.push(data)) == buffered(items) + data@,
    decreases items.len(),
{
    reveal_with_fuel(buffered, 2);
    if items.len() == 0 {
        assert(items.push(data).skip(1) =~= items);
        assert(buffered(items.push(data)) =~= data@);
        assert(buffered(items) + data@ =~= data@);
    } else {
        piece_comes_last(items.skip(1), data);
        assert(items.push(data).skip(1) =~= items.skip(1).push(data));
        assert(items.push(data)[0] == items[0]);
        assert(items[0]@ + (buffered(items.skip(1)) + data@) =~= items[0]@ + buffered(
            items.skip(1),
        ) + data@);
    }
}

/// Where the payload of an HTTP request comes from.
#[derive(Debug, Copy, Clone, PartialEq, Eq, Structural)]
pub enum Payload {
    /// No payload is available.
    NoPayload,
    /// An HTTP/1 payload stream.
    H1,
    /// An HTTP/2 payload stream.
    H2,
    /// A custom payload stream.
    Stream,
}

impl Payload {
    /// Takes the payload and replaces it with [`Payload::NoPayload`].
    pub fn take(&mut self) -> (r: Payload)
        ensures
            r == *old(self),
            *final(self) == Payload::NoPayload,
    {
        let r = *self;
        *self = Payload::NoPayload;
        r
    }

    /// The payload in a log.
    pub fn label(&self) -> (r: &'static str)
        ensures
            r@ == match self {
                Payload::NoPayload => "Payload::None"@,
                Payload::H1 => "Payload::H1(..)"@,
                Payload::H2 => "Payload::H2(..)"@,
                Payload::Stream => "Payload::Stream(..)"@,
            },
    {
        match self {
            Payload::NoPayload => "Payload::None",
            Payload::H1 => "Payload::H1(..)",
            Payload::H2 => "Payload::H2(..)",
            Payload::Stream => "Payload::Stream(..)",
        }
    }
}

} // verus!
