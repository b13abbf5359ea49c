//! Payload stream

use std::collections::VecDeque;

use vstd::prelude::*;

use crate::error::PayloadError;
use crate::payload::{buffered, piece_comes_last, pieces, PayloadPoll};

verus! {

/// Buffered stream of byte chunks
///
/// The first chunk can be received with `.poll_read()` method. Reading returns
/// receive-window capacity to the peer.
#[derive(Debug)]
pub struct Payload {
    /// No data follows what is buffered.
    pub eof: bool,
    /// The reader is gone.
    pub dropped: bool,
    /// Receive-window capacity that was not given back yet.
    pub cap: u32,
    /// The stream failed after what is buffered.
    pub err: Option<PayloadError>,
    /// Buffered pieces.
    pub items: VecDeque<Vec<u8>>,
    /// Id of the stream that is kept open for the reader.
    pub stream: Option<u32>,
}

/// Sender part of the payload stream
#[derive(Debug, Copy, Clone, PartialEq, Eq, Structural)]
pub struct PayloadSender;

impl Payload {
    /// While the stream is open, what is buffered is covered by capacity.
    pub open spec fn wf(self) -> bool {
        !self.eof ==> self.bytes().len() <= self.cap
    }

    /// The buffered bytes.
    pub open spec fn bytes(self) -> Seq<u8> {
        buffered(self.items@)
    }

    /// The buffered pieces.
    pub open spec fn chunks(self) -> Seq<Seq<u8>> {
        pieces(self.items@)
    }

    /// Create payload stream.
    ///
    /// This method construct two objects responsible for bytes stream
    /// generation.
    ///
    /// * `PayloadSender` - *Sender* side of the stream
    ///
    /// * `Payload` - *Receiver* side of the stream
    pub fn create(cap: u32) -> (r: (PayloadSender, Payload))
        ensures
            r.1.wf(),
            r.1.chunks() == Seq::<Seq<u8>>::empty(),
            r.1.cap == cap,
            !r.1.eof,
            !r.1.dropped,
            r.1.err is None,
            r.1.stream is None,
    {
        let r = Payload {
            eof: false,
            dropped: false,
            cap,
            err: None,
            items: VecDeque::new(),
            stream: None,
        };
        assert(r.chunks() =~= Seq::<Seq<u8>>::empty());
        (PayloadSender, r)
    }

    /// Reads the next piece, and tells how much capacity is given back. The
    /// pieces come first, then a failure, then the end; a failure is told once.
    /// Capacity is given back until the stream ends: exactly that of the piece.
    pub fn poll_read(&mut self) -> (r: (PayloadPoll, u32))
        requires
            old(self).wf(),
        ensures
            final(self).wf(),
            final(self).cap + r.1 == old(self).cap,
            final(self).eof == old(self).eof,
            final(self).dropped == old(self).dropped,
            final(self).stream == old(self).stream,
            if old(self).chunks().len() > 0 {
                &&& r.0 matches PayloadPoll::Data(data)
                &&& data@ == old(self).chunks()[0]
                &&& old(self).bytes() == data@ + final(self).bytes()
                &&& final(self).chunks() == old(self).chunks().skip(1)
                &&& final(self).err == old(self).err
                &&& r.1 == (if old(self).eof {
                    0
                } else {
                    data@.len() as int
                })
            } else {
                &&& r.1 == 0
                &&& final(self).items@ == old(self).items@
                &&& final(self).err is None
                &&& match old(self).err {
                    Some(e) => r.0 == PayloadPoll::Failed(e),
                    None => if old(self).eof {
                        r.0 is Done
                    } else {
                        r.0 is Pending
                    },
                }
            },
    {
        let ghost items = self.items@;
        match self.items.pop_front() {
            Some(data) => {
                proof {
                    assert(items.skip(1) =~= self.items@);
                    assert(old(self).bytes() == data@ + self.bytes());
                    assert(self.chunks() =~= old(self).chunks().skip(1));
                }
                let mut given: u32 = 0;
                if !self.eof {
                    given = data.len() as u32;
                    self.cap = self.cap - given;
                }
                (PayloadPoll::Data(data), given)
            },
            None => {
                let poll = if let Some(err) = self.err.take() {
                    PayloadPoll::Failed(err)
                } else if self.eof {
                    PayloadPoll::Done
                } else {
                    PayloadPoll::Pending
                };
                (poll, 0)
            },
        }
    }

    /// The reader goes away.
    pub fn close(&mut self)
        requires
            old(self).wf(),
        ensures
            final(self).wf(),
            *final(self) == (Payload { dropped: true, ..*old(self) }),
    {
        self.dropped = true;
    }
}

impl PayloadSender {
    /// Fails the stream after what was sent.
    pub fn set_error(&self, shared: &mut Payload, err: PayloadError)
        requires
            old(shared).wf(),
        ensures
            final(shared).wf(),
            *final(shared) == (if old(shared).dropped {
                *old(shared)
            } else {
                Payload { err: Some(err), ..*old(shared) }
            }),
    {
        if !shared.dropped {
            shared.err = Some(err);
        }
    }

    /// Ends the stream with the given data.
    pub fn feed_eof(&self, shared: &mut Payload, data: Vec<u8>)
        requires
            old(shared).wf(),
        ensures
            final(shared).wf(),
            old(shared).dropped ==> *final(shared) == *old(shared),
            !old(shared).dropped ==> *final(shared) == (Payload {
                eof: true,
                items: final(shared).items,
                ..*old(shared)
            }) && final(shared).bytes() == old(shared).bytes() + data@ && final(shared).chunks()
                == (if data@.len() == 0 {
                old(shared).chunks()
            } else {
                old(shared).chunks().push(data@)
            }),
    {
        if !shared.dropped {
            shared.eof = true;
            if data.len() != 0 {
                proof {
                    piece_comes_last(shared.items@, data);
                    assert(pieces(shared.items@.push(data)) =~= pieces(shared.items@).push(data@));
                }
                shared.items.push_back(data);
            } else {
                assert(old(shared).bytes() + data@ =~= old(shared).bytes());
            }
        }
    }

    /// Sends data that takes the given capacity.
    pub fn feed_data(&self, shared: &mut Payload, data: Vec<u8>, cap: u32)
        requires
            old(shared).wf(),
            data@.len() <= cap,
            old(shared).cap + cap <= u32::MAX,
        ensures
            final(shared).wf(),
            old(shared).dropped ==> *final(shared) == *old(shared),
            !old(shared).dropped ==> *final(shared) == (Payload {
                cap: final(shared).cap,
                items: final(shared).items,
                ..*old(shared)
            }) && final(shared).cap == old(shared).cap + cap && final(shared).bytes() == old(
                shared).bytes() + data@ && final(shared).chunks() == old(shared).chunks().push(
                data@,
            ),
    {
        if !shared.dropped {
            shared.cap = shared.cap + cap;
            proof {
                piece_comes_last(shared.items@, data);
                assert(pieces(shared.items@.push(data)) =~= pieces(shared.items@).push(data@));
            }
            shared.items.push_back(data);
        }
    }

    /// Keeps a stream open for the reader.
    pub fn set_stream(&self, shared: &mut Payload, stream: Option<u32>)
        requires
            old(shared).wf(),
        ensures
            final(shared).wf(),
            *final(shared) == (if old(shared).dropped {
                *old(shared)
            } else {
                Payload { stream, ..*old(shared) }
            }),
    {
        if !shared.dropped {
            shared.stream = stream;
        }
    }

    /// The sender goes away: a stream that has not ended and not failed fails as
    /// incomplete after what was sent.
    pub fn close(&self, shared: &mut Payload)
        requires
            old(shared).wf(),
        ensures
            final(shared).wf(),
            *final(shared) == (if old(shared).dropped || old(shared).eof || old(shared).err is Some {
                *old(shared)
            } else {
                Payload { err: Some(PayloadError::Incomplete(None)), ..*old(shared) }
            }),
    {
        if !shared.eof && shared.err.is_none() {
            self.set_error(shared, PayloadError::Incomplete(None));
        }
    }

    /// Whether nobody waits for the data any more.
    pub fn on_cancel(&self, shared: &Payload) -> (r: bool)
        ensures
            r == shared.dropped,
    {
        shared.dropped
    }
}

} // verus!
