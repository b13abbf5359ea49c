//! Payload stream

use std::collections::VecDeque;

use vstd::prelude::*;

use crate::error::PayloadError;
use crate::payload::{buffered, piece_comes_last, pieces, PayloadPoll};

verus! {

/// max buffer size 32k
pub const MAX_BUFFER_SIZE: usize = 32_768;

/// What the reader of a payload stream wants.
#[derive(Debug, Copy, Clone, PartialEq, Eq, Structural)]
pub enum PayloadStatus {
    /// More data.
    Read,
    /// No more data for now.
    Pause,
    /// The reader is gone: data is dropped.
    Dropped,
}

/// Buffered stream of byte chunks
///
/// The first chunk can be received with `.readany()` method. The sender fills
/// the stream through a [`PayloadSender`].
#[derive(Debug)]
pub struct Payload {
    /// Number of buffered bytes.
    pub len: usize,
    /// No data follows what is buffered.
    pub eof: bool,
    /// The stream failed after what is buffered.
    pub err: Option<PayloadError>,
    /// The reader wants more data.
    pub need_read: bool,
    /// Buffered pieces.
    pub items: VecDeque<Vec<u8>>,
    /// The reader is gone.
    pub dropped: bool,
}

/// Sender part of the payload stream
#[derive(Debug, Copy, Clone, PartialEq, Eq, Structural)]
pub struct PayloadSender {
    /// The stream has not been ended by this side.
    pub linked: bool,
}

impl Payload {
    /// The length is that of the buffered pieces, and reading is paused only
    /// while the buffer is full.
    pub open spec fn wf(self) -> bool {
        &&& self.len == self.bytes().len()
        &&& !self.need_read ==> self.len >= MAX_BUFFER_SIZE
    }

    /// The buffered bytes.
    pub open spec fn bytes(self) -> Seq<u8> {
        buffered(self.items@)
    }

    /// The buffered pieces.
    pub open spec fn chunks(self) -> Seq<Seq<u8>> {
        pieces(self.items@)
    }

    /// A stream that holds the same but for its pieces.
    pub open spec fn same_but_items(self, other: Payload) -> bool {
        self.eof == other.eof && self.err == other.err && self.dropped == other.dropped
    }

    fn fresh(eof: bool) -> (r: Payload)
        ensures
            r.wf(),
            r.chunks() == Seq::<Seq<u8>>::empty(),
            r.bytes() == Seq::<u8>::empty(),
            r.eof == eof,
            r.err is None,
            r.need_read,
            !r.dropped,
    {
        let r = Payload {
            len: 0,
            eof,
            err: None,
            need_read: true,
            items: VecDeque::new(),
            dropped: false,
        };
        assert(r.chunks() =~= Seq::<Seq<u8>>::empty());
        r
    }

    /// Create payload stream.
    ///
    /// This method construct two objects responsible for bytes stream
    /// generation.
    ///
    /// * `PayloadSender` - *Sender* side of the stream
    ///
    /// * `Payload` - *Receiver* side of the stream
    pub fn create(eof: bool) -> (r: (PayloadSender, Payload))
        ensures
            r.0.linked,
            r.1.wf(),
            r.1.chunks() == Seq::<Seq<u8>>::empty(),
            r.1.eof == eof,
            r.1.err is None,
            r.1.need_read,
            !r.1.dropped,
    {
        (PayloadSender { linked: true }, Payload::fresh(eof))
    }

    /// Create empty payload
    pub fn empty() -> (r: Payload)
        ensures
            r.wf(),
            r.chunks() == Seq::<Seq<u8>>::empty(),
            r.eof,
            r.err is None,
            r.need_read,
            !r.dropped,
    {
        Payload::fresh(true)
    }

    /// Put unused data back to payload
    pub fn unread_data(&mut self, data: Vec<u8>)
        requires
            old(self).wf(),
            old(self).len + data@.len() <= usize::MAX,
        ensures
            final(self).wf(),
            final(self).chunks() == seq![data@] + old(self).chunks(),
            final(self).bytes() == data@ + old(self).bytes(),
            final(self).need_read == old(self).need_read,
            final(self).same_but_items(*old(self)),
    {
        self.len = self.len + data.len();
        self.items.push_front(data);
        proof {
            assert(self.items@[0] == data);
            assert(self.items@.skip(1) =~= old(self).items@);
            assert(self.chunks() =~= seq![data@] + old(self).chunks());
        }
    }

    fn feed_data(&mut self, data: Vec<u8>)
        requires
            old(self).wf(),
            old(self).len + data@.len() <= usize::MAX,
        ensures
            final(self).wf(),
            final(self).chunks() == old(self).chunks().push(data@),
            final(self).bytes() == old(self).bytes() + data@,
            final(self).need_read == (final(self).len < MAX_BUFFER_SIZE),
            final(self).same_but_items(*old(self)),
    {
        self.len = self.len + data.len();
        proof {
            piece_comes_last(old(self).items@, data);
            assert(pieces(old(self).items@.push(data)) =~= old(self).chunks().push(data@));
        }
        self.items.push_back(data);
        self.need_read = self.len < MAX_BUFFER_SIZE;
    }

    /// Reads the next piece. The pieces come first, then a failure, then the
    /// end; a failure is told once.
    pub fn readany(&mut self) -> (r: PayloadPoll)
        requires
            old(self).wf(),
        ensures
            final(self).wf(),
            if old(self).chunks().len() > 0 {
                &&& r matches PayloadPoll::Data(data)
                &&& data@ == old(self).chunks()[0]
                &&& old(self).bytes() == data@ + final(self).bytes()
                &&& final(self).chunks() == old(self).chunks().skip(1)
                &&& final(self).need_read == (final(self).len < MAX_BUFFER_SIZE)
                &&& final(self).same_but_items(*old(self))
            } else if old(self).err is Some {
                &&& r == PayloadPoll::Failed(old(self).err->0)
                &&& *final(self) == (Payload { err: None, items: final(self).items, ..*old(self) })
                &&& final(self).items@ == old(self).items@
            } else if old(self).eof {
                &&& r is Done
                &&& *final(self) == (Payload { items: final(self).items, ..*old(self) })
                &&& final(self).items@ == old(self).items@
            } else {
                &&& r is Pending
                &&& *final(self) == (Payload {
                    need_read: true,
                    items: final(self).items,
                    ..*old(self)
                })
                &&& final(self).items@ == old(self).items@
            },
    {
        let ghost items = self.items@;
        match self.items.pop_front() {
            Some(data) => {
                proof {
                    assert(items.skip(1) =~= self.items@);
                    assert(old(self).bytes() == data@ + self.bytes());
                    assert(self.chunks() =~= old(self).chunks().skip(1));
                }
                self.len = self.len - data.len();
                self.need_read = self.len < MAX_BUFFER_SIZE;
                PayloadPoll::Data(data)
            },
            None => {
                if let Some(err) = self.err.take() {
                    PayloadPoll::Failed(err)
                } else if self.eof {
                    PayloadPoll::Done
                } else {
                    self.need_read = true;
                    PayloadPoll::Pending
                }
            },
        }
    }

    /// The reader goes away.
    pub fn close(&mut self)
        requires
            old(self).wf(),
        ensures
            final(self).wf(),
            *final(self) == (Payload { dropped: true, ..*old(self) }),
    {
        self.dropped = true;
    }
}

impl PayloadSender {
    /// Whether the sender still reaches the stream.
    pub open spec fn reaches(self, shared: Payload) -> bool {
        self.linked && !shared.dropped
    }

    /// Fails the stream after what was sent, and lets go of it.
    pub fn set_error(&mut self, shared: &mut Payload, err: PayloadError)
        requires
            old(shared).wf(),
        ensures
            final(shared).wf(),
            old(self).reaches(*old(shared)) ==> *final(shared) == (Payload {
                err: Some(err),
                ..*old(shared)
            }) && !final(self).linked,
            !old(self).reaches(*old(shared)) ==> *final(shared) == *old(shared) && *final(self)
                == *old(self),
    {
        if self.linked && !shared.dropped {
            shared.err = Some(err);
            self.linked = false;
        }
    }

    /// Ends the stream after what was sent, and lets go of it.
    pub fn feed_eof(&mut self, shared: &mut Payload)
        requires
            old(shared).wf(),
        ensures
            final(shared).wf(),
            old(self).reaches(*old(shared)) ==> *final(shared) == (Payload {
                eof: true,
                ..*old(shared)
            }) && !final(self).linked,
            !old(self).reaches(*old(shared)) ==> *final(shared) == *old(shared) && *final(self)
                == *old(self),
    {
        if self.linked && !shared.dropped {
            shared.eof = true;
            self.linked = false;
        }
    }

    /// Sends data.
    pub fn feed_data(&mut self, shared: &mut Payload, data: Vec<u8>)
        requires
            old(shared).wf(),
            old(shared).len + data@.len() <= usize::MAX,
        ensures
            final(shared).wf(),
            *final(self) == *old(self),
            old(self).reaches(*old(shared)) ==> final(shared).chunks() == old(shared).chunks().push(data@) && final(shared).bytes() == old(shared).bytes() + data@
                && final(shared).need_read == (final(shared).len < MAX_BUFFER_SIZE) && final(shared).same_but_items(*old(shared)),
            !old(self).reaches(*old(shared)) ==> *final(shared) == *old(shared),
    {
        if self.linked && !shared.dropped {
            shared.feed_data(data);
        }
    }

    /// The sender goes away: a stream that was not ended is incomplete.
    pub fn close(&mut self, shared: &mut Payload)
        requires
            old(shared).wf(),
        ensures
            final(shared).wf(),
            old(self).reaches(*old(shared)) ==> *final(shared) == (Payload {
                err: Some(PayloadError::Incomplete(None)),
                ..*old(shared)
            }) && !final(self).linked,
            !old(self).reaches(*old(shared)) ==> *final(shared) == *old(shared) && *final(self)
                == *old(self),
    {
        self.set_error(shared, PayloadError::Incomplete(None));
    }

    /// What the reader wants. Where nobody reads, data is dropped.
    pub fn poll_data_required(&self, shared: &Payload) -> (r: PayloadStatus)
        ensures
            r == (if !self.reaches(*shared) {
                PayloadStatus::Dropped
            } else if shared.need_read {
                PayloadStatus::Read
            } else {
                PayloadStatus::Pause
            }),
    {
        // we check only if Payload (other side) is alive,
        // otherwise always return true (consume payload)
        if self.linked && !shared.dropped {
            if shared.need_read {
                PayloadStatus::Read
            } else {
                PayloadStatus::Pause
            }
        } else {
            PayloadStatus::Dropped
        }
    }
}

} // verus!
