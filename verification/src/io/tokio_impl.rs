//! Tasks that read from and write to a socket.

use vstd::prelude::*;

use crate::error::{IoError, IoErrorKind};
use crate::io::WriteReadiness;
use crate::time::Seconds;

verus! {

/// A TCP socket, by its id.
#[derive(Debug, Copy, Clone, PartialEq, Eq, Structural)]
pub struct TcpStream(pub u64);

/// What reading from a socket gave.
#[derive(Debug)]
pub enum ReadEvent {
    /// Nothing yet.
    Pending,
    /// A number of bytes, 0 where the peer has ended.
    Data(usize),
    /// The socket failed.
    Failed(IoError),
}

/// What a read task does next.
#[derive(Debug)]
pub enum ReadStep {
    /// Reads on.
    Again,
    /// Gives the buffer back, and waits.
    Wait,
    /// Gives the buffer back, and closes.
    Close(Option<IoError>),
}

/// Read io task
#[derive(Debug, Copy, Clone, PartialEq, Eq, Structural)]
pub struct ReadTask {
    /// Number of bytes that were read in this turn.
    pub new_bytes: usize,
}

impl ReadTask {
    /// A turn in which nothing was read.
    pub fn new() -> (r: ReadTask)
        ensures
            r.new_bytes == 0,
    {
        ReadTask { new_bytes: 0 }
    }

    /// How much room is made in a buffer before it is read to.
    pub fn room(remaining: usize, low: usize, high: usize) -> (r: Option<usize>)
        requires
            low <= high,
        ensures
            r == (if remaining < low {
                Some((high - remaining) as usize)
            } else {
                None
            }),
    {
        if remaining < low {
            Some(high - remaining)
        } else {
            None
        }
    }

    /// The socket was read; `len` is the length of the buffer with what came. A
    /// buffer over its limit is handed on before more is read.
    pub fn on_read(&mut self, ev: ReadEvent, len: usize, high: usize) -> (r: ReadStep)
        requires
            ev matches ReadEvent::Data(n) ==> old(self).new_bytes + n <= usize::MAX,
        ensures
            match ev {
                ReadEvent::Pending => r is Wait && *final(self) == *old(self),
                ReadEvent::Failed(e) => r == ReadStep::Close(Some(e)) && *final(self) == *old(self),
                ReadEvent::Data(n) => {
                    &&& final(self).new_bytes == old(self).new_bytes + n
                    &&& if n == 0 {
                        r == ReadStep::Close(None)
                    } else if len > high {
                        r is Wait
                    } else {
                        r is Again
                    }
                },
            },
    {
        match ev {
            ReadEvent::Pending => ReadStep::Wait,
            ReadEvent::Failed(e) => ReadStep::Close(Some(e)),
            ReadEvent::Data(n) => {
                if n == 0 {
                    ReadStep::Close(None)
                } else {
                    self.new_bytes = self.new_bytes + n;
                    if len > high {
                        ReadStep::Wait
                    } else {
                        ReadStep::Again
                    }
                }
            },
        }
    }
}

/// What writing to a socket gave.
#[derive(Debug)]
pub enum WriteEvent {
    /// Nothing yet.
    Pending,
    /// A number of bytes were written.
    Wrote(usize),
    /// The socket failed.
    Failed(IoError),
}

/// What a flush does next.
#[derive(Debug)]
pub enum FlushStep {
    /// Writes what is left.
    Again,
    /// Everything is written.
    Flushed,
    /// Waits; these bytes are left.
    Pending(Vec<u8>),
    /// Closes.
    Close(IoError),
}

/// A flush of a write buffer.
#[derive(Debug)]
pub struct FlushTask {
    /// The buffer.
    pub buf: Vec<u8>,
    /// Number of bytes that were written.
    pub written: usize,
}

impl FlushTask {
    /// No more was written than there is.
    pub open spec fn wf(self) -> bool {
        self.written <= self.buf@.len()
    }

    /// The bytes that are left.
    pub open spec fn left(self) -> Seq<u8> {
        self.buf@.skip(self.written as int)
    }

    /// Starts a flush. `None` where there is nothing to write.
    pub fn new(buf: Vec<u8>) -> (r: Option<FlushTask>)
        ensures
            r is None <==> buf@.len() == 0,
            r matches Some(f) ==> f.wf() && f.left() == buf@ && f.buf == buf && f.written == 0,
    {
        if buf.len() == 0 {
            None
        } else {
            let f = FlushTask { buf, written: 0 };
            assert(f.left() =~= f.buf@);
            Some(f)
        }
    }

    /// What is left was written to the socket, or not. Bytes are written once and
    /// in their order.
    pub fn on_write(&mut self, ev: WriteEvent) -> (r: FlushStep)
        requires
            old(self).wf(),
            ev matches WriteEvent::Wrote(n) ==> n <= old(self).left().len(),
        ensures
            final(self).wf(),
            match ev {
                WriteEvent::Failed(e) => r == FlushStep::Close(e) && *final(self) == *old(self),
                WriteEvent::Pending => r matches FlushStep::Pending(left) && left@ == old(
                    self).left(),
                WriteEvent::Wrote(n) => if n == 0 {
                    &&& r matches FlushStep::Close(e)
                    &&& e.kind == IoErrorKind::WriteZero
                    &&& e.text@ == "failed to write frame to transport"@
                    &&& *final(self) == *old(self)
                } else {
                    &&& final(self).buf == old(self).buf
                    &&& final(self).left() == old(self).left().skip(n as int)
                    &&& if n == old(self).left().len() {
                        r is Flushed
                    } else {
                        r is Again
                    }
                },
            },
    {
        match ev {
            WriteEvent::Failed(e) => FlushStep::Close(e),
            WriteEvent::Pending => {
                let left = self.buf.split_off(self.written);
                assert(left@ =~= old(self).left());
                FlushStep::Pending(left)
            },
            WriteEvent::Wrote(n) => {
                if n == 0 {
                    FlushStep::Close(
                        IoError {
                            kind: IoErrorKind::WriteZero,
                            text: "failed to write frame to transport".to_owned(),
                        },
                    )
                } else {
                    let len: usize = self.buf.len();
                    assert(self.written + n <= len);
                    self.written = self.written + n;
                    assert(self.left() =~= old(self).left().skip(n as int));
                    if self.written == len {
                        FlushStep::Flushed
                    } else {
                        FlushStep::Again
                    }
                }
            },
        }
    }
}

/// How far a write task is.
#[derive(Debug, Copy, Clone, PartialEq, Eq, Structural)]
pub enum WriteStage {
    /// Writes.
    Processing,
    /// Flushes what is left.
    Flushing,
    /// Closes the writing side.
    Flushed,
    /// Waits for the peer to end.
    Stopping,
}

/// What a write task does next.
#[derive(Debug)]
pub enum WriteStep {
    /// Looks at what the task is told to do.
    Ready,
    /// Flushes the write buffer.
    Flush,
    /// Closes the writing side.
    ShutdownWrite,
    /// Reads until the peer ends.
    Drain,
    /// Looks at the time that the shutdown may take.
    CheckDelay,
    /// Waits.
    Wait,
    /// Starts the time that the shutdown may take, and flushes.
    StartShutdown(Option<Seconds>),
    /// Closes the socket at once.
    Terminate,
    /// Closes.
    Close(Option<IoError>),
    /// Stops.
    Stop,
}

/// Write io task
#[derive(Debug, Copy, Clone, PartialEq, Eq, Structural)]
pub struct WriteTask {
    pub st: WriteStage,
}

impl WriteTask {
    /// A task that writes.
    pub fn new() -> (r: WriteTask)
        ensures
            r.st == WriteStage::Processing,
    {
        WriteTask { st: WriteStage::Processing }
    }

    /// The task is woken: it takes up what it was at.
    pub fn on_wake(&self) -> (r: WriteStep)
        ensures
            match self.st {
                WriteStage::Processing => r is Ready,
                WriteStage::Flushing => r is Flush,
                WriteStage::Flushed => r is ShutdownWrite,
                WriteStage::Stopping => r is Drain,
            },
    {
        match self.st {
            WriteStage::Processing => WriteStep::Ready,
            WriteStage::Flushing => WriteStep::Flush,
            WriteStage::Flushed => WriteStep::ShutdownWrite,
            WriteStage::Stopping => WriteStep::Drain,
        }
    }

    /// The task is told what to do while it writes: `None` waits, `Some(Ok)`
    /// writes. The given time is that for a shutdown, 0 for none.
    pub fn on_ready(&mut self, ready: Option<Result<(), WriteReadiness>>, timeout: Seconds) -> (r:
        WriteStep)
        requires
            old(self).st == WriteStage::Processing,
        ensures
            match ready {
                None => r is Wait && *final(self) == *old(self),
                Some(Ok(_)) => r is Flush && *final(self) == *old(self),
                Some(Err(WriteReadiness::Shutdown)) => {
                    &&& final(self).st == WriteStage::Flushing
                    &&& r == WriteStep::StartShutdown(
                        if timeout.0 == 0 {
                            None
                        } else {
                            Some(timeout)
                        },
                    )
                },
                Some(Err(WriteReadiness::Terminate)) => r is Terminate && *final(self) == *old(
                    self),
            },
    {
        match ready {
            None => WriteStep::Wait,
            Some(Ok(())) => WriteStep::Flush,
            Some(Err(WriteReadiness::Shutdown)) => {
                self.st = WriteStage::Flushing;
                WriteStep::StartShutdown(
                    if timeout.is_zero() {
                        None
                    } else {
                        Some(timeout)
                    },
                )
            },
            Some(Err(WriteReadiness::Terminate)) => WriteStep::Terminate,
        }
    }

    /// The write buffer was flushed: `None` where bytes are left, `Some(false)`
    /// where the socket was closed.
    pub fn on_flush(&mut self, res: Option<bool>) -> (r: WriteStep)
        requires
            old(self).st == WriteStage::Processing || old(self).st == WriteStage::Flushing,
        ensures
            match res {
                Some(false) => r is Stop && *final(self) == *old(self),
                Some(true) => if old(self).st == WriteStage::Flushing {
                    r is ShutdownWrite && final(self).st == WriteStage::Flushed
                } else {
                    r is Wait && *final(self) == *old(self)
                },
                None => *final(self) == *old(self) && if old(self).st == WriteStage::Flushing {
                    r is CheckDelay
                } else {
                    r is Wait
                },
            },
    {
        match res {
            Some(false) => WriteStep::Stop,
            Some(true) => {
                if self.st == WriteStage::Flushing {
                    self.st = WriteStage::Flushed;
                    WriteStep::ShutdownWrite
                } else {
                    WriteStep::Wait
                }
            },
            None => {
                if self.st == WriteStage::Flushing {
                    WriteStep::CheckDelay
                } else {
                    WriteStep::Wait
                }
            },
        }
    }

    /// The writing side was closed: `None` where it is not yet.
    pub fn on_shutdown(&mut self, res: Option<Result<(), IoError>>) -> (r: WriteStep)
        requires
            old(self).st == WriteStage::Flushed,
        ensures
            match res {
                None => r is CheckDelay && *final(self) == *old(self),
                Some(Ok(_)) => r is Drain && final(self).st == WriteStage::Stopping,
                Some(Err(e)) => r == WriteStep::Close(Some(e)) && *final(self) == *old(self),
            },
    {
        match res {
            None => WriteStep::CheckDelay,
            Some(Ok(())) => {
                self.st = WriteStage::Stopping;
                WriteStep::Drain
            },
            Some(Err(e)) => WriteStep::Close(Some(e)),
        }
    }

    /// The socket was read until the peer ends. What comes is dropped.
    pub fn on_drain(&self, ev: ReadEvent) -> (r: WriteStep)
        requires
            self.st == WriteStage::Stopping,
        ensures
            match ev {
                ReadEvent::Pending => r is CheckDelay,
                ReadEvent::Failed(e) => r == WriteStep::Close(Some(e)),
                ReadEvent::Data(n) => if n == 0 {
                    r == WriteStep::Close(None)
                } else {
                    r is Drain
                },
            },
    {
        match ev {
            ReadEvent::Pending => WriteStep::CheckDelay,
            ReadEvent::Failed(e) => WriteStep::Close(Some(e)),
            ReadEvent::Data(n) => {
                if n == 0 {
                    WriteStep::Close(None)
                } else {
                    WriteStep::Drain
                }
            },
        }
    }

    /// The time that the shutdown may take: `None` where there is none,
    /// `Some(false)` where it is not over. The socket is never waited for
    /// without end.
    pub fn on_delay(&self, elapsed: Option<bool>) -> (r: WriteStep)
        requires
            self.st != WriteStage::Processing,
        ensures
            if elapsed == Some(false) {
                r is Wait
            } else {
                r == WriteStep::Close(None)
            },
    {
        match elapsed {
            Some(false) => WriteStep::Wait,
            _ => WriteStep::Close(None),
        }
    }
}

} // verus!
