//! State of a connection.

use slab::Slab;
use vstd::prelude::*;

use crate::error::{IoError, IoErrorKind};
use crate::io::listeners::{
    all_notified, no_items, notify_all, slab_get, slab_insert, slab_items, slab_new, slab_remove,
    slab_set, Listener,
};
use crate::text::put_bytes;
use crate::time::Seconds;

verus! {

/// Marks of a connection.
#[derive(Debug, Copy, Clone, PartialEq, Eq, Structural)]
pub struct Flags {
    /// io error occured
    pub io_err: bool,
    /// stop io tasks
    pub io_stop: bool,
    /// shutdown io tasks
    pub io_shutdown: bool,
    /// pause io read
    pub rd_paused: bool,
    /// new data is available
    pub rd_ready: bool,
    /// read buffer is full
    pub rd_buf_full: bool,
    /// wait write completion
    pub wr_wait: bool,
    /// write buffer is full
    pub wr_backpressure: bool,
    /// dispatcher is marked stopped
    pub dsp_stop: bool,
    /// keep-alive timeout occured
    pub dsp_keepalive: bool,
    /// dispatcher returned error
    pub dsp_err: bool,
}

/// No marks.
pub open spec fn no_marks() -> Flags {
    Flags {
        io_err: false,
        io_stop: false,
        io_shutdown: false,
        rd_paused: false,
        rd_ready: false,
        rd_buf_full: false,
        wr_wait: false,
        wr_backpressure: false,
        dsp_stop: false,
        dsp_keepalive: false,
        dsp_err: false,
    }
}

impl Flags {
    /// No marks.
    pub fn empty() -> (r: Flags)
        ensures
            r == no_marks(),
    {
        Flags {
            io_err: false,
            io_stop: false,
            io_shutdown: false,
            rd_paused: false,
            rd_ready: false,
            rd_buf_full: false,
            wr_wait: false,
            wr_backpressure: false,
            dsp_stop: false,
            dsp_keepalive: false,
            dsp_err: false,
        }
    }
}

/// Tasks that are woken up.
#[derive(Debug, Copy, Clone, PartialEq, Eq, Structural)]
pub struct Wake {
    pub read: bool,
    pub write: bool,
    pub dispatch: bool,
}

/// Nobody is woken up.
pub open spec fn no_wake() -> Wake {
    Wake { read: false, write: false, dispatch: false }
}

/// Sizes of the buffers of a memory pool.
#[derive(Debug, Copy, Clone, PartialEq, Eq, Structural)]
pub struct MemoryPool {
    /// A read buffer of this size is full.
    pub read_high: usize,
    /// A write buffer of this size is full.
    pub write_high: usize,
}

/// State of a connection.
#[derive(Debug)]
pub struct IoState {
    pub flags: Flags,
    pub pool: MemoryPool,
    pub disconnect_timeout: Seconds,
    pub error: Option<IoError>,
    pub read_buf: Vec<u8>,
    pub write_buf: Vec<u8>,
    pub on_disconnect: Slab<Listener>,
}

/// What follows once new data came.
#[derive(Debug)]
pub enum NextStep {
    /// Decodes again.
    Again,
    /// The connection has ended.
    End,
    /// The connection failed.
    Failed(IoError),
}

impl IoState {
    /// Create `State` instance with specific memory pool.
    pub fn with_memory_pool(pool: MemoryPool) -> (r: IoState)
        ensures
            r.flags == no_marks(),
            r.pool == pool,
            r.disconnect_timeout == Seconds(1),
            r.error is None,
            r.read_buf@.len() == 0,
            r.write_buf@.len() == 0,
            slab_items(r.on_disconnect) == no_items(),
    {
        IoState {
            flags: Flags::empty(),
            pool,
            disconnect_timeout: Seconds(1),
            error: None,
            read_buf: Vec::new(),
            write_buf: Vec::new(),
            on_disconnect: slab_new(),
        }
    }

    /// Set memory pool
    pub fn set_memory_pool(&mut self, pool: MemoryPool)
        ensures
            *final(self) == (IoState { pool, ..*old(self) }),
    {
        self.pool = pool;
    }

    /// Set io disconnect timeout in secs
    pub fn set_disconnect_timeout(&mut self, timeout: Seconds)
        ensures
            *final(self) == (IoState { disconnect_timeout: timeout, ..*old(self) }),
    {
        self.disconnect_timeout = timeout;
    }

    /// Get current state flags
    pub fn flags(&self) -> (r: Flags)
        ensures
            r == self.flags,
    {
        self.flags
    }

    /// Get memory pool
    pub fn memory_pool(&self) -> (r: MemoryPool)
        ensures
            r == self.pool,
    {
        self.pool
    }

    /// Check if io error occured in read or write task
    pub fn is_io_err(&self) -> (r: bool)
        ensures
            r == self.flags.io_err,
    {
        self.flags.io_err
    }

    /// Check if keep-alive timeout occured
    pub fn is_keepalive(&self) -> (r: bool)
        ensures
            r == self.flags.dsp_keepalive,
    {
        self.flags.dsp_keepalive
    }

    /// Check if dispatcher marked stopped
    pub fn is_dispatcher_stopped(&self) -> (r: bool)
        ensures
            r == self.flags.dsp_stop,
    {
        self.flags.dsp_stop
    }

    /// Check if io is still active
    pub fn is_open(&self) -> (r: bool)
        ensures
            r == !(self.flags.io_err || self.flags.io_shutdown || self.flags.dsp_stop),
    {
        !(self.flags.io_err || self.flags.io_shutdown || self.flags.dsp_stop)
    }

    /// Stop io tasks
    ///
    /// Wake dispatcher when read or write task is stopped.
    pub fn stop_io(&mut self) -> (r: Wake)
        ensures
            if old(self).flags.io_err || old(self).flags.io_stop {
                *final(self) == *old(self) && r == no_wake()
            } else {
                &&& *final(self) == (IoState {
                    flags: Flags { io_stop: true, ..old(self).flags },
                    ..*old(self)
                })
                &&& r == (Wake { read: true, write: true, dispatch: false })
            },
    {
        if !(self.flags.io_err || self.flags.io_stop) {
            self.flags.io_stop = true;
            Wake { read: true, write: true, dispatch: false }
        } else {
            Wake { read: false, write: false, dispatch: false }
        }
    }

    /// Gracefully shutdown read and write io tasks
    pub fn shutdown_io(&mut self) -> (r: Wake)
        ensures
            if old(self).flags.io_err || old(self).flags.io_shutdown || old(self).flags.io_stop {
                *final(self) == *old(self) && r == no_wake()
            } else {
                &&& *final(self) == (IoState {
                    flags: Flags { io_shutdown: true, ..old(self).flags },
                    ..*old(self)
                })
                &&& r == (Wake { read: true, write: true, dispatch: false })
            },
    {
        if !(self.flags.io_err || self.flags.io_shutdown || self.flags.io_stop) {
            self.flags.io_shutdown = true;
            Wake { read: true, write: true, dispatch: false }
        } else {
            Wake { read: false, write: false, dispatch: false }
        }
    }

    /// Take io error if any occured
    pub fn take_io_error(&mut self) -> (r: Option<IoError>)
        ensures
            r == old(self).error,
            *final(self) == (IoState { error: None, ..*old(self) }),
    {
        self.error.take()
    }

    /// Reset keep-alive error
    pub fn reset_keepalive(&mut self)
        ensures
            *final(self) == (IoState {
                flags: Flags { dsp_keepalive: false, ..old(self).flags },
                ..*old(self)
            }),
    {
        self.flags.dsp_keepalive = false;
    }

    /// Mark dispatcher as stopped
    pub fn dispatcher_stopped(&mut self)
        ensures
            *final(self) == (IoState {
                flags: Flags { dsp_stop: true, ..old(self).flags },
                ..*old(self)
            }),
    {
        self.flags.dsp_stop = true;
    }

    /// Gracefully close connection
    ///
    /// First stop dispatcher, then dispatcher stops io tasks
    pub fn close(&mut self) -> (r: Wake)
        ensures
            *final(self) == (IoState {
                flags: Flags { dsp_stop: true, ..old(self).flags },
                ..*old(self)
            }),
            r == (Wake { read: false, write: false, dispatch: true }),
    {
        self.flags.dsp_stop = true;
        Wake { read: false, write: false, dispatch: true }
    }

    /// Force close connection
    ///
    /// Dispatcher does not wait for uncompleted responses, but flushes io buffers.
    pub fn force_close(&mut self) -> (r: Wake)
        ensures
            *final(self) == (IoState {
                flags: Flags { dsp_stop: true, io_shutdown: true, ..old(self).flags },
                ..*old(self)
            }),
            r == (Wake { read: true, write: true, dispatch: true }),
    {
        self.flags.dsp_stop = true;
        self.flags.io_shutdown = true;
        Wake { read: true, write: true, dispatch: true }
    }

    /// Get api for read task
    pub fn read(&self) -> (r: Read)
        ensures
            r == Read,
    {
        Read
    }

    /// Get api for write task
    pub fn write(&self) -> (r: Write)
        ensures
            r == Write,
    {
        Write
    }

    /// Get writer
    pub fn write_handle(&self) -> (r: WriteHandle)
        ensures
            r == WriteHandle,
    {
        WriteHandle
    }

    /// Notify when socket get disconnected
    pub fn on_disconnect(&mut self) -> (r: OnDisconnect)
        ensures
            !slab_items(old(self).on_disconnect).contains_key(r.token),
            slab_items(final(self).on_disconnect) == slab_items(old(self).on_disconnect).insert(
                r.token,
                if old(self).flags.io_err {
                    Listener::Notified
                } else {
                    Listener::Idle
                },
            ),
            *final(self) == (IoState { on_disconnect: final(self).on_disconnect, ..*old(self) }),
    {
        let listener = if self.flags.io_err {
            Listener::Notified
        } else {
            Listener::Idle
        };
        OnDisconnect { token: slab_insert(&mut self.on_disconnect, listener) }
    }

    /// Tells those who wait for the end of the connection.
    pub fn notify_disconnect(&mut self)
        ensures
            all_notified(
                slab_items(old(self).on_disconnect),
                slab_items(final(self).on_disconnect),
            ),
            *final(self) == (IoState { on_disconnect: final(self).on_disconnect, ..*old(self) }),
    {
        notify_all(&mut self.on_disconnect);
    }

    /// New data came while an item was waited for.
    pub fn next(&mut self) -> (r: NextStep)
        ensures
            if old(self).flags.io_err {
                &&& *final(self) == (IoState { error: None, ..*old(self) })
                &&& match old(self).error {
                    Some(e) => r == NextStep::Failed(e),
                    None => r is End,
                }
            } else {
                *final(self) == *old(self) && r is Again
            },
    {
        if self.flags.io_err {
            match self.error.take() {
                Some(e) => NextStep::Failed(e),
                None => NextStep::End,
            }
        } else {
            NextStep::Again
        }
    }

    /// What the codec made of the read buffer: an item, or a failure, is handed
    /// on; otherwise reading goes on.
    pub fn poll_next<T, U>(&mut self, item: Result<Option<T>, U>) -> (r: (
        Option<Result<T, U>>,
        Wake,
    ))
        ensures
            match item {
                Ok(None) => {
                    &&& r.0 is None
                    &&& r.1 == (Wake {
                        read: old(self).flags.rd_buf_full || old(self).flags.rd_paused,
                        write: false,
                        dispatch: false,
                    })
                    &&& *final(self) == (IoState {
                        flags: Flags {
                            rd_ready: false,
                            rd_buf_full: false,
                            rd_paused: false,
                            ..old(self).flags
                        },
                        ..*old(self)
                    })
                },
                Ok(Some(el)) => r == (Some(Ok::<T, U>(el)), no_wake()) && *final(self) == *old(
                    self,
                ),
                Err(e) => r == (Some(Err::<T, U>(e)), no_wake()) && *final(self) == *old(self),
            },
    {
        match item {
            Ok(Some(el)) => (Some(Ok(el)), Wake { read: false, write: false, dispatch: false }),
            Ok(None) => {
                let wake = self.read().wake(self);
                (None, wake)
            },
            Err(e) => (Some(Err(e)), Wake { read: false, write: false, dispatch: false }),
        }
    }

    /// An item was encoded to these bytes: they are sent, and their end is
    /// waited for.
    pub fn send(&mut self, bytes: &[u8]) -> (r: Wake)
        ensures
            final(self).write_buf@ == old(self).write_buf@ + bytes@,
            *final(self) == (IoState {
                flags: Flags { wr_wait: true, ..old(self).flags },
                write_buf: final(self).write_buf,
                ..*old(self)
            }),
            r == (Wake { read: false, write: old(self).write_buf@.len() == 0, dispatch: false }),
    {
        let asleep = self.write_buf.len() == 0;
        put_bytes(&mut self.write_buf, bytes);
        self.flags.wr_wait = true;
        Wake { read: false, write: asleep, dispatch: false }
    }

    /// Whether what was sent is written: `None` where it is not yet.
    pub fn poll_sent(&mut self) -> (r: Option<Result<(), IoError>>)
        ensures
            if old(self).flags.io_err {
                &&& *final(self) == (IoState { error: None, ..*old(self) })
                &&& r matches Some(Err(e))
                &&& match old(self).error {
                    Some(err) => e == err,
                    None => e.kind == IoErrorKind::Other && e.text@ == "Internal error"@,
                }
            } else {
                &&& *final(self) == *old(self)
                &&& if old(self).flags.wr_wait {
                    r is None
                } else {
                    r == Some(Ok::<(), IoError>(()))
                }
            },
    {
        if self.flags.io_err {
            match self.error.take() {
                Some(e) => Some(Err(e)),
                None => Some(
                    Err(IoError { kind: IoErrorKind::Other, text: "Internal error".to_owned() }),
                ),
            }
        } else if self.flags.wr_wait {
            None
        } else {
            Some(Ok(()))
        }
    }
}

/// Access to the writing side of a connection.
#[derive(Debug, Copy, Clone, PartialEq, Eq, Structural)]
pub struct WriteHandle;

impl WriteHandle {
    /// Get api for write task
    pub fn get(&self) -> (r: Write)
        ensures
            r == Write,
    {
        Write
    }
}

/// The writing side of a connection.
#[derive(Debug, Copy, Clone, PartialEq, Eq, Structural)]
pub struct Write;

/// The outcome of writing an item or an error of the dispatcher.
#[derive(Debug)]
pub enum EncodeFault<E, U> {
    /// The dispatcher failed.
    Dispatcher(E),
    /// The item could not be encoded.
    Encoder(U),
}

impl Write {
    /// Check if write task is ready
    pub fn is_ready(&self, st: &IoState) -> (r: bool)
        ensures
            r == !st.flags.wr_backpressure,
    {
        !st.flags.wr_backpressure
    }

    /// Check if write buffer is full
    pub fn is_full(&self, st: &IoState) -> (r: bool)
        ensures
            r == (st.write_buf@.len() > 0 && st.write_buf@.len() >= st.pool.write_high),
    {
        st.write_buf.len() > 0 && st.write_buf.len() >= st.pool.write_high
    }

    /// Wait until write task flushes data to io stream
    ///
    /// Write task must be waken up separately.
    pub fn enable_backpressure(&self, st: &mut IoState)
        ensures
            *final(st) == (IoState {
                flags: Flags { wr_backpressure: true, ..old(st).flags },
                ..*old(st)
            }),
    {
        st.flags.wr_backpressure = true;
    }

    /// Whether an item is encoded at all: not where the connection is gone.
    pub fn can_encode(&self, st: &IoState) -> (r: bool)
        ensures
            r == !(st.flags.io_err || st.flags.io_shutdown),
    {
        !(st.flags.io_err || st.flags.io_shutdown)
    }

    /// Get mut access to write buffer. The write task is woken where it had
    /// nothing to write.
    pub fn with_buf<F, R>(&self, st: &mut IoState, f: F) -> (r: (R, Wake)) where
        F: FnOnce(&mut Vec<u8>) -> R,

        requires
            forall|buf: &mut Vec<u8>| *buf == old(st).write_buf ==> #[trigger] f.requires((buf,)),
        ensures
            exists|buf: &mut Vec<u8>| #[trigger]
                f.ensures((buf,), r.0) && *buf == old(st).write_buf && *final(buf) == final(
                    st).write_buf,
            *final(st) == (IoState { write_buf: final(st).write_buf, ..*old(st) }),
            r.1 == (Wake { read: false, write: old(st).write_buf@.len() == 0, dispatch: false }),
    {
        let asleep = st.write_buf.len() == 0;
        let res = f(&mut st.write_buf);
        let r = (res, Wake { read: false, write: asleep, dispatch: false });
        assert(r.0 == res);
        r
    }

    /// Write item to a buffer and wake up write task
    ///
    /// `bytes` is what the codec made of the item and `res` whether it was
    /// complete. Returns write buffer state, false is returned if write buffer
    /// if full.
    pub fn encode<U>(&self, st: &mut IoState, bytes: &[u8], res: Result<(), U>) -> (r: (
        Result<bool, U>,
        Wake,
    ))
        ensures
            if old(st).flags.io_err || old(st).flags.io_shutdown {
                *final(st) == *old(st) && r == (Ok::<bool, U>(true), no_wake())
            } else {
                &&& final(st).write_buf@ == old(st).write_buf@ + bytes@
                &&& *final(st) == (IoState { write_buf: final(st).write_buf, ..*old(st) })
                &&& match res {
                    Ok(_) => r.0 == Ok::<bool, U>(
                        final(st).write_buf@.len() < old(st).pool.write_high,
                    ) && r.1 == (Wake {
                        read: false,
                        write: old(st).write_buf@.len() == 0,
                        dispatch: false,
                    }),
                    Err(e) => r.0 == Err::<bool, U>(e) && r.1 == no_wake(),
                }
            },
    {
        if !(st.flags.io_err || st.flags.io_shutdown) {
            let asleep = st.write_buf.len() == 0;
            put_bytes(&mut st.write_buf, bytes);
            match res {
                Ok(()) => (
                    Ok(st.write_buf.len() < st.pool.write_high),
                    Wake { read: false, write: asleep, dispatch: false },
                ),
                Err(e) => (Err(e), Wake { read: false, write: false, dispatch: false }),
            }
        } else {
            (Ok(true), Wake { read: false, write: false, dispatch: false })
        }
    }

    /// Write item to a buf and wake up io task. An error stops the dispatcher.
    pub fn encode_result<E, U>(
        &self,
        st: &mut IoState,
        item: Result<Option<(Vec<u8>, Result<(), U>)>, E>,
    ) -> (r: (Result<bool, EncodeFault<E, U>>, Wake))
        ensures
            if old(st).flags.io_err || old(st).flags.dsp_err {
                *final(st) == *old(st) && r == (Ok::<bool, EncodeFault<E, U>>(true), no_wake())
            } else {
                let failed = Flags { dsp_stop: true, dsp_err: true, ..old(st).flags };
                match item {
                    Ok(None) => *final(st) == *old(st) && r == (
                        Ok::<bool, EncodeFault<E, U>>(true),
                        no_wake(),
                    ),
                    Err(e) => *final(st) == (IoState { flags: failed, ..*old(st) }) && r == (
                        Err::<bool, EncodeFault<E, U>>(EncodeFault::Dispatcher(e)),
                        Wake { read: false, write: false, dispatch: true },
                    ),
                    Ok(Some((bytes, res))) => {
                        &&& final(st).write_buf@ == old(st).write_buf@ + bytes@
                        &&& match res {
                            Ok(_) => *final(st) == (IoState {
                                write_buf: final(st).write_buf,
                                ..*old(st)
                            }) && r == (
                                Ok::<bool, EncodeFault<E, U>>(
                                    final(st).write_buf@.len() < old(st).pool.write_high,
                                ),
                                Wake {
                                    read: false,
                                    write: old(st).write_buf@.len() == 0,
                                    dispatch: false,
                                },
                            ),
                            Err(e) => *final(st) == (IoState {
                                flags: failed,
                                write_buf: final(st).write_buf,
                                ..*old(st)
                            }) && r == (
                                Err::<bool, EncodeFault<E, U>>(EncodeFault::Encoder(e)),
                                Wake { read: false, write: false, dispatch: true },
                            ),
                        }
                    },
                }
            },
    {
        if st.flags.io_err || st.flags.dsp_err {
            return (Ok(true), Wake { read: false, write: false, dispatch: false });
        }
        match item {
            Ok(Some((bytes, res))) => {
                let asleep = st.write_buf.len() == 0;
                put_bytes(&mut st.write_buf, bytes.as_slice());
                match res {
                    Err(e) => {
                        st.flags.dsp_stop = true;
                        st.flags.dsp_err = true;
                        (
                            Err(EncodeFault::Encoder(e)),
                            Wake { read: false, write: false, dispatch: true },
                        )
                    },
                    Ok(()) => (
                        Ok(st.write_buf.len() < st.pool.write_high),
                        Wake { read: false, write: asleep, dispatch: false },
                    ),
                }
            },
            Err(e) => {
                st.flags.dsp_stop = true;
                st.flags.dsp_err = true;
                (
                    Err(EncodeFault::Dispatcher(e)),
                    Wake { read: false, write: false, dispatch: true },
                )
            },
            Ok(None) => (Ok(true), Wake { read: false, write: false, dispatch: false }),
        }
    }
}

/// The reading side of a connection.
#[derive(Debug, Copy, Clone, PartialEq, Eq, Structural)]
pub struct Read;

impl Read {
    /// Check if read buffer has new data
    pub fn is_ready(&self, st: &IoState) -> (r: bool)
        ensures
            r == st.flags.rd_ready,
    {
        st.flags.rd_ready
    }

    /// Check if read buffer is full
    pub fn is_full(&self, st: &IoState) -> (r: bool)
        ensures
            r == (st.read_buf@.len() > 0 && st.read_buf@.len() >= st.pool.read_high),
    {
        st.read_buf.len() > 0 && st.read_buf.len() >= st.pool.read_high
    }

    /// Pause read task
    pub fn pause(&self, st: &mut IoState)
        ensures
            *final(st) == (IoState { flags: Flags { rd_paused: true, ..old(st).flags }, ..*old(st) }),
    {
        st.flags.rd_paused = true;
    }

    /// Wake read io task if it is paused
    pub fn resume(&self, st: &mut IoState) -> (r: bool)
        ensures
            r == old(st).flags.rd_paused,
            *final(st) == (IoState {
                flags: Flags { rd_paused: false, ..old(st).flags },
                ..*old(st)
            }),
    {
        let paused = st.flags.rd_paused;
        st.flags.rd_paused = false;
        paused
    }

    /// Wake read task and instruct to read more data
    ///
    /// Only wakes if back-pressure is enabled on read task
    /// otherwise read is already awake.
    pub fn wake(&self, st: &mut IoState) -> (r: Wake)
        ensures
            *final(st) == (IoState {
                flags: Flags {
                    rd_ready: false,
                    rd_buf_full: false,
                    rd_paused: false,
                    ..old(st).flags
                },
                ..*old(st)
            }),
            r == (Wake {
                read: old(st).flags.rd_buf_full || old(st).flags.rd_paused,
                write: false,
                dispatch: false,
            }),
    {
        let asleep = st.flags.rd_buf_full || st.flags.rd_paused;
        st.flags.rd_ready = false;
        st.flags.rd_buf_full = false;
        st.flags.rd_paused = false;
        Wake { read: asleep, write: false, dispatch: false }
    }

    /// Get mut access to read buffer
    pub fn with_buf<F, R>(&self, st: &mut IoState, f: F) -> (r: R) where
        F: FnOnce(&mut Vec<u8>) -> R,

        requires
            forall|buf: &mut Vec<u8>| *buf == old(st).read_buf ==> #[trigger] f.requires((buf,)),
        ensures
            exists|buf: &mut Vec<u8>| #[trigger]
                f.ensures((buf,), r) && *buf == old(st).read_buf && *final(buf) == final(
                    st).read_buf,
            *final(st) == (IoState { read_buf: final(st).read_buf, ..*old(st) }),
    {
        f(&mut st.read_buf)
    }
}

/// OnDisconnect future resolves when socket get disconnected
#[derive(Debug, Copy, Clone, PartialEq, Eq, Structural)]
pub struct OnDisconnect {
    pub token: usize,
}

impl OnDisconnect {
    /// Whether the socket is disconnected. One who was not told waits.
    pub fn poll_ready(&self, st: &mut IoState) -> (r: bool)
        requires
            slab_items(old(st).on_disconnect).contains_key(self.token),
        ensures
            r == (slab_items(old(st).on_disconnect)[self.token] == Listener::Notified),
            slab_items(final(st).on_disconnect) == slab_items(old(st).on_disconnect).insert(
                self.token,
                Listener::Waiting,
            ),
            *final(st) == (IoState { on_disconnect: final(st).on_disconnect, ..*old(st) }),
    {
        let told = match slab_get(&st.on_disconnect, self.token) {
            Some(Listener::Notified) => true,
            _ => false,
        };
        slab_set(&mut st.on_disconnect, self.token, Listener::Waiting);
        told
    }

    /// Another one who waits for the same end.
    pub fn another(&self, st: &mut IoState) -> (r: OnDisconnect)
        ensures
            !slab_items(old(st).on_disconnect).contains_key(r.token),
            slab_items(final(st).on_disconnect) == slab_items(old(st).on_disconnect).insert(
                r.token,
                Listener::Idle,
            ),
            *final(st) == (IoState { on_disconnect: final(st).on_disconnect, ..*old(st) }),
    {
        OnDisconnect { token: slab_insert(&mut st.on_disconnect, Listener::Idle) }
    }

    /// Waits no more.
    pub fn close(self, st: &mut IoState)
        requires
            slab_items(old(st).on_disconnect).contains_key(self.token),
        ensures
            slab_items(final(st).on_disconnect) == slab_items(old(st).on_disconnect).remove(
                self.token,
            ),
            *final(st) == (IoState { on_disconnect: final(st).on_disconnect, ..*old(st) }),
    {
        slab_remove(&mut st.on_disconnect, self.token);
    }
}

} // verus!
