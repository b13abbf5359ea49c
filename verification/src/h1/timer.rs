//! Timer and rate-tracking state for keep-alive, request-head read-rate, and
//! request-payload read-rate handling.

use vstd::prelude::*;

use crate::config::FrameReadRate;
use crate::time::Seconds;

verus! {

/// An order to the timer of the transport.
#[derive(Copy, Clone, Debug, PartialEq, Eq, Structural)]
pub enum TimerOp {
    /// Arms the timer, in place of what it was armed for.
    Start(Seconds),
    /// Stops the timer and forgets a timeout that was not handled.
    Stop,
    /// Reports a timeout at once.
    Notify,
}

/// The purpose of the armed dispatcher timer.
#[derive(Copy, Clone, Debug, PartialEq, Eq, Structural)]
pub enum Timer {
    Stopped,
    /// New connection, waiting for the first byte of the first request.
    /// The transport timer is armed only if request-head timing is
    /// configured, otherwise waiting is unbounded.
    ClientTimeout,
    /// Idle persistent connection, waiting for the next request.
    KeepAlive,
    /// Request-head read rate.
    Headers,
    /// Request-payload read rate.
    Payload,
    /// Payload timing is paused by application or write backpressure, the
    /// transport timer is stopped but the remaining budget is kept.
    PayloadPaused,
    /// Write backpressure timeout.
    Write,
    /// Write backpressure timeout, paused payload timing is restored once
    /// backpressure is disabled.
    WriteWithPayload,
}

impl Timer {
    /// The timer bounds write backpressure.
    pub open spec fn for_write(self) -> bool {
        self == Timer::Write || self == Timer::WriteWithPayload
    }

    /// Returns `true` for the write backpressure timer.
    pub fn is_write(self) -> (r: bool)
        ensures
            r == self.for_write(),
    {
        matches!(self, Timer::Write | Timer::WriteWithPayload)
    }
}

/// Progress of reading against its budget.
#[derive(Copy, Clone, Debug, PartialEq, Eq, Structural)]
pub struct ReadProgress {
    /// Application read buffer length at the last decode attempt.
    pub remains: u32,
    /// Bytes received during the current rate period.
    pub consumed: u32,
    /// Remaining cumulative read budget, after the current period.
    pub max_timeout: Seconds,
    /// Unused part of the current period while payload timing is paused.
    pub period: Seconds,
}

/// No progress, no budget.
pub open spec fn no_progress() -> ReadProgress {
    ReadProgress { remains: 0, consumed: 0, max_timeout: Seconds(0), period: Seconds(0) }
}

fn empty_progress() -> (r: ReadProgress)
    ensures
        r == no_progress(),
{
    ReadProgress { remains: 0, consumed: 0, max_timeout: Seconds(0), period: Seconds(0) }
}

/// A count that stops at its largest value.
pub open spec fn saturated(n: int) -> u32 {
    if n > u32::MAX {
        u32::MAX
    } else if n < 0 {
        0
    } else {
        n as u32
    }
}

/// The first period of a cumulative budget, and the budget that is left after
/// it. A budget of zero is no limit.
pub open spec fn first_period(timeout: Seconds, max_timeout: Seconds) -> (Seconds, Seconds) {
    if max_timeout.0 == 0 {
        (timeout, Seconds(0))
    } else if timeout.0 <= max_timeout.0 {
        (timeout, Seconds((max_timeout.0 - timeout.0) as u16))
    } else {
        (max_timeout, Seconds(0))
    }
}

/// Splits the first period from the cumulative budget.
///
/// Returns the period to arm and the budget left after it.
pub fn read_timeout(timeout: Seconds, max_timeout: Seconds) -> (r: (Seconds, Seconds))
    ensures
        r == first_period(timeout, max_timeout),
{
    if max_timeout.is_zero() {
        (timeout, Seconds(0))
    } else {
        let first: u16 = if timeout.0 <= max_timeout.0 {
            timeout.0
        } else {
            max_timeout.0
        };
        (Seconds(first), Seconds(max_timeout.0.saturating_sub(first)))
    }
}

/// A period never exceeds the budget it is taken from, and what is taken and
/// what is left make up the budget.
pub proof fn budget_is_split(timeout: Seconds, max_timeout: Seconds)
    requires
        max_timeout.0 != 0,
    ensures
        first_period(timeout, max_timeout).0.0 <= timeout.0,
        first_period(timeout, max_timeout).0.0 <= max_timeout.0,
        first_period(timeout, max_timeout).0.0 + first_period(timeout, max_timeout).1.0
            == max_timeout.0,
{
}

/// Dispatcher timer and read-rate state.
///
/// The transport has a single dispatcher timer, `active` records what it is
/// currently armed for.
#[derive(Copy, Clone, Debug, PartialEq, Eq, Structural)]
pub struct Timers {
    pub active: Timer,
    pub progress: ReadProgress,
}

/// The timers of a new rate period.
pub open spec fn started(t: Timers, timer: Timer, cfg: FrameReadRate, max: Seconds) -> Timers {
    Timers {
        active: timer,
        progress: ReadProgress { max_timeout: first_period(cfg.timeout, max).1, ..t.progress },
    }
}

/// The timers once a payload was decoded: a write timer keeps running.
pub open spec fn done_with_payload(t: Timers) -> Timers {
    Timers {
        active: if t.active.for_write() {
            Timer::Write
        } else {
            Timer::Stopped
        },
        ..t
    }
}

/// The orders once a payload was decoded.
pub open spec fn done_ops(t: Timers) -> Seq<TimerOp> {
    if t.active.for_write() {
        Seq::empty()
    } else {
        seq![TimerOp::Stop]
    }
}

/// The timers with payload timing paused.
pub open spec fn paused(t: Timers, unused: Seconds) -> Timers {
    if t.active == Timer::Payload {
        Timers {
            active: Timer::PayloadPaused,
            progress: ReadProgress { period: unused, ..t.progress },
        }
    } else {
        t
    }
}

/// The timers with payload timing resumed or continued.
pub open spec fn payload_progress(t: Timers, consumed: u32) -> Timers {
    let p = ReadProgress {
        consumed: saturated(t.progress.consumed + consumed),
        ..t.progress
    };
    if t.active == Timer::Payload {
        Timers { progress: p, ..t }
    } else if t.active == Timer::PayloadPaused {
        Timers { active: Timer::Payload, progress: ReadProgress { period: Seconds(0), ..p } }
    } else {
        t
    }
}

/// The orders when payload timing is resumed: the unused part of the period is
/// armed; a period that had expired is checked at once.
pub open spec fn payload_ops(t: Timers) -> Seq<TimerOp> {
    if t.active == Timer::PayloadPaused {
        if t.progress.period.0 == 0 {
            seq![TimerOp::Notify]
        } else {
            seq![TimerOp::Start(t.progress.period)]
        }
    } else {
        Seq::empty()
    }
}

/// The timers with the write timer running.
pub open spec fn writing(t: Timers, unused: Seconds) -> Timers {
    let p = paused(t, unused);
    Timers {
        active: if p.active == Timer::PayloadPaused {
            Timer::WriteWithPayload
        } else {
            Timer::Write
        },
        ..p
    }
}

/// The next period of a rate that was kept, `None` where the budget is used up.
pub open spec fn next_period(cfg: FrameReadRate, left: Seconds) -> Option<Seconds> {
    if cfg.max_timeout.0 == 0 {
        Some(cfg.timeout)
    } else if left.0 == 0 {
        None
    } else {
        Some(first_period(cfg.timeout, left).0)
    }
}

/// The budget that is left after the next period.
pub open spec fn next_budget(cfg: FrameReadRate, left: Seconds) -> Seconds {
    if cfg.max_timeout.0 == 0 || left.0 == 0 {
        left
    } else {
        first_period(cfg.timeout, left).1
    }
}

impl Timers {
    /// Starts the client timeout when request-head timing is configured, so
    /// a new connection must start sending its first request in time.
    ///
    /// A timer or timeout left on the transport does not apply to the new
    /// dispatcher.
    pub fn new(io: &mut Vec<TimerOp>, headers: Option<FrameReadRate>) -> (r: Timers)
        ensures
            r == (Timers { active: Timer::ClientTimeout, progress: no_progress() }),
            final(io)@ == old(io)@ + (match headers {
                Some(cfg) => seq![TimerOp::Stop, TimerOp::Start(cfg.timeout)],
                None => seq![TimerOp::Stop],
            }),
    {
        io.push(TimerOp::Stop);
        if let Some(cfg) = headers {
            io.push(TimerOp::Start(cfg.timeout));
        }
        assert(io@ =~= old(io)@ + (match headers {
            Some(cfg) => seq![TimerOp::Stop, TimerOp::Start(cfg.timeout)],
            None => seq![TimerOp::Stop],
        }));
        Timers { active: Timer::ClientTimeout, progress: empty_progress() }
    }

    /// Arms the transport timer for a rate period of `timer`.
    fn start(
        &mut self,
        io: &mut Vec<TimerOp>,
        timer: Timer,
        cfg: FrameReadRate,
        max_timeout: Seconds,
    )
        ensures
            *final(self) == started(*old(self), timer, cfg, max_timeout),
            final(io)@ == old(io)@.push(TimerOp::Start(first_period(cfg.timeout, max_timeout).0)),
    {
        let (timeout, max_timeout) = read_timeout(cfg.timeout, max_timeout);
        self.active = timer;
        self.progress.max_timeout = max_timeout;
        io.push(TimerOp::Start(timeout));
    }

    /// Stops the transport timer and clears any pending timeout.
    pub fn stop(&mut self, io: &mut Vec<TimerOp>)
        ensures
            *final(self) == (Timers { active: Timer::Stopped, ..*old(self) }),
            final(io)@ == old(io)@.push(TimerOp::Stop),
    {
        self.active = Timer::Stopped;
        io.push(TimerOp::Stop);
    }

    /// Resets the state after a request head has been decoded.
    ///
    /// A running write timer keeps running, buffered requests can be decoded
    /// during write backpressure.
    pub fn reset(&mut self, io: &mut Vec<TimerOp>)
        ensures
            *final(self) == done_with_payload(Timers { progress: no_progress(), ..*old(self) }),
            final(io)@ == old(io)@ + done_ops(*old(self)),
    {
        self.progress = empty_progress();
        self.payload_done(io);
    }

    /// Stops payload timing after the payload has been decoded.
    ///
    /// A running write timer keeps running.
    pub fn payload_done(&mut self, io: &mut Vec<TimerOp>)
        ensures
            *final(self) == done_with_payload(*old(self)),
            final(io)@ == old(io)@ + done_ops(*old(self)),
    {
        if self.active.is_write() {
            self.active = Timer::Write;
        } else {
            self.stop(io);
        }
        assert(io@ =~= old(io)@ + done_ops(*old(self)));
    }

    /// Starts the keep-alive timer for an idle connection, a running
    /// keep-alive timer keeps running.
    pub fn start_keepalive(&mut self, io: &mut Vec<TimerOp>, timeout: Seconds)
        ensures
            *final(self) == (Timers { active: Timer::KeepAlive, ..*old(self) }),
            final(io)@ == if old(self).active == Timer::KeepAlive {
                old(io)@
            } else {
                old(io)@.push(TimerOp::Start(timeout))
            },
    {
        if self.active != Timer::KeepAlive {
            self.active = Timer::KeepAlive;
            io.push(TimerOp::Start(timeout));
        }
    }

    /// Starts request-head timing with a fresh budget.
    ///
    /// Without a headers read rate, any timer is stopped.
    pub fn start_headers(
        &mut self,
        io: &mut Vec<TimerOp>,
        cfg: Option<FrameReadRate>,
        consumed: u32,
        remains: u32,
    )
        ensures
            ({
                let t = Timers {
                    progress: ReadProgress { remains, consumed, ..old(self).progress },
                    ..*old(self)
                };
                match cfg {
                    Some(cfg) => *final(self) == started(t, Timer::Headers, cfg, cfg.max_timeout)
                        && final(io)@ == old(io)@.push(
                        TimerOp::Start(first_period(cfg.timeout, cfg.max_timeout).0),
                    ),
                    None => *final(self) == (Timers { active: Timer::Stopped, ..t }) && final(io)@
                        == old(io)@.push(TimerOp::Stop),
                }
            }),
    {
        self.progress.remains = remains;
        self.progress.consumed = consumed;
        if let Some(cfg) = cfg {
            self.start(io, Timer::Headers, cfg, cfg.max_timeout);
        } else {
            self.stop(io);
        }
    }

    /// Records the application read buffer length before a request-head
    /// decode attempt, counting bytes received since the previous attempt.
    pub fn headers_buffered(&mut self, buffered: u32)
        ensures
            *final(self) == if old(self).active == Timer::Headers {
                Timers {
                    progress: ReadProgress {
                        consumed: saturated(
                            old(self).progress.consumed + saturated(
                                buffered - old(self).progress.remains,
                            ),
                        ),
                        remains: buffered,
                        ..old(self).progress
                    },
                    ..*old(self)
                }
            } else {
                *old(self)
            },
    {
        if self.active == Timer::Headers {
            let more: u32 = buffered.saturating_sub(self.progress.remains);
            self.progress.consumed = self.progress.consumed.saturating_add(more);
            self.progress.remains = buffered;
        }
    }

    /// Starts request-payload timing with a fresh budget.
    ///
    /// During write backpressure, payload timing starts paused and resumes
    /// once backpressure is disabled.
    pub fn start_payload(&mut self, io: &mut Vec<TimerOp>, cfg: Option<FrameReadRate>)
        ensures
            match cfg {
                None => *final(self) == *old(self) && final(io)@ == old(io)@,
                Some(cfg) => {
                    let t = Timers {
                        progress: ReadProgress { consumed: 0, ..old(self).progress },
                        ..*old(self)
                    };
                    let (period, max_timeout) = first_period(cfg.timeout, cfg.max_timeout);
                    if old(self).active.for_write() {
                        *final(self) == (Timers {
                            active: Timer::WriteWithPayload,
                            progress: ReadProgress { period, max_timeout, ..t.progress },
                        }) && final(io)@ == old(io)@
                    } else {
                        *final(self) == started(t, Timer::Payload, cfg, cfg.max_timeout)
                            && final(io)@ == old(io)@.push(TimerOp::Start(period))
                    }
                },
            },
    {
        if let Some(cfg) = cfg {
            self.progress.consumed = 0;
            if self.active.is_write() {
                let (period, max_timeout) = read_timeout(cfg.timeout, cfg.max_timeout);
                self.progress.period = period;
                self.progress.max_timeout = max_timeout;
                self.active = Timer::WriteWithPayload;
            } else {
                self.start(io, Timer::Payload, cfg, cfg.max_timeout);
            }
        }
    }

    /// Records payload bytes consumed by a decode attempt.
    ///
    /// Resumes paused payload timing, keeping the received bytes, the
    /// unused part of the interrupted period, and the cumulative budget.
    /// Stopped timing is not started.
    pub fn payload_decoded(&mut self, io: &mut Vec<TimerOp>, consumed: u32)
        ensures
            *final(self) == payload_progress(*old(self), consumed),
            final(io)@ == old(io)@ + payload_ops(*old(self)),
    {
        match self.active {
            Timer::Payload => {
                self.progress.consumed = self.progress.consumed.saturating_add(consumed);
            },
            Timer::PayloadPaused => {
                let period = self.progress.period;
                self.progress.consumed = self.progress.consumed.saturating_add(consumed);
                self.progress.period = Seconds(0);
                self.active = Timer::Payload;
                if period.is_zero() {
                    // the interrupted period has expired, check the read rate
                    io.push(TimerOp::Notify);
                } else {
                    io.push(TimerOp::Start(period));
                }
            },
            _ => {},
        }
        assert(io@ =~= old(io)@ + payload_ops(*old(self)));
    }

    /// Pauses payload timing, keeping the unused part of the current period.
    ///
    /// `unused` is what is left on the transport timer. The period continues
    /// when payload timing resumes, a period that expired before pausing is
    /// checked on resume.
    pub fn pause_payload(&mut self, io: &mut Vec<TimerOp>, unused: Seconds)
        ensures
            *final(self) == paused(*old(self), unused),
            final(io)@ == if old(self).active == Timer::Payload {
                old(io)@.push(TimerOp::Stop)
            } else {
                old(io)@
            },
    {
        if self.active == Timer::Payload {
            self.progress.period = unused;
            io.push(TimerOp::Stop);
            self.active = Timer::PayloadPaused;
        }
    }

    /// Starts the write backpressure timer, a running write timer keeps
    /// running.
    ///
    /// Running payload timing is paused, other read timers are stopped.
    pub fn start_write(&mut self, io: &mut Vec<TimerOp>, timeout: Seconds, unused: Seconds)
        ensures
            timeout.0 == 0 || old(self).active.for_write() ==> *final(self) == *old(self)
                && final(io)@ == old(io)@,
            timeout.0 != 0 && !old(self).active.for_write() ==> *final(self) == writing(
                *old(self),
                unused,
            ) && final(io)@ == old(io)@ + (if old(self).active == Timer::Payload {
                seq![TimerOp::Stop, TimerOp::Stop, TimerOp::Start(timeout)]
            } else {
                seq![TimerOp::Stop, TimerOp::Start(timeout)]
            }),
    {
        if !timeout.is_zero() && !self.active.is_write() {
            self.pause_payload(io, unused);
            self.active = if self.active == Timer::PayloadPaused {
                Timer::WriteWithPayload
            } else {
                Timer::Write
            };
            io.push(TimerOp::Stop);
            io.push(TimerOp::Start(timeout));
            assert(io@ =~= old(io)@ + (if old(self).active == Timer::Payload {
                seq![TimerOp::Stop, TimerOp::Stop, TimerOp::Start(timeout)]
            } else {
                seq![TimerOp::Stop, TimerOp::Start(timeout)]
            }));
        }
    }

    /// Stops the write backpressure timer and restores paused payload timing.
    pub fn stop_write(&mut self, io: &mut Vec<TimerOp>)
        ensures
            *final(self) == not_writing(*old(self)),
            final(io)@ == if old(self).active.for_write() {
                old(io)@.push(TimerOp::Stop)
            } else {
                old(io)@
            },
    {
        match self.active {
            Timer::Write => {
                io.push(TimerOp::Stop);
                self.active = Timer::Stopped;
            },
            Timer::WriteWithPayload => {
                io.push(TimerOp::Stop);
                self.active = Timer::PayloadPaused;
            },
            _ => {},
        }
    }

    /// Handles expiry of a read-rate period.
    ///
    /// Starts the next period and returns `true` if more than the required
    /// number of bytes was received and the cumulative budget allows it.
    pub fn extend(&mut self, io: &mut Vec<TimerOp>, cfg: FrameReadRate) -> (r: bool)
        ensures
            ({
                let p = old(self).progress;
                let fast = p.consumed > cfg.rate;
                let next = next_period(cfg, p.max_timeout);
                &&& r == (fast && next is Some)
                &&& *final(self) == (Timers {
                    progress: ReadProgress {
                        consumed: 0,
                        max_timeout: if r {
                            next_budget(cfg, p.max_timeout)
                        } else {
                            p.max_timeout
                        },
                        ..p
                    },
                    ..*old(self)
                })
                &&& final(io)@ == if r {
                    old(io)@.push(TimerOp::Start(next->0))
                } else {
                    old(io)@
                }
            }),
    {
        let total: u32 = self.progress.consumed;
        self.progress.consumed = 0;
        if total > cfg.rate {
            let timeout = if cfg.max_timeout.is_zero() {
                Some(cfg.timeout)
            } else if self.progress.max_timeout.is_zero() {
                None
            } else {
                let (timeout, remaining) = read_timeout(cfg.timeout, self.progress.max_timeout);
                self.progress.max_timeout = remaining;
                Some(timeout)
            };
            if let Some(timeout) = timeout {
                io.push(TimerOp::Start(timeout));
                return true;
            }
        }
        false
    }
}

/// The timers without the write timer.
pub open spec fn not_writing(t: Timers) -> Timers {
    match t.active {
        Timer::Write => Timers { active: Timer::Stopped, ..t },
        Timer::WriteWithPayload => Timers { active: Timer::PayloadPaused, ..t },
        _ => t,
    }
}

/// The budget that is left after a number of periods in a row.
pub open spec fn budget_after(cfg: FrameReadRate, periods: nat) -> Seconds
    decreases periods,
{
    if periods == 0 {
        cfg.max_timeout
    } else if periods == 1 {
        first_period(cfg.timeout, cfg.max_timeout).1
    } else {
        next_budget(cfg, budget_after(cfg, (periods - 1) as nat))
    }
}

/// The time that a number of periods in a row take.
pub open spec fn time_of(cfg: FrameReadRate, periods: nat) -> int
    decreases periods,
{
    if periods == 0 {
        0
    } else if periods == 1 {
        first_period(cfg.timeout, cfg.max_timeout).0.0 as int
    } else {
        let before = (periods - 1) as nat;
        time_of(cfg, before) + match next_period(cfg, budget_after(cfg, before)) {
            Some(p) => p.0 as int,
            None => 0,
        }
    }
}

/// However often a rate is kept, the periods of a message together take no more
/// than the cumulative limit, where there is one: what they took and what is
/// left make up the limit.
pub proof fn limit_is_kept(cfg: FrameReadRate, periods: nat)
    requires
        cfg.max_timeout.0 != 0,
    ensures
        time_of(cfg, periods) + budget_after(cfg, periods).0 == cfg.max_timeout.0,
        time_of(cfg, periods) <= cfg.max_timeout.0,
    decreases periods,
{
    if periods > 1 {
        limit_is_kept(cfg, (periods - 1) as nat);
    }
}

/// Pausing payload timing and resuming it keeps the bytes that were received
/// and the cumulative budget, and arms the unused part of the period.
pub proof fn pause_keeps_budget(t: Timers, unused: Seconds, consumed: u32)
    requires
        t.active == Timer::Payload,
    ensures
        ({
            let p = paused(t, unused);
            let r = payload_progress(p, consumed);
            &&& r.active == Timer::Payload
            &&& r.progress.max_timeout == t.progress.max_timeout
            &&& r.progress.remains == t.progress.remains
            &&& r.progress.consumed == saturated(t.progress.consumed + consumed)
            &&& payload_ops(p) == if unused.0 == 0 {
                seq![TimerOp::Notify]
            } else {
                seq![TimerOp::Start(unused)]
            }
        }),
{
}

/// Write backpressure in between does the same as pausing: once it is over,
/// payload timing waits to be resumed with its period and budget.
pub proof fn writing_keeps_payload(t: Timers, unused: Seconds)
    ensures
        t.active == Timer::Payload ==> not_writing(writing(t, unused)) == paused(t, unused),
        t.active == Timer::PayloadPaused ==> not_writing(writing(t, unused)) == t,
        t.active != Timer::Payload && t.active != Timer::PayloadPaused && !t.active.for_write()
            ==> not_writing(writing(t, unused)) == (Timers { active: Timer::Stopped, ..t }),
{
}

/// A running write timer is not touched by requests and payloads that are
/// decoded meanwhile.
pub proof fn write_timer_survives(t: Timers)
    requires
        t.active.for_write(),
    ensures
        done_with_payload(t).active == Timer::Write,
        done_ops(t) == Seq::<TimerOp>::empty(),
        done_with_payload(Timers { progress: no_progress(), ..t }).active == Timer::Write,
{
}

} // verus!
