//! Timers of a connection.

use vstd::prelude::*;

use crate::config::{
    default_config, default_head_rate, keepalive_timeout, read_rate, FrameReadRate, KeepAlive,
};
use crate::h1::dispatcher::{
    payload_timed, payload_timed_ops, release_ops, released, write_start_ops, write_started,
    Dispatcher,
};
use crate::h1::flow::{buffered_timers, payload_counted};
use crate::h1::timer::{
    done_ops, done_with_payload, first_period, next_budget, next_period, paused, payload_ops,
    payload_progress, saturated, started, Timer, TimerOp, Timers,
};
use crate::time::Seconds;

verus! {

/// A period is as long as the interval, but never longer than what is left of the
/// budget; where there is no budget, there is no limit.
pub proof fn periods_are_intervals(timeout: Seconds, max: Seconds)
    ensures
        ({
            let (period, left) = first_period(timeout, max);
            &&& max.0 == 0 ==> period == timeout && left.0 == 0
            &&& max.0 > 0 && timeout.0 <= max.0 ==> period == timeout && left.0 == max.0 - timeout.0
            &&& max.0 > 0 && timeout.0 > max.0 ==> period == max && left.0 == 0
        }),
{
}

/// A rate that is kept has another period exactly where there is no limit, or the
/// budget is not used up; the period comes out of the budget.
pub proof fn periods_come_out_of_the_budget(cfg: FrameReadRate, left: Seconds)
    ensures
        next_period(cfg, left) is None <==> cfg.max_timeout.0 != 0 && left.0 == 0,
        cfg.max_timeout.0 == 0 ==> next_period(cfg, left) == Some(cfg.timeout) && next_budget(
            cfg,
            left,
        ) == left,
        cfg.max_timeout.0 != 0 ==> (next_period(cfg, left) matches Some(p) ==> p.0 <= cfg.timeout.0
            && p.0 + next_budget(cfg, left).0 == left.0 && (cfg.timeout.0 > 0 ==> p.0 > 0)),
{
}

/// A new rate period is armed for its purpose, and keeps what was received.
pub proof fn started_is_for_its_purpose(t: Timers, timer: Timer, cfg: FrameReadRate, max: Seconds)
    ensures
        ({
            let after = started(t, timer, cfg, max);
            &&& after.active == timer
            &&& after.progress.consumed == t.progress.consumed
            &&& after.progress.remains == t.progress.remains
            &&& after.progress.period == t.progress.period
            &&& max.0 != 0 ==> after.progress.max_timeout.0 + first_period(cfg.timeout, max).0.0
                == max.0
        }),
{
}

/// Bytes that were received add up, up to the largest count.
pub proof fn bytes_add_up(n: int)
    ensures
        0 <= n <= u32::MAX ==> saturated(n) == n,
        n < 0 ==> saturated(n) == 0,
        n > u32::MAX ==> saturated(n) == u32::MAX,
{
}

/// The bytes that came since the last attempt count for a head that is timed, and
/// for nothing else.
pub proof fn head_bytes_count(t: Timers, buffered: u32)
    requires
        t.progress.remains <= buffered,
        t.progress.consumed + buffered - t.progress.remains <= u32::MAX,
    ensures
        ({
            let after = buffered_timers(t, buffered);
            &&& after.active == t.active
            &&& after.progress.max_timeout == t.progress.max_timeout
            &&& t.active == Timer::Headers ==> after.progress.consumed == t.progress.consumed
                + buffered - t.progress.remains && after.progress.remains == buffered
            &&& t.active != Timer::Headers ==> after == t
        }),
{
}

/// The bytes that an attempt took count for a payload that is timed or paused;
/// stopped timing is not started by them.
pub proof fn payload_bytes_count(t: Timers, consumed: u32)
    requires
        t.progress.consumed + consumed <= u32::MAX,
    ensures
        ({
            let after = payload_progress(t, consumed);
            let timed = t.active == Timer::Payload || t.active == Timer::PayloadPaused;
            &&& timed ==> after.active == Timer::Payload && after.progress.consumed
                == t.progress.consumed + consumed
            &&& !timed ==> after == t
            &&& after.progress.max_timeout == t.progress.max_timeout
            &&& t.active != Timer::PayloadPaused ==> payload_ops(t) == Seq::<TimerOp>::empty()
        }),
{
}

/// Before the timer is heard, the bytes that came since the attempt began count.
pub proof fn payload_bytes_count_before_the_timer(d: Dispatcher, buffered: Option<u32>, left: u32)
    requires
        buffered matches Some(b) ==> b >= left && d.timers.progress.consumed + b - left <= u32::MAX,
    ensures
        ({
            let after = payload_counted(d, buffered, left);
            &&& after.timers.active == d.timers.active
            &&& after.payload == d.payload
            &&& buffered matches Some(b) ==> after.timers.progress.consumed
                == d.timers.progress.consumed + b - left
            &&& buffered is None ==> after == d
        }),
{
}

/// Payload timing is paused only where it runs, and keeps what is left of the
/// period.
pub proof fn pausing(t: Timers, unused: Seconds)
    ensures
        t.active == Timer::Payload ==> paused(t, unused).active == Timer::PayloadPaused && paused(
            t,
            unused,
        ).progress.period == unused && paused(t, unused).progress.consumed == t.progress.consumed
            && paused(t, unused).progress.max_timeout == t.progress.max_timeout,
        t.active != Timer::Payload ==> paused(t, unused) == t,
{
}

/// A payload is timed from now on where there is one and a rate for it, and neither
/// it nor a head is timed yet. Its period is armed at once, or once output was
/// written.
pub proof fn payload_timing_starts(d: Dispatcher)
    ensures
        ({
            let after = payload_timed(d);
            let ops = payload_timed_ops(d);
            let rate = d.cfg().payload_read_rate;
            let can = d.payload is Some && rate is Some;
            &&& can && d.timers.active == Timer::Stopped ==> after.timers.active == Timer::Payload
                && ops == seq![
                TimerOp::Start(first_period(rate->0.timeout, rate->0.max_timeout).0),
            ] && after.timers.progress.consumed == 0
            &&& can && d.timers.active == Timer::Write ==> after.timers.active
                == Timer::WriteWithPayload && ops == Seq::<TimerOp>::empty()
                && after.timers.progress.period == first_period(
                rate->0.timeout,
                rate->0.max_timeout,
            ).0 && after.timers.progress.consumed == 0
            &&& !can || d.timers.active != Timer::Stopped && d.timers.active != Timer::Write
                ==> after == d && ops == Seq::<TimerOp>::empty()
            &&& after.payload == d.payload
            &&& after.codec == d.codec
            &&& after.disconnect == d.disconnect
            &&& after.pending_payload_error == d.pending_payload_error
        }),
{
}

/// The write timer runs while output waits, where there is a write timeout, and is
/// armed once; it stops once output was written.
pub proof fn write_timing(t: Timers, timeout: Seconds, unused: Seconds, backpressure: bool)
    ensures
        timeout.0 == 0 ==> write_started(t, timeout, unused) == t && write_start_ops(t, timeout)
            == Seq::<TimerOp>::empty(),
        timeout.0 != 0 ==> write_started(t, timeout, unused).active == Timer::Write
            || write_started(t, timeout, unused).active == Timer::WriteWithPayload,
        timeout.0 != 0 && t.active != Timer::Write && t.active != Timer::WriteWithPayload
            ==> write_start_ops(t, timeout).last() == TimerOp::Start(timeout),
        t.active == Timer::Write || t.active == Timer::WriteWithPayload ==> write_start_ops(
            t,
            timeout,
        ) == Seq::<TimerOp>::empty(),
        backpressure ==> released(t, backpressure) == t && release_ops(t, backpressure) == Seq::<
            TimerOp,
        >::empty(),
        !backpressure ==> released(t, backpressure).active != Timer::Write && released(
            t,
            backpressure,
        ).active != Timer::WriteWithPayload,
        !backpressure && (t.active == Timer::Write || t.active == Timer::WriteWithPayload)
            ==> release_ops(t, backpressure) == seq![TimerOp::Stop],
        released(t, backpressure).progress == t.progress,
{
}

/// Once a message was decoded no timer runs but that for output.
pub proof fn decoded_messages_stop_the_timer(t: Timers)
    ensures
        t.active != Timer::Write && t.active != Timer::WriteWithPayload ==> done_with_payload(
            t,
        ).active == Timer::Stopped && done_ops(t) == seq![TimerOp::Stop],
        done_with_payload(t).progress == t.progress,
{
}

/// A rate without an interval is none, any other is as it was given; a keep-alive
/// time is that of its setting, and none where it is not a time.
pub proof fn settings_of_timers(timeout: Seconds, max: Seconds, rate: u32, k: KeepAlive)
    ensures
        read_rate(timeout, max, rate) is None <==> timeout.0 == 0,
        read_rate(timeout, max, rate) matches Some(r) ==> r.timeout == timeout && r.max_timeout
            == max && r.rate == rate,
        k matches KeepAlive::Timeout(t) ==> keepalive_timeout(k) == t,
        !(k is Timeout) ==> keepalive_timeout(k).0 == 0,
{
}

/// By default connections are kept alive for five seconds, a head has up to 96
/// headers and 64 KiB, and has to come at more than 256 bytes in a second, for 16
/// seconds at most; payloads and output are not timed.
pub proof fn default_settings()
    ensures
        ({
            let c = default_config();
            &&& c.keep_alive == Seconds(5) && c.ka_enabled
            &&& c.max_headers == 96 && c.max_buf_size == 64 * 1024
            &&& c.headers_read_rate matches Some(r) && r.timeout == Seconds(1) && r.rate == 256
                && r.max_timeout == Seconds(16)
            &&& c.payload_read_rate is None
            &&& c.write_timeout == Seconds(0)
            &&& !c.headers_vec
        }),
{
}

/// The rate that is asked of a head by default: more than 256 bytes in an interval,
/// for the interval and fifteen seconds more at most.
pub proof fn default_head_rates(timeout: Seconds)
    ensures
        default_head_rate(timeout).rate == 256,
        default_head_rate(timeout).timeout == timeout,
        timeout.0 + 15 <= u16::MAX ==> default_head_rate(timeout).max_timeout.0 == timeout.0 + 15,
        timeout.0 + 15 > u16::MAX ==> default_head_rate(timeout).max_timeout.0 == u16::MAX,
{
}

} // verus!
