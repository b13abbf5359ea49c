//! Service configuration, the connections of a service and the date header.

use vstd::prelude::*;

use crate::headers::valid_value;
use crate::text::{ascii, copy_bytes, crlf, put, put_bytes};
use crate::time::{saturating_seconds, Seconds};

verus! {

/// Server keep-alive behavior.
#[derive(Debug, PartialEq, Eq, Structural, Clone, Copy)]
pub enum KeepAlive {
    /// Close an idle connection after this timeout.
    Timeout(Seconds),
    /// Keep the connection open until the peer or operating system closes it.
    Os,
    /// Disable persistent connections.
    Disabled,
}

/// A number of seconds, modulo the range of a span of seconds.
pub open spec fn wrapped_seconds(n: usize) -> Seconds {
    Seconds((n as int % 65536) as u16)
}

fn wrap_seconds(n: usize) -> (r: Seconds)
    ensures
        r == wrapped_seconds(n),
{
    let v: u64 = n as u64 % 65536;
    Seconds(v as u16)
}

impl From<usize> for KeepAlive {
    fn from(keepalive: usize) -> (r: KeepAlive) {
        KeepAlive::Timeout(wrap_seconds(keepalive))
    }
}

impl vstd::std_specs::convert::FromSpecImpl<usize> for KeepAlive {
    open spec fn obeys_from_spec() -> bool {
        true
    }

    open spec fn from_spec(keepalive: usize) -> KeepAlive {
        KeepAlive::Timeout(wrapped_seconds(keepalive))
    }
}

impl From<Seconds> for KeepAlive {
    fn from(keepalive: Seconds) -> (r: KeepAlive) {
        KeepAlive::Timeout(keepalive)
    }
}

impl vstd::std_specs::convert::FromSpecImpl<Seconds> for KeepAlive {
    open spec fn obeys_from_spec() -> bool {
        true
    }

    open spec fn from_spec(keepalive: Seconds) -> KeepAlive {
        KeepAlive::Timeout(keepalive)
    }
}

impl From<Option<usize>> for KeepAlive {
    fn from(keepalive: Option<usize>) -> (r: KeepAlive) {
        match keepalive {
            Some(n) => KeepAlive::Timeout(wrap_seconds(n)),
            None => KeepAlive::Disabled,
        }
    }
}

impl vstd::std_specs::convert::FromSpecImpl<Option<usize>> for KeepAlive {
    open spec fn obeys_from_spec() -> bool {
        true
    }

    open spec fn from_spec(keepalive: Option<usize>) -> KeepAlive {
        match keepalive {
            Some(n) => KeepAlive::Timeout(wrapped_seconds(n)),
            None => KeepAlive::Disabled,
        }
    }
}

/// A required rate of progress.
#[derive(Debug, PartialEq, Eq, Structural, Clone, Copy)]
pub struct FrameReadRate {
    /// One measurement interval.
    pub timeout: Seconds,
    /// Cumulative limit, none where it is zero.
    pub max_timeout: Seconds,
    /// Bytes that have to be exceeded for another interval.
    pub rate: u32,
}

/// Configuration shared by HTTP/1 and HTTP/2 server services.
///
/// The default configuration enables persistent HTTP/1 connections with a
/// five-second idle timeout, allows 96 headers, limits the message-head buffer
/// to 64 KiB, and applies a one-second initial request-header timeout.
#[derive(Debug, PartialEq, Eq, Structural, Clone, Copy)]
pub struct HttpServiceConfig {
    pub keep_alive: Seconds,
    pub ka_enabled: bool,
    pub headers_vec: bool,
    pub max_headers: usize,
    pub max_buf_size: usize,
    pub headers_read_rate: Option<FrameReadRate>,
    pub payload_read_rate: Option<FrameReadRate>,
    pub write_timeout: Seconds,
}

/// Timeout of a keep-alive behavior, zero where it has none.
pub open spec fn keepalive_timeout(k: KeepAlive) -> Seconds {
    match k {
        KeepAlive::Timeout(val) => val,
        _ => Seconds(0),
    }
}

/// Rate of progress asked of a request head by default.
pub open spec fn default_head_rate(timeout: Seconds) -> FrameReadRate {
    FrameReadRate { rate: 256, timeout, max_timeout: saturating_seconds(timeout.0 + 15) }
}

/// A read rate, none where its interval is zero.
pub open spec fn read_rate(timeout: Seconds, max_timeout: Seconds, rate: u32) -> Option<
    FrameReadRate,
> {
    if timeout.0 == 0 {
        None
    } else {
        Some(FrameReadRate { timeout, max_timeout, rate })
    }
}

fn head_rate(timeout: Seconds) -> (r: FrameReadRate)
    ensures
        r == default_head_rate(timeout),
{
    FrameReadRate { rate: 256, timeout, max_timeout: timeout.plus(Seconds(15)) }
}

/// The default configuration.
pub open spec fn default_config() -> HttpServiceConfig {
    HttpServiceConfig {
        keep_alive: Seconds(5),
        ka_enabled: true,
        headers_vec: false,
        max_headers: 96,
        max_buf_size: 65536,
        headers_read_rate: Some(
            FrameReadRate { rate: 256, timeout: Seconds(1), max_timeout: Seconds(16) },
        ),
        payload_read_rate: None,
        write_timeout: Seconds(0),
    }
}

impl Default for HttpServiceConfig {
    fn default() -> (r: HttpServiceConfig)
        ensures
            r == default_config(),
    {
        HttpServiceConfig::new()
    }
}

impl HttpServiceConfig {
    /// Creates an HTTP service configuration with default settings.
    pub fn new() -> (r: HttpServiceConfig)
        ensures
            r == default_config(),
    {
        HttpServiceConfig::with(KeepAlive::Timeout(Seconds(5)), Seconds(1))
    }

    /// A configuration with the given keep-alive behavior and header timeout.
    fn with(keep_alive: KeepAlive, client_timeout: Seconds) -> (r: HttpServiceConfig)
        ensures
            r == (HttpServiceConfig {
                keep_alive: keepalive_timeout(keep_alive),
                ka_enabled: keep_alive != KeepAlive::Disabled,
                headers_read_rate: Some(default_head_rate(client_timeout)),
                ..default_config()
            }),
    {
        let (keep_alive, ka_enabled) = match keep_alive {
            KeepAlive::Timeout(val) => (val, true),
            KeepAlive::Os => (Seconds(0), true),
            KeepAlive::Disabled => (Seconds(0), false),
        };
        HttpServiceConfig {
            keep_alive,
            ka_enabled,
            headers_read_rate: Some(head_rate(client_timeout)),
            max_headers: 96,
            max_buf_size: 65536,
            headers_vec: false,
            payload_read_rate: None,
            write_timeout: Seconds(0),
        }
    }

    /// Sets the maximum number of headers in a message.
    ///
    /// Requests exceeding this limit are rejected with
    /// `431 Request Header Fields Too Large`. The default is 96.
    pub fn set_max_headers(self, val: usize) -> (r: Self)
        ensures
            r == (HttpServiceConfig { max_headers: val, ..self }),
    {
        HttpServiceConfig { max_headers: val, ..self }
    }

    /// Sets the maximum cumulative size of an HTTP message head.
    ///
    /// The request or response line, headers, and terminating empty line may
    /// occupy up to and including this number of bytes. Larger message heads
    /// are rejected. The default is 64 KiB.
    pub fn set_max_buf_size(self, val: usize) -> (r: Self)
        ensures
            r == (HttpServiceConfig { max_buf_size: val, ..self }),
    {
        HttpServiceConfig { max_buf_size: val, ..self }
    }

    /// Sets the server keep-alive behavior.
    ///
    /// By default, idle persistent connections are closed after five seconds.
    pub fn set_keepalive(self, val: KeepAlive) -> (r: Self)
        ensures
            r == (HttpServiceConfig {
                keep_alive: keepalive_timeout(val),
                ka_enabled: val != KeepAlive::Disabled,
                ..self
            }),
    {
        let (keep_alive, ka_enabled) = match val {
            KeepAlive::Timeout(val) => (val, true),
            KeepAlive::Os => (Seconds(0), true),
            KeepAlive::Disabled => (Seconds(0), false),
        };
        HttpServiceConfig { keep_alive, ka_enabled, ..self }
    }

    /// Sets the keep-alive timeout.
    ///
    /// A zero duration disables persistent connections rather than selecting
    /// an unlimited timeout. Use [`KeepAlive::Os`] with
    /// [`set_keepalive`](Self::set_keepalive) to leave connection lifetime to
    /// the peer or operating system. The default is five seconds.
    pub fn set_keepalive_timeout(self, timeout: Seconds) -> (r: Self)
        ensures
            r == (HttpServiceConfig { keep_alive: timeout, ka_enabled: timeout.0 != 0, ..self }),
    {
        HttpServiceConfig { keep_alive: timeout, ka_enabled: !timeout.is_zero(), ..self }
    }

    /// Sets the initial timeout for reading request headers.
    ///
    /// A zero duration disables header-read timing. The cumulative limit and
    /// required rate of an existing head rate are kept; where header-read
    /// timing was disabled, it is enabled again with the default rate of 256
    /// bytes and a cumulative limit of `timeout` plus 15 seconds.
    pub fn set_client_timeout(self, timeout: Seconds) -> (r: Self)
        ensures
            r == (HttpServiceConfig { headers_read_rate: r.headers_read_rate, ..self }),
            timeout.0 == 0 ==> r.headers_read_rate is None,
            timeout.0 != 0 ==> r.headers_read_rate == Some(
                match self.headers_read_rate {
                    Some(rate) => FrameReadRate { timeout, ..rate },
                    None => default_head_rate(timeout),
                },
            ),
    {
        if timeout.is_zero() {
            HttpServiceConfig { headers_read_rate: None, ..self }
        } else {
            let rate = match self.headers_read_rate {
                Some(rate) => FrameReadRate { timeout, ..rate },
                None => head_rate(timeout),
            };
            HttpServiceConfig { headers_read_rate: Some(rate), ..self }
        }
    }

    /// Sets how long output may wait to be written. A zero duration sets no
    /// bound.
    pub fn set_write_timeout(self, timeout: Seconds) -> (r: Self)
        ensures
            r == (HttpServiceConfig { write_timeout: timeout, ..self }),
    {
        HttpServiceConfig { write_timeout: timeout, ..self }
    }

    /// Preserves headers in their original order and casing.
    ///
    /// When enabled, decoded headers are additionally copied into the
    /// `headers_vec` of the message head. The normal header map remains
    /// populated. This is disabled by default.
    pub fn set_headers_vec(self, enabled: bool) -> (r: Self)
        ensures
            r == (HttpServiceConfig { headers_vec: enabled, ..self }),
    {
        HttpServiceConfig { headers_vec: enabled, ..self }
    }

    /// Sets read-rate limits for request headers.
    ///
    /// A zero `timeout` disables request-head timing. A zero `max_timeout`
    /// removes the cumulative limit.
    pub fn set_headers_read_rate(
        self,
        timeout: Seconds,
        max_timeout: Seconds,
        rate: u32,
    ) -> (r: Self)
        ensures
            r == (HttpServiceConfig {
                headers_read_rate: read_rate(timeout, max_timeout, rate),
                ..self
            }),
    {
        if timeout.is_zero() {
            HttpServiceConfig { headers_read_rate: None, ..self }
        } else {
            HttpServiceConfig {
                headers_read_rate: Some(FrameReadRate { rate, timeout, max_timeout }),
                ..self
            }
        }
    }

    /// Sets read-rate limits for request payloads.
    ///
    /// A zero `timeout` disables payload timing. A zero `max_timeout` removes
    /// the cumulative limit. Payload read-rate limiting is disabled by default.
    pub fn set_payload_read_rate(
        self,
        timeout: Seconds,
        max_timeout: Seconds,
        rate: u32,
    ) -> (r: Self)
        ensures
            r == (HttpServiceConfig {
                payload_read_rate: read_rate(timeout, max_timeout, rate),
                ..self
            }),
    {
        if timeout.is_zero() {
            HttpServiceConfig { payload_read_rate: None, ..self }
        } else {
            HttpServiceConfig {
                payload_read_rate: Some(FrameReadRate { rate, timeout, max_timeout }),
                ..self
            }
        }
    }
}

/// The open connections of a service, by number, and its shutdown state.
#[derive(Debug)]
pub struct DispatcherConfig {
    idx: usize,
    shutdown: bool,
    inflight: Vec<u64>,
    notified: bool,
}

impl DispatcherConfig {
    /// Number of connections that were given an id.
    pub closed spec fn issued(self) -> usize {
        self.idx
    }

    /// The open connections.
    pub closed spec fn open_ios(self) -> Set<u64> {
        self.inflight@.to_set()
    }

    /// The service is shutting down.
    pub closed spec fn stopping(self) -> bool {
        self.shutdown
    }

    /// The end of the shutdown was announced.
    pub closed spec fn announced(self) -> bool {
        self.notified
    }

    /// No connection is listed twice.
    pub closed spec fn wf(self) -> bool {
        self.inflight@.no_duplicates()
    }

    /// A service without connections.
    pub fn new() -> (r: DispatcherConfig)
        ensures
            r.wf(),
            r.issued() == 0,
            r.open_ios() == Set::<u64>::empty(),
            !r.stopping(),
            !r.announced(),
    {
        let r = DispatcherConfig {
            idx: 0,
            shutdown: false,
            inflight: Vec::new(),
            notified: false,
        };
        assert(r.open_ios() =~= Set::<u64>::empty());
        r
    }

    /// Get connection id
    pub fn next_id(&mut self) -> (r: usize)
        requires
            old(self).issued() < usize::MAX,
        ensures
            r == old(self).issued(),
            final(self).issued() == r + 1,
            final(self).open_ios() == old(self).open_ios(),
            final(self).stopping() == old(self).stopping(),
            final(self).announced() == old(self).announced(),
            old(self).wf() ==> final(self).wf(),
    {
        let id: usize = self.idx;
        self.idx = id + 1;
        id
    }

    fn position(&self, io: u64) -> (r: Option<usize>)
        ensures
            r is Some <==> self.inflight@.contains(io),
            r matches Some(i) ==> i < self.inflight@.len() && self.inflight@[i as int] == io,
    {
        let mut i: usize = 0;
        while i < self.inflight.len()
            invariant
                i <= self.inflight@.len(),
                forall|j: int| 0 <= j < i ==> self.inflight@[j] != io,
            decreases self.inflight@.len() - i,
        {
            if self.inflight[i] == io {
                return Some(i);
            }
            i += 1;
        }
        None
    }

    /// Forgets a connection. Returns how many are left.
    pub fn remove_io(&mut self, io: u64) -> (r: usize)
        requires
            old(self).wf(),
        ensures
            final(self).wf(),
            final(self).open_ios() == old(self).open_ios().remove(io),
            r == final(self).open_ios().len(),
            final(self).issued() == old(self).issued(),
            final(self).stopping() == old(self).stopping(),
            final(self).announced() == old(self).announced(),
    {
        match self.position(io) {
            Some(i) => {
                let ghost before = self.inflight@;
                self.inflight.remove(i);
                proof {
                    let after = self.inflight@;
                    assert forall|x: u64| after.to_set().contains(x) <==> before.to_set().remove(
                        io,
                    ).contains(x) by {
                        if after.contains(x) {
                            let j = choose|j: int| 0 <= j < after.len() && after[j] == x;
                            let k = if j < i {
                                j
                            } else {
                                j + 1
                            };
                            assert(before[k] == x);
                        }
                        if before.contains(x) && x != io {
                            let j = choose|j: int| 0 <= j < before.len() && before[j] == x;
                            let k = if j < i {
                                j
                            } else {
                                j - 1
                            };
                            assert(after[k] == x);
                        }
                    }
                    assert(self.open_ios() =~= old(self).open_ios().remove(io));
                }
            },
            None => {
                assert(self.open_ios() =~= old(self).open_ios().remove(io));
            },
        }
        proof {
            self.inflight@.unique_seq_to_set();
        }
        self.inflight.len()
    }

    /// Adds a connection. Returns how many there are.
    pub fn insert_io(&mut self, io: u64) -> (r: usize)
        requires
            old(self).wf(),
        ensures
            final(self).wf(),
            final(self).open_ios() == old(self).open_ios().insert(io),
            r == final(self).open_ios().len(),
            final(self).issued() == old(self).issued(),
            final(self).stopping() == old(self).stopping(),
            final(self).announced() == old(self).announced(),
    {
        if self.position(io).is_none() {
            let ghost before = self.inflight@;
            self.inflight.push(io);
            proof {
                let after = self.inflight@;
                assert(after == before.push(io));
                assert forall|x: u64| after.to_set().contains(x) <==> before.to_set().insert(
                    io,
                ).contains(x) by {
                    if before.contains(x) {
                        let j = choose|j: int| 0 <= j < before.len() && before[j] == x;
                        assert(after[j] == x);
                    }
                    if x == io {
                        assert(after[before.len() as int] == x);
                    }
                }
            }
        }
        assert(self.open_ios() =~= old(self).open_ios().insert(io));
        proof {
            self.inflight@.unique_seq_to_set();
        }
        self.inflight.len()
    }

    /// Service is shutting down
    pub fn is_shutdown(&self) -> (r: bool)
        ensures
            r == self.stopping(),
    {
        self.shutdown
    }

    /// Starts the shutdown. Returns the connections to be told.
    pub fn shutdown(&mut self) -> (r: Vec<u64>)
        requires
            old(self).wf(),
        ensures
            final(self).stopping(),
            final(self).wf(),
            final(self).open_ios() == old(self).open_ios(),
            final(self).issued() == old(self).issued(),
            final(self).announced() == old(self).announced(),
            r@.no_duplicates(),
            r@.to_set() == old(self).open_ios(),
    {
        self.shutdown = true;
        let r = self.inflight.clone();
        assert(r@ =~= self.inflight@);
        r
    }

    /// Whether the end of the shutdown is to be announced now: it is, the first
    /// time it is asked for.
    pub fn notify_shutdown(&mut self) -> (r: bool)
        ensures
            r == !old(self).announced(),
            final(self).announced(),
            final(self).open_ios() == old(self).open_ios(),
            final(self).issued() == old(self).issued(),
            final(self).stopping() == old(self).stopping(),
            old(self).wf() ==> final(self).wf(),
    {
        let first = !self.notified;
        self.notified = true;
        first
    }

    /// A connection ended: forgets it, and says whether the end of the shutdown
    /// is to be announced.
    pub fn connection_done(&mut self, io: u64) -> (r: bool)
        requires
            old(self).wf(),
        ensures
            final(self).wf(),
            final(self).open_ios() == old(self).open_ios().remove(io),
            final(self).issued() == old(self).issued(),
            final(self).stopping() == old(self).stopping(),
            r == (final(self).open_ios().len() == 0 && old(self).stopping() && !old(
                self,
            ).announced()),
            final(self).announced() == (old(self).announced() || r),
    {
        let left = self.remove_io(io);
        if left == 0 && self.is_shutdown() {
            self.notify_shutdown()
        } else {
            false
        }
    }
}

/// First second that has no date text.
pub const DATE_LIMIT: u64 = 253402300800;

/// The date text of a second since 1970.
pub uninterp spec fn http_date(secs: u64) -> Seq<u8>;

/// `httpdate::HttpDate` as text: 29 printable bytes that depend on the second
/// alone. Seconds from the year 10000 on have none.
#[verifier::external_body]
fn format_date(secs: u64) -> (r: Vec<u8>)
    requires
        secs < DATE_LIMIT,
    ensures
        r@ == http_date(secs),
        r@.len() == 29 && valid_value(r@),
{
    let time = std::time::UNIX_EPOCH + std::time::Duration::from_secs(secs);
    httpdate::HttpDate::from(time).to_string().into_bytes()
}

/// Date text before the first update.
pub open spec fn no_date() -> Seq<u8> {
    Seq::new(29, |i: int| 48u8)
}

/// Generates the cached HTTP `Date` header used by the protocol encoders.
///
/// The cached value is refreshed periodically and avoids formatting the
/// current system time for every response.
#[derive(Debug, Clone)]
pub struct DateService {
    current: bool,
    current_date: Vec<u8>,
}

impl DateService {
    /// The cached text need not be refreshed.
    pub closed spec fn is_current(self) -> bool {
        self.current
    }

    /// The cached text.
    pub closed spec fn cached(self) -> Seq<u8> {
        self.current_date@
    }

    /// The cached text fills its place in the header line.
    pub open spec fn wf(self) -> bool {
        self.cached().len() == 29 && valid_value(self.cached())
    }

    /// The text that is used at a time: the cached one, or that of the time.
    pub open spec fn date_at(self, now: u64) -> Seq<u8> {
        if self.is_current() {
            self.cached()
        } else {
            http_date(now)
        }
    }

    /// A service that has no date yet.
    pub fn new() -> (r: DateService)
        ensures
            r.wf(),
            !r.is_current(),
            r.cached() == no_date(),
    {
        let mut date: Vec<u8> = Vec::new();
        let mut i: usize = 0;
        while i < 29
            invariant
                i <= 29,
                date@.len() == i,
                forall|j: int| 0 <= j < i ==> date@[j] == 48,
            decreases 29 - i,
        {
            date.push(48);
            i += 1;
        }
        assert(date@ =~= no_date());
        DateService { current: false, current_date: date }
    }

    fn update(&mut self, now: u64)
        requires
            now < DATE_LIMIT,
        ensures
            final(self).wf(),
            final(self).is_current(),
            final(self).cached() == http_date(now),
    {
        self.current = true;
        self.current_date = format_date(now);
    }

    fn check_date(&mut self, now: u64)
        requires
            old(self).wf(),
            now < DATE_LIMIT,
        ensures
            final(self).wf(),
            final(self).is_current(),
            final(self).cached() == old(self).date_at(now),
    {
        if !self.current {
            self.update(now);
        }
    }

    /// Marks the cached text as old. Done twice a second.
    pub fn expire(&mut self)
        requires
            old(self).wf(),
        ensures
            final(self).wf(),
            !final(self).is_current(),
            final(self).cached() == old(self).cached(),
    {
        self.current = false;
    }

    /// The date text.
    pub fn set_date(&mut self, now: u64) -> (r: Vec<u8>)
        requires
            old(self).wf(),
            now < DATE_LIMIT,
        ensures
            final(self).wf(),
            final(self).is_current(),
            r@ == old(self).date_at(now),
            final(self).cached() == r@,
    {
        self.check_date(now);
        copy_bytes(self.current_date.as_slice())
    }

    /// Appends the date header line and the empty line that ends a head.
    pub fn set_date_header(&mut self, now: u64, dst: &mut Vec<u8>)
        requires
            old(self).wf(),
            now < DATE_LIMIT,
        ensures
            final(self).wf(),
            final(self).is_current(),
            final(self).cached() == old(self).date_at(now),
            final(dst)@ == old(dst)@ + date_header(old(self).date_at(now)),
    {
        self.check_date(now);
        proof {
            reveal_strlit("date: ");
            reveal_strlit("\r\n\r\n");
        }
        put(dst, "date: ");
        put_bytes(dst, self.current_date.as_slice());
        put(dst, "\r\n\r\n");
        assert(ascii("\r\n\r\n"@) =~= crlf() + crlf());
        assert(dst@ =~= old(dst)@ + date_header(self.current_date@));
    }

    /// Appends the date header line and the empty line that ends a head.
    pub fn set_date_header2(&mut self, now: u64, dst: &mut Vec<u8>)
        requires
            old(self).wf(),
            now < DATE_LIMIT,
        ensures
            final(self).wf(),
            final(self).is_current(),
            final(self).cached() == old(self).date_at(now),
            final(dst)@ == old(dst)@ + date_header(old(self).date_at(now)),
    {
        self.set_date_header(now, dst);
    }

    /// Appends the date header line and the empty line that ends a head.
    pub fn bset_date_header(&mut self, now: u64, dst: &mut Vec<u8>)
        requires
            old(self).wf(),
            now < DATE_LIMIT,
        ensures
            final(self).wf(),
            final(self).is_current(),
            final(self).cached() == old(self).date_at(now),
            final(dst)@ == old(dst)@ + date_header(old(self).date_at(now)),
    {
        self.set_date_header(now, dst);
    }
}

/// The date header line and the empty line that ends a head.
pub open spec fn date_header(date: Seq<u8>) -> Seq<u8> {
    ascii("date: "@) + date + crlf() + crlf()
}

/// Until the cached text expires, every use of it gives the same date, whatever
/// the time.
pub proof fn date_is_stable(s: DateService, t: DateService, now: u64, later: u64)
    requires
        t.is_current(),
        t.cached() == s.date_at(now),
    ensures
        t.date_at(later) == s.date_at(now),
{
}

} // verus!
