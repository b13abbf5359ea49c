//! Connection pool.

use std::collections::VecDeque;

use vstd::prelude::*;
use vstd::utf8::encode_utf8;

use crate::builder::H2Config;
use crate::client::queues::{distinct, has_key, put_in, queue_map, settled, Queues};
use crate::text::{bytes_eq, copy_bytes, crlf, lower, lower_seq};
use crate::time::Seconds;
use crate::types::Uri;

verus! {

/// A connection to a peer, by its protocol and its id.
#[derive(Debug, Copy, Clone, PartialEq, Eq, Structural)]
pub enum ConnectionType {
    /// HTTP/1 carries one request at a time.
    H1(u64),
    /// HTTP/2 carries several requests at a time.
    H2(u64),
}

impl ConnectionType {
    /// Id of the connection.
    pub open spec fn id(self) -> u64 {
        match self {
            ConnectionType::H1(id) => id,
            ConnectionType::H2(id) => id,
        }
    }
}

/// A request for a connection.
#[derive(Debug)]
pub struct Connect {
    /// Target of the request.
    pub uri: Uri,
    /// Address of the peer, where it is known.
    pub addr: Option<String>,
}

/// A connection that nobody uses, or one that carries several requests.
#[derive(Debug, Copy, Clone, PartialEq, Eq, Structural)]
pub struct AvailableConnection {
    /// The connection.
    pub io: ConnectionType,
    /// When it was used last, in nanoseconds.
    pub used: u64,
    /// When it was opened, in nanoseconds.
    pub created: u64,
}

/// What was found of a connection.
#[derive(Debug)]
pub struct ConnStatus {
    /// Id of the connection.
    pub id: u64,
    /// The connection is closed.
    pub closed: bool,
    /// Bytes that came from the peer and were not read.
    pub buf: Vec<u8>,
}

/// What was found of the connections and of those who wait for one.
#[derive(Debug)]
pub struct Snapshot {
    /// The time, in nanoseconds.
    pub now: u64,
    /// The connections.
    pub conns: Vec<ConnStatus>,
    /// Those who wait no more.
    pub canceled: Vec<u64>,
}

/// Whether a connection is at hand.
#[derive(Debug, Copy, Clone, PartialEq, Eq, Structural)]
pub enum Acquire {
    /// This one, opened at the given time.
    Acquired(ConnectionType, u64),
    /// A new one can be opened.
    Available,
    /// Neither.
    NotAvailable,
}

/// What is done with a connection.
#[derive(Debug, Copy, Clone, PartialEq, Eq, Structural)]
pub enum ConnOp {
    /// It is shut down.
    Shutdown(u64),
    /// The bytes that came from the peer and were not read are dropped.
    Clear(u64),
}

/// The key of a host: its authority, whatever its case.
pub open spec fn key_of_host(authority: Seq<char>) -> Seq<u8> {
    lower_seq(encode_utf8(authority))
}

/// The key of a host.
pub fn host_key(authority: &str) -> (r: Vec<u8>)
    ensures
        r@ == key_of_host(authority@),
{
    let bytes = authority.as_bytes();
    let mut r: Vec<u8> = Vec::new();
    let mut i: usize = 0;
    while i < bytes.len()
        invariant
            i <= bytes.len(),
            bytes@ == encode_utf8(authority@),
            r@.len() == i,
            forall|j: int| 0 <= j < i ==> r@[j] == lower(#[trigger] bytes@[j]),
        decreases bytes.len() - i,
    {
        let b: u8 = bytes[i];
        r.push(
            if 65 <= b && b <= 90 {
                b + 32
            } else {
                b
            },
        );
        i += 1;
    }
    assert(r@ =~= key_of_host(authority@));
    r
}

// ---------------------------------------------------------------------------
// Connections at hand
// ---------------------------------------------------------------------------

/// The bytes that wait do not hinder the next request: none, or a stray line
/// end.
pub open spec fn is_clean(buf: Seq<u8>) -> bool {
    buf.len() == 0 || buf == crlf()
}

/// The connection was found open, and where it carries one request at a time,
/// without a leftover of the one before.
pub open spec fn is_idle(conns: Seq<ConnStatus>, io: ConnectionType) -> bool {
    exists|i: int|
        0 <= i < conns.len() && (#[trigger] conns[i]).id == io.id() && !conns[i].closed && (
        io is H1 ==> is_clean(conns[i].buf@))
}

/// Time since an event, none where it lies ahead.
pub open spec fn since(now: u64, then: u64) -> int {
    if now >= then {
        now - then
    } else {
        0
    }
}

/// The pool.
#[verifier::ext_equal]
pub struct PoolView {
    pub conn_lifetime: u64,
    pub conn_keep_alive: u64,
    pub disconnect_timeout: Seconds,
    pub limit: usize,
    pub h2config: H2Config,
    /// Number of connections that are in use.
    pub acquired: int,
    /// Connections that are at hand, by host, the one that came last at the end.
    pub available: Map<Seq<u8>, Seq<AvailableConnection>>,
    /// Hosts to which a connection is being opened.
    pub connecting: Set<Seq<u8>>,
}

/// The connection was unused, or open, for too long.
pub open spec fn is_stale(p: PoolView, c: AvailableConnection, now: u64) -> bool {
    since(now, c.used) > p.conn_keep_alive || since(now, c.created) > p.conn_lifetime
}

/// The connection can be used.
pub open spec fn is_usable(p: PoolView, c: AvailableConnection, snap: Snapshot) -> bool {
    !is_stale(p, c, snap.now) && is_idle(snap.conns@, c.io)
}

/// The connection that came last among those that can be used, -1 where there is
/// none.
pub open spec fn newest(p: PoolView, conns: Seq<AvailableConnection>, snap: Snapshot) -> int
    decreases conns.len(),
{
    if conns.len() == 0 {
        -1
    } else if is_usable(p, conns.last(), snap) {
        conns.len() - 1
    } else {
        newest(p, conns.drop_last(), snap)
    }
}

/// The stale connections behind a place that carry one request at a time: they
/// are shut down.
pub open spec fn stale_behind(
    p: PoolView,
    conns: Seq<AvailableConnection>,
    place: int,
    now: u64,
) -> Seq<ConnOp>
    decreases conns.len(),
{
    if conns.len() == 0 || conns.len() - 1 <= place {
        Seq::empty()
    } else if is_stale(p, conns.last(), now) && conns.last().io is H1 {
        seq![ConnOp::Shutdown(conns.last().io.id())] + stale_behind(p, conns.drop_last(), place, now)
    } else {
        stale_behind(p, conns.drop_last(), place, now)
    }
}

/// A connection that carries one request at a time starts without bytes of the
/// one before.
pub open spec fn cleared(io: ConnectionType) -> Seq<ConnOp> {
    if io is H1 {
        seq![ConnOp::Clear(io.id())]
    } else {
        Seq::empty()
    }
}

/// What is left of the connections of a host once one was chosen: those before
/// it. A connection that carries several requests stays, as the first.
pub open spec fn left_of(
    conns: Seq<AvailableConnection>,
    place: int,
    now: u64,
) -> Seq<AvailableConnection> {
    if place < 0 {
        Seq::empty()
    } else if conns[place].io is H2 {
        seq![AvailableConnection { used: now, ..conns[place] }] + conns.take(place)
    } else {
        conns.take(place)
    }
}

/// The limit leaves room for one more connection, besides those in use and those
/// that are being opened. No limit is written as 0.
pub open spec fn has_room(p: PoolView) -> bool {
    p.limit == 0 || p.acquired + p.connecting.len() < p.limit
}

/// The connections in use and those that are being opened are as many as the limit
/// allows.
pub open spec fn within_limit(p: PoolView) -> bool {
    &&& p.connecting.finite()
    &&& p.limit > 0 ==> p.acquired + p.connecting.len() <= p.limit
}

/// Whether a connection can be opened where none is at hand.
pub open spec fn none_at_hand(p: PoolView, key: Seq<u8>) -> Acquire {
    if p.connecting.contains(key) {
        Acquire::NotAvailable
    } else {
        Acquire::Available
    }
}

/// Looking for a connection: the pool afterwards, what was found, and what is done
/// with the connections.
pub open spec fn acquire_from(p: PoolView, key: Seq<u8>, snap: Snapshot) -> (
    PoolView,
    Acquire,
    Seq<ConnOp>,
) {
    if !has_room(p) {
        (p, Acquire::NotAvailable, Seq::empty())
    } else if p.available.contains_key(key) {
        let conns = p.available[key];
        let place = newest(p, conns, snap);
        let after = PoolView {
            available: p.available.insert(key, left_of(conns, place, snap.now)),
            ..p
        };
        (
            after,
            if place >= 0 {
                Acquire::Acquired(conns[place].io, conns[place].created)
            } else {
                none_at_hand(p, key)
            },
            stale_behind(p, conns, place, snap.now) + (if place >= 0 {
                cleared(conns[place].io)
            } else {
                Seq::empty()
            }),
        )
    } else {
        (p, none_at_hand(p, key), Seq::empty())
    }
}

/// A connection that is handed out is open, neither too old nor unused for too
/// long, and the limit left room for it.
pub proof fn handed_out_is_usable(p: PoolView, key: Seq<u8>, snap: Snapshot)
    ensures
        acquire_from(p, key, snap).1 matches Acquire::Acquired(io, created) ==> has_room(p)
            && exists|c: AvailableConnection|
            #![trigger is_usable(p, c, snap)]
            p.available[key].contains(c) && c.io == io && c.created == created && is_usable(
                p,
                c,
                snap,
            ),
        acquire_from(p, key, snap).1 is Available ==> has_room(p) && !p.connecting.contains(key),
{
    if has_room(p) && p.available.contains_key(key) {
        let conns = p.available[key];
        newest_is_usable(p, conns, snap);
        let place = newest(p, conns, snap);
        if place >= 0 {
            assert(conns.contains(conns[place]));
        }
    }
}

proof fn newest_is_usable(p: PoolView, conns: Seq<AvailableConnection>, snap: Snapshot)
    ensures
        -1 <= newest(p, conns, snap) < conns.len(),
        newest(p, conns, snap) >= 0 ==> is_usable(p, conns[newest(p, conns, snap)], snap),
    decreases conns.len(),
{
    if conns.len() > 0 && !is_usable(p, conns.last(), snap) {
        newest_is_usable(p, conns.drop_last(), snap);
    }
}

/// A connection that carries one request at a time and is handed out is not at
/// hand any more, whatever else is.
pub proof fn handed_out_once(p: PoolView, key: Seq<u8>, snap: Snapshot)
    requires
        p.available.contains_key(key),
        p.available[key].no_duplicates(),
    ensures
        ({
            let (after, found, _) = acquire_from(p, key, snap);
            let place = newest(p, p.available[key], snap);
            found matches Acquire::Acquired(ConnectionType::H1(_), _)
                ==> !after.available[key].contains(p.available[key][place])
        }),
{
    let conns = p.available[key];
    newest_is_usable(p, conns, snap);
    let place = newest(p, conns, snap);
    if has_room(p) && place >= 0 && conns[place].io is H1 {
        let left = conns.take(place);
        if left.contains(conns[place]) {
            let i = choose|i: int| 0 <= i < left.len() && left[i] == conns[place];
            assert(conns[i] == conns[place]);
        }
    }
}

/// Connections to the hosts.
#[derive(Debug)]
pub struct Inner {
    /// Longest time that a connection stays open, in nanoseconds.
    pub conn_lifetime: u64,
    /// Longest time that a connection stays unused, in nanoseconds.
    pub conn_keep_alive: u64,
    /// Longest time that a connection takes to close.
    pub disconnect_timeout: Seconds,
    /// Most connections that are in use or being opened at once, 0 for any number.
    pub limit: usize,
    /// Settings of HTTP/2 connections.
    pub h2config: H2Config,
    /// Number of connections that are in use.
    pub acquired: usize,
    /// Connections that are at hand, by host.
    pub available: Queues<AvailableConnection>,
    /// Hosts to which a connection is being opened.
    pub connecting: Vec<Vec<u8>>,
}

/// The key stands in the list.
pub open spec fn is_listed(keys: Seq<Vec<u8>>, k: Seq<u8>) -> bool {
    exists|i: int| 0 <= i < keys.len() && (#[trigger] keys[i])@ == k
}

/// The keys in a list.
pub open spec fn key_set(keys: Seq<Vec<u8>>) -> Set<Seq<u8>> {
    Set::new(|k: Seq<u8>| is_listed(keys, k))
}

/// No key stands twice in the list.
pub open spec fn listed_once(keys: Seq<Vec<u8>>) -> bool {
    forall|i: int, j: int|
        0 <= i < j < keys.len() ==> (#[trigger] keys[i])@ != (#[trigger] keys[j])@
}

proof fn key_count(keys: Seq<Vec<u8>>)
    requires
        listed_once(keys),
    ensures
        key_set(keys).finite(),
        key_set(keys).len() == keys.len(),
    decreases keys.len(),
{
    if keys.len() == 0 {
        assert(key_set(keys) =~= Set::empty());
    } else {
        let before = keys.drop_last();
        let last = keys.last()@;
        key_count(before);
        assert forall|k: Seq<u8>| #[trigger]
            key_set(keys).contains(k) == key_set(before).insert(last).contains(k) by {
            if is_listed(before, k) {
                let i = choose|i: int| 0 <= i < before.len() && (#[trigger] before[i])@ == k;
                assert(keys[i]@ == k);
            }
            if is_listed(keys, k) {
                let i = choose|i: int| 0 <= i < keys.len() && (#[trigger] keys[i])@ == k;
                if i < before.len() {
                    assert(before[i]@ == k);
                }
            }
            assert(keys[keys.len() - 1]@ == last);
        }
        assert(key_set(keys) =~= key_set(before).insert(last));
        assert(!key_set(before).contains(last)) by {
            if is_listed(before, last) {
                let i = choose|i: int| 0 <= i < before.len() && (#[trigger] before[i])@ == last;
                assert(keys[i]@ == keys[keys.len() - 1]@);
            }
        }
    }
}

impl View for Inner {
    type V = PoolView;

    open spec fn view(&self) -> PoolView {
        PoolView {
            conn_lifetime: self.conn_lifetime,
            conn_keep_alive: self.conn_keep_alive,
            disconnect_timeout: self.disconnect_timeout,
            limit: self.limit,
            h2config: self.h2config,
            acquired: self.acquired as int,
            available: self.available.map(),
            connecting: key_set(self.connecting@),
        }
    }
}

fn idle(conns: &Vec<ConnStatus>, io: ConnectionType) -> (r: bool)
    ensures
        r == is_idle(conns@, io),
{
    let (id, h1) = match io {
        ConnectionType::H1(id) => (id, true),
        ConnectionType::H2(id) => (id, false),
    };
    let mut i: usize = 0;
    while i < conns.len()
        invariant
            i <= conns.len(),
            id == io.id(),
            h1 == io is H1,
            forall|j: int|
                0 <= j < i ==> !((#[trigger] conns@[j]).id == io.id() && !conns@[j].closed && (
                io is H1 ==> is_clean(conns@[j].buf@))),
        decreases conns.len() - i,
    {
        let c = &conns[i];
        if c.id == id && !c.closed {
            let clean = c.buf.len() == 0 || (c.buf.len() == 2 && c.buf[0] == 13 && c.buf[1] == 10);
            assert(clean == is_clean(c.buf@)) by {
                if c.buf@.len() == 2 && c.buf@[0] == 13 && c.buf@[1] == 10 {
                    assert(c.buf@ =~= crlf());
                }
            }
            if !h1 || clean {
                assert(is_idle(conns@, io));
                return true;
            }
        }
        i += 1;
    }
    false
}

impl Inner {
    /// No host has two lists of connections, and none is listed twice among those
    /// to which a connection is being opened.
    pub open spec fn wf(self) -> bool {
        self.available.wf() && listed_once(self.connecting@)
    }

    /// A pool without connections.
    pub fn new(
        conn_lifetime: u64,
        conn_keep_alive: u64,
        disconnect_timeout: Seconds,
        limit: usize,
        h2config: H2Config,
    ) -> (r: Inner)
        ensures
            r.wf(),
            r@ == (PoolView {
                conn_lifetime,
                conn_keep_alive,
                disconnect_timeout,
                limit,
                h2config,
                acquired: 0,
                available: Map::empty(),
                connecting: Set::empty(),
            }),
    {
        let r = Inner {
            conn_lifetime,
            conn_keep_alive,
            disconnect_timeout,
            limit,
            h2config,
            acquired: 0,
            available: Queues::new(),
            connecting: Vec::new(),
        };
        assert(key_set(r.connecting@) =~= Set::empty());
        r
    }

    fn is_connecting(&self, key: &[u8]) -> (r: bool)
        ensures
            r == self@.connecting.contains(key@),
    {
        let mut i: usize = 0;
        while i < self.connecting.len()
            invariant
                i <= self.connecting.len(),
                forall|j: int| 0 <= j < i ==> (#[trigger] self.connecting@[j])@ != key@,
            decreases self.connecting.len() - i,
        {
            if bytes_eq(self.connecting[i].as_slice(), key) {
                return true;
            }
            i += 1;
        }
        false
    }

    fn room(&self) -> (r: bool)
        requires
            self.wf(),
        ensures
            r == has_room(self@),
    {
        proof {
            key_count(self.connecting@);
        }
        let opening: usize = self.connecting.len();
        self.limit == 0 || (opening < self.limit && self.acquired < self.limit - opening)
    }

    fn stale(&self, c: &AvailableConnection, now: u64) -> (r: bool)
        ensures
            r == is_stale(self@, *c, now),
    {
        let unused: u64 = if now >= c.used {
            now - c.used
        } else {
            0
        };
        let open: u64 = if now >= c.created {
            now - c.created
        } else {
            0
        };
        unused > self.conn_keep_alive || open > self.conn_lifetime
    }

    /// Looks for a connection to a host. Connections that cannot be used any
    /// more are dropped on the way; the second result names those that are shut
    /// down, and the one that starts without bytes of the request before.
    pub fn acquire(&mut self, key: &[u8], snap: &Snapshot) -> (r: (Acquire, Vec<ConnOp>))
        requires
            old(self).wf(),
        ensures
            final(self).wf(),
            (final(self)@, r.0, r.1@) == acquire_from(old(self)@, key@, *snap),
            final(self).acquired == old(self).acquired,
    {
        let mut shut: Vec<ConnOp> = Vec::new();
        // check limits
        if !self.room() {
            assert(shut@ =~= Seq::empty());
            return (Acquire::NotAvailable, shut);
        }
        // check if open connection is available
        // cleanup stale connections at the same time
        let ghost p = self@;
        match self.available.take(key) {
            Some(connections) => {
                let mut connections = connections;
                let ghost conns = connections@;
                proof {
                    newest_is_usable(p, conns, *snap);
                }
                let mut found: Option<AvailableConnection> = None;
                loop
                    invariant_except_break
                        found is None,
                        self@ == (PoolView { available: p.available.remove(key@), ..p }),
                        self.wf(),
                        self.acquired == old(self).acquired,
                        connections@.len() <= conns.len(),
                        connections@ == conns.take(connections@.len() as int),
                        newest(p, conns, *snap) == newest(p, connections@, *snap),
                        shut@ + stale_behind(
                            p,
                            connections@,
                            newest(p, conns, *snap),
                            snap.now,
                        ) == stale_behind(p, conns, newest(p, conns, *snap), snap.now),
                    ensures
                        self@ == (PoolView { available: p.available.remove(key@), ..p }),
                        self.wf(),
                        self.acquired == old(self).acquired,
                        shut@ == stale_behind(p, conns, newest(p, conns, *snap), snap.now),
                        connections@ == left_of(conns, newest(p, conns, *snap), snap.now),
                        match found {
                            Some(c) => newest(p, conns, *snap) >= 0 && c == conns[newest(
                                p,
                                conns,
                                *snap,
                            )],
                            None => newest(p, conns, *snap) < 0,
                        },
                    decreases connections@.len(),
                {
                    let ghost before = connections@;
                    let conn = match connections.pop_back() {
                        Some(conn) => conn,
                        None => {
                            assert(before.len() == 0);
                            assert(shut@ + Seq::<ConnOp>::empty() =~= shut@);
                            assert(connections@ =~= Seq::empty());
                            break;
                        },
                    };
                    proof {
                        assert(before.last() == conn);
                        assert(connections@ =~= conns.take(connections@.len() as int));
                        assert(before.drop_last() =~= connections@);
                        newest_is_usable(p, before, *snap);
                        newest_is_usable(p, connections@, *snap);
                    }
                    // check if it still usable
                    if self.stale(&conn, snap.now) {
                        if let ConnectionType::H1(id) = conn.io {
                            proof {
                                let tail = stale_behind(
                                    p,
                                    connections@,
                                    newest(p, conns, *snap),
                                    snap.now,
                                );
                                let one = ConnOp::Shutdown(id);
                                assert(shut@ + (seq![one] + tail) =~= shut@.push(one) + tail);
                            }
                            shut.push(ConnOp::Shutdown(id));
                        }
                        continue;
                    }
                    if !idle(&snap.conns, conn.io) {
                        continue;
                    }
                    proof {
                        assert(shut@ + Seq::<ConnOp>::empty() =~= shut@);
                    }
                    match conn.io {
                        ConnectionType::H1(_) => {},
                        ConnectionType::H2(_) => {
                            connections.push_front(
                                AvailableConnection {
                                    io: conn.io,
                                    used: snap.now,
                                    created: conn.created,
                                },
                            );
                        },
                    }
                    found = Some(conn);
                    break;
                }
                let ghost left = connections@;
                let ghost mid = self@;
                self.available.put(copy_bytes(key), connections);
                assert(p.available.remove(key@).insert(key@, left) =~= p.available.insert(
                    key@,
                    left,
                ));
                match found {
                    Some(conn) => {
                        let ghost before = shut@;
                        if let ConnectionType::H1(id) = conn.io {
                            shut.push(ConnOp::Clear(id));
                        }
                        assert(shut@ =~= before + cleared(conn.io));
                        (Acquire::Acquired(conn.io, conn.created), shut)
                    },
                    None => {
                        assert(shut@ + Seq::<ConnOp>::empty() =~= shut@);
                        if self.is_connecting(key) {
                            (Acquire::NotAvailable, shut)
                        } else {
                            (Acquire::Available, shut)
                        }
                    },
                }
            },
            None => {
                assert(shut@ =~= Seq::empty());
                if self.is_connecting(key) {
                    (Acquire::NotAvailable, shut)
                } else {
                    (Acquire::Available, shut)
                }
            },
        }
    }
}

// ---------------------------------------------------------------------------
// Connections in use
// ---------------------------------------------------------------------------

/// The pool with one more connection in use.
pub open spec fn one_more(p: PoolView) -> PoolView {
    PoolView { acquired: p.acquired + 1, ..p }
}

/// The connections of a host, none where it has no list.
pub open spec fn conns_of(p: PoolView, key: Seq<u8>) -> Seq<AvailableConnection> {
    if p.available.contains_key(key) {
        p.available[key]
    } else {
        Seq::empty()
    }
}

/// The pool after a connection was given back.
pub open spec fn given_back(
    p: PoolView,
    key: Seq<u8>,
    io: ConnectionType,
    created: u64,
    close: bool,
    now: u64,
) -> PoolView {
    PoolView {
        acquired: p.acquired - 1,
        available: if close {
            p.available
        } else {
            p.available.insert(
                key,
                conns_of(p, key).push(AvailableConnection { io, used: now, created }),
            )
        },
        ..p
    }
}

/// The pool while a connection to a host is being opened, and no more.
pub open spec fn opening(p: PoolView, key: Seq<u8>, on: bool) -> PoolView {
    PoolView {
        connecting: if on {
            p.connecting.insert(key)
        } else {
            p.connecting.remove(key)
        },
        ..p
    }
}

/// A connection that was given back open is the next one that its host gets,
/// while it can be used.
pub proof fn given_back_is_reused(
    p: PoolView,
    key: Seq<u8>,
    io: ConnectionType,
    created: u64,
    now: u64,
    snap: Snapshot,
)
    requires
        ({
            let c = AvailableConnection { io, used: now, created };
            let after = given_back(p, key, io, created, false, now);
            has_room(after) && is_usable(after, c, snap)
        }),
    ensures
        acquire_from(given_back(p, key, io, created, false, now), key, snap).1
            == Acquire::Acquired(io, created),
{
    let after = given_back(p, key, io, created, false, now);
    let conns = after.available[key];
    assert(conns.last() == AvailableConnection { io, used: now, created });
}

/// A connection in use, and the host that it belongs to.
#[derive(Debug)]
pub struct Acquired {
    /// Key of the host.
    pub key: Vec<u8>,
    /// The connection was not given back yet.
    pub live: bool,
}

impl Inner {
    /// Takes a connection into use.
    pub fn hold(&mut self, key: Vec<u8>) -> (r: Acquired)
        requires
            old(self).wf(),
            old(self).acquired < usize::MAX,
        ensures
            final(self).wf(),
            final(self)@ == one_more(old(self)@),
            r.key@ == key@,
            r.live,
    {
        self.acquired = self.acquired + 1;
        Acquired { key, live: true }
    }

    fn put_back(&mut self, key: &[u8], c: AvailableConnection)
        requires
            old(self).wf(),
        ensures
            final(self).wf(),
            final(self).acquired == old(self).acquired,
            final(self)@ == (PoolView {
                available: old(self)@.available.insert(
                    key@,
                    conns_of(old(self)@, key@).push(c),
                ),
                ..old(self)@
            }),
    {
        let ghost p = self@;
        let mut connections = match self.available.take(key) {
            Some(q) => q,
            None => VecDeque::new(),
        };
        assert(connections@ =~= conns_of(p, key@));
        connections.push_back(c);
        let ghost all = connections@;
        self.available.put(copy_bytes(key), connections);
        assert(p.available.remove(key@).insert(key@, all) =~= p.available.insert(key@, all));
    }

    /// A connection to a host is being opened.
    fn begin_open(&mut self, key: &[u8])
        requires
            old(self).wf(),
        ensures
            final(self).wf(),
            final(self).acquired == old(self).acquired,
            final(self)@ == opening(old(self)@, key@, true),
    {
        let ghost p = self@;
        if !self.is_connecting(key) {
            let k = copy_bytes(key);
            let ghost before = self.connecting@;
            self.connecting.push(k);
            proof {
                let all = self.connecting@;
                assert forall|i: int, j: int| 0 <= i < j < all.len() implies (#[trigger] all[i])@
                    != (#[trigger] all[j])@ by {
                    assert(all[i] == before[i]);
                    if j == before.len() {
                        assert(!is_listed(before, key@));
                    } else {
                        assert(before[j] == all[j]);
                    }
                }
                assert forall|x: Seq<u8>| #[trigger] is_listed(all, x) == p.connecting.insert(
                    key@,
                ).contains(x) by {
                    if is_listed(before, x) {
                        let i = choose|i: int| 0 <= i < before.len() && (#[trigger] before[i])@ == x;
                        assert(all[i]@ == x);
                    }
                    if is_listed(all, x) {
                        let i = choose|i: int| 0 <= i < all.len() && (#[trigger] all[i])@ == x;
                        if i < before.len() {
                            assert(before[i]@ == x);
                        }
                    }
                    assert(all[before.len() as int]@ == key@);
                }
            }
        }
        assert(self@.connecting =~= p.connecting.insert(key@));
    }

    /// A connection to a host is not being opened any more.
    fn end_open(&mut self, key: &[u8])
        requires
            old(self).wf(),
        ensures
            final(self).wf(),
            final(self).acquired == old(self).acquired,
            final(self)@ == opening(old(self)@, key@, false),
    {
        let ghost p = self@;
        let ghost before = self.connecting@;
        let mut left: Vec<Vec<u8>> = Vec::new();
        let mut i: usize = 0;
        while i < self.connecting.len()
            invariant
                i <= self.connecting.len(),
                self.connecting@ == before,
                *self == *old(self),
                listed_once(before),
                listed_once(left@),
                forall|x: Seq<u8>| #[trigger]
                    is_listed(left@, x) == (is_listed(before.take(i as int), x) && x != key@),
            decreases self.connecting.len() - i,
        {
            let ghost l0 = left@;
            let ghost here = before[i as int]@;
            let same = bytes_eq(self.connecting[i].as_slice(), key);
            if !same {
                left.push(copy_bytes(self.connecting[i].as_slice()));
            }
            proof {
                let l1 = left@;
                let b0 = before.take(i as int);
                let b1 = before.take(i + 1);
                assert(!is_listed(b0, here)) by {
                    if is_listed(b0, here) {
                        let j = choose|j: int| 0 <= j < b0.len() && (#[trigger] b0[j])@ == here;
                        assert(before[j]@ == before[i as int]@);
                    }
                }
                assert(!is_listed(l0, here));
                assert forall|a: int, b: int| 0 <= a < b < l1.len() implies (#[trigger] l1[a])@
                    != (#[trigger] l1[b])@ by {
                    assert(l1[a] == l0[a]);
                    if b < l0.len() {
                        assert(l1[b] == l0[b]);
                    } else {
                        assert(l1[b]@ == here);
                    }
                }
                assert forall|x: Seq<u8>| #[trigger]
                    is_listed(l1, x) == (is_listed(b1, x) && x != key@) by {
                    if is_listed(b0, x) {
                        let j = choose|j: int| 0 <= j < b0.len() && (#[trigger] b0[j])@ == x;
                        assert(b1[j]@ == x);
                    }
                    if is_listed(b1, x) {
                        let j = choose|j: int| 0 <= j < b1.len() && (#[trigger] b1[j])@ == x;
                        if j < i {
                            assert(b0[j]@ == x);
                        }
                    }
                    assert(b1[i as int]@ == here);
                    if !same {
                        assert(l1[l0.len() as int]@ == here);
                        if is_listed(l0, x) {
                            let j = choose|j: int| 0 <= j < l0.len() && (#[trigger] l0[j])@ == x;
                            assert(l1[j]@ == x);
                        }
                        if is_listed(l1, x) {
                            let j = choose|j: int| 0 <= j < l1.len() && (#[trigger] l1[j])@ == x;
                            if j < l0.len() {
                                assert(l0[j]@ == x);
                            }
                        }
                    }
                    assert(is_listed(l0, x) == (is_listed(b0, x) && x != key@));
                }
            }
            i += 1;
        }
        proof {
            assert(before.take(before.len() as int) =~= before);
        }
        self.connecting = left;
        assert(self@.connecting =~= p.connecting.remove(key@));
    }
}

// ---------------------------------------------------------------------------
// Those who wait for a connection
// ---------------------------------------------------------------------------

/// One who waits for a connection.
#[derive(Debug)]
pub struct Waiting {
    /// Id of the one who waits.
    pub id: u64,
    /// What is asked for.
    pub connect: Connect,
}

/// Those who wait for a connection, by host, in the order in which they came.
#[derive(Debug)]
pub struct Waiters {
    /// Those who wait.
    pub waiters: Queues<Waiting>,
}

/// The id is in the list.
pub open spec fn is_canceled(canceled: Seq<u64>, id: u64) -> bool {
    canceled.contains(id)
}

fn canceled_id(canceled: &Vec<u64>, id: u64) -> (r: bool)
    ensures
        r == is_canceled(canceled@, id),
{
    let mut i: usize = 0;
    while i < canceled.len()
        invariant
            i <= canceled.len(),
            forall|j: int| 0 <= j < i ==> canceled@[j] != id,
        decreases canceled.len() - i,
    {
        if canceled[i] == id {
            assert(canceled@[i as int] == id);
            return true;
        }
        i += 1;
    }
    false
}

/// The queue from the first one on who still waits.
pub open spec fn still_waiting(q: Seq<Waiting>, canceled: Seq<u64>) -> Seq<Waiting>
    decreases q.len(),
{
    if q.len() > 0 && is_canceled(canceled, q[0].id) {
        still_waiting(q.skip(1), canceled)
    } else {
        q
    }
}

/// The queues with those in front who wait no more taken out.
pub open spec fn cleaned(m: Map<Seq<u8>, Seq<Waiting>>, canceled: Seq<u64>) -> Map<
    Seq<u8>,
    Seq<Waiting>,
> {
    Map::new(
        |k: Seq<u8>| m.contains_key(k) && still_waiting(m[k], canceled).len() > 0,
        |k: Seq<u8>| still_waiting(m[k], canceled),
    )
}

impl Waiters {
    /// No host has two queues.
    pub open spec fn wf(self) -> bool {
        self.waiters.wf()
    }

    /// The queues by host.
    pub open spec fn map(self) -> Map<Seq<u8>, Seq<Waiting>> {
        self.waiters.map()
    }

    /// Nobody waits.
    pub fn new() -> (r: Waiters)
        ensures
            r.wf(),
            r.map() == Map::<Seq<u8>, Seq<Waiting>>::empty(),
    {
        Waiters { waiters: Queues::new() }
    }

    /// connection is not available, wait
    pub fn wait_for(&mut self, key: Vec<u8>, id: u64, connect: Connect)
        requires
            old(self).wf(),
        ensures
            final(self).wf(),
            final(self).map() == old(self).map().insert(
                key@,
                (if old(self).map().contains_key(key@) {
                    old(self).map()[key@]
                } else {
                    Seq::empty()
                }).push(Waiting { id, connect }),
            ),
    {
        let ghost m = self.map();
        let mut q = match self.waiters.take(key.as_slice()) {
            Some(q) => q,
            None => VecDeque::new(),
        };
        assert(q@ =~= if m.contains_key(key@) {
            m[key@]
        } else {
            Seq::empty()
        });
        q.push_back(Waiting { id, connect });
        let ghost all = q@;
        self.waiters.put(key, q);
        assert(m.remove(key@).insert(key@, all) =~= m.insert(key@, all));
    }

    /// cleanup dropped waiters
    pub fn cleanup(&mut self, canceled: &Vec<u64>)
        requires
            old(self).wf(),
        ensures
            final(self).wf(),
            final(self).map() == cleaned(old(self).map(), canceled@),
            final(self).waiters.entries@.len() == 0 <==> final(self).map().dom() =~= Set::empty(),
    {
        let ghost m = self.map();
        let ghost all = self.waiters.entries@;
        let mut entries: Vec<(Vec<u8>, VecDeque<Waiting>)> = Vec::new();
        std::mem::swap(&mut self.waiters.entries, &mut entries);
        let mut kept: Queues<Waiting> = Queues::new();
        let ghost mut i: int = 0;
        assert(entries@ =~= all.skip(0));
        assert(kept.map() =~= cleaned(queue_map(all.take(0)), canceled@));
        assert(distinct(all.take(0)));
        while entries.len() > 0
            invariant
                0 <= i <= all.len(),
                entries@ == all.skip(i),
                distinct(all),
                distinct(all.take(i)),
                kept.wf(),
                kept.map() == cleaned(queue_map(all.take(i)), canceled@),
            decreases entries.len(),
        {
            let ghost e = all[i];
            let (key, mut q) = entries.remove(0);
            assert(entries@ =~= all.skip(i + 1));
            let ghost q0 = q@;
            while q.len() > 0 && canceled_id(canceled, q[0].id)
                invariant
                    still_waiting(q0, canceled@) == still_waiting(q@, canceled@),
                decreases q@.len(),
            {
                let ghost b = q@;
                let _ = q.pop_front();
                assert(b.skip(1) =~= q@);
            }
            proof {
                let before = all.take(i);
                assert(all.take(i + 1) =~= before.push(e));
                assert(!has_key(before, e.0@)) by {
                    if has_key(before, e.0@) {
                        let j = choose|j: int|
                            0 <= j < before.len() && (#[trigger] before[j]).0@ == e.0@;
                        assert(all[j].0@ == all[i].0@);
                    }
                }
                put_in(before, e);
            }
            let ghost left = q@;
            let ghost kept0 = kept.map();
            if q.len() > 0 {
                kept.put(key, q);
            }
            proof {
                let before = queue_map(all.take(i));
                let after = queue_map(all.take(i + 1));
                assert(after == before.insert(e.0@, e.1@));
                assert(left == still_waiting(e.1@, canceled@));
                assert(kept.map() =~= cleaned(after, canceled@));
                i = i + 1;
            }
        }
        proof {
            assert(all.take(i) =~= all);
            if kept.entries@.len() > 0 {
                settled(kept.entries@, 0);
                assert(kept.map().dom().contains(kept.entries@[0].0@));
            }
        }
        self.waiters = kept;
    }
}

/// Whether those who wait are to be looked after: somebody still waits, and the
/// limit leaves room.
pub open spec fn wakes(p: PoolView, m: Map<Seq<u8>, Seq<Waiting>>) -> bool {
    !(m.dom() =~= Set::empty()) && has_room(p)
}

impl Inner {
    /// Takes out those who wait no more. Returns whether those who wait are to
    /// be looked after.
    pub fn check_availibility(&self, waiters: &mut Waiters, canceled: &Vec<u64>) -> (r: bool)
        requires
            self.wf(),
            old(waiters).wf(),
        ensures
            final(waiters).wf(),
            final(waiters).map() == cleaned(old(waiters).map(), canceled@),
            r == wakes(self@, final(waiters).map()),
    {
        waiters.cleanup(canceled);
        waiters.waiters.len() != 0 && self.room()
    }
}

/// What becomes of a connection that was given back.
#[derive(Debug, Copy, Clone, PartialEq, Eq, Structural)]
pub struct Released {
    /// The connection is closed.
    pub close: bool,
    /// Those who wait are to be looked after.
    pub wake: bool,
}

impl Acquired {
    /// Gives a connection back, once. An open one is at hand again.
    pub fn release(
        &mut self,
        pool: &mut Inner,
        waiters: &mut Waiters,
        canceled: &Vec<u64>,
        io: ConnectionType,
        created: u64,
        close: bool,
        now: u64,
    ) -> (r: Released)
        requires
            old(pool).wf(),
            old(waiters).wf(),
            old(self).live ==> old(pool).acquired > 0,
        ensures
            final(pool).wf(),
            final(waiters).wf(),
            final(self).key == old(self).key,
            !final(self).live,
            old(self).live ==> final(pool)@ == given_back(
                old(pool)@,
                old(self).key@,
                io,
                created,
                close,
                now,
            ) && final(waiters).map() == cleaned(old(waiters).map(), canceled@) && r == (Released {
                close,
                wake: wakes(final(pool)@, final(waiters).map()),
            }),
            !old(self).live ==> *final(pool) == *old(pool) && *final(waiters) == *old(waiters) && r
                == (Released { close: false, wake: false }),
    {
        if self.live {
            self.live = false;
            pool.acquired = pool.acquired - 1;
            if !close {
                pool.put_back(
                    self.key.as_slice(),
                    AvailableConnection { io, used: now, created },
                );
            }
            let wake = pool.check_availibility(waiters, canceled);
            Released { close, wake }
        } else {
            Released { close: false, wake: false }
        }
    }

    /// A connection goes away without being given back. Returns whether those
    /// who wait are to be looked after.
    pub fn abandon(&mut self, pool: &mut Inner, waiters: &mut Waiters, canceled: &Vec<u64>) -> (r:
        bool)
        requires
            old(pool).wf(),
            old(waiters).wf(),
            old(self).live ==> old(pool).acquired > 0,
        ensures
            final(pool).wf(),
            final(waiters).wf(),
            final(self).key == old(self).key,
            !final(self).live,
            old(self).live ==> final(pool)@ == (PoolView {
                acquired: old(pool)@.acquired - 1,
                ..old(pool)@
            }) && final(waiters).map() == cleaned(old(waiters).map(), canceled@) && r == wakes(
                final(pool)@,
                final(waiters).map(),
            ),
            !old(self).live ==> *final(pool) == *old(pool) && *final(waiters) == *old(waiters)
                && !r,
    {
        if self.live {
            self.live = false;
            pool.acquired = pool.acquired - 1;
            pool.check_availibility(waiters, canceled)
        } else {
            false
        }
    }
}

// ---------------------------------------------------------------------------
// Opening connections
// ---------------------------------------------------------------------------

/// The pool once a connection to a host is open. The one who asked for it gets
/// it, unless nobody waits for it any more. A connection that carries several
/// requests is at hand for others at once; one that nobody waits for, too.
pub open spec fn after_open(
    p: PoolView,
    key: Seq<u8>,
    io: ConnectionType,
    taken: bool,
    now: u64,
) -> PoolView {
    let open = one_more(opening(p, key, false));
    if taken {
        if io is H2 {
            given_back(one_more(open), key, io, now, false, now)
        } else {
            open
        }
    } else {
        given_back(open, key, io, now, false, now)
    }
}

/// What becomes of a connection that was opened.
#[derive(Debug)]
pub struct Opened {
    /// The connection in use, for the one who asked for it.
    pub acquired: Option<Acquired>,
    /// Those who wait are to be looked after.
    pub wake: bool,
    /// Longest time that the connection may take to close.
    pub disconnect_timeout: Seconds,
}

impl Inner {
    /// A connection to a host is open; `taken` says whether the one who asked
    /// for it took it.
    pub fn opened(
        &mut self,
        key: &[u8],
        waiters: &mut Waiters,
        canceled: &Vec<u64>,
        io: ConnectionType,
        taken: bool,
        now: u64,
    ) -> (r: Opened)
        requires
            old(self).wf(),
            old(waiters).wf(),
            old(self).acquired + 2 <= usize::MAX,
        ensures
            final(self).wf(),
            final(waiters).wf(),
            final(self)@ == after_open(old(self)@, key@, io, taken, now),
            final(waiters).map() == cleaned(old(waiters).map(), canceled@),
            r.wake == wakes(final(self)@, final(waiters).map()),
            r.acquired is Some <==> taken,
            r.acquired matches Some(a) ==> a.key@ == key@ && a.live,
            r.disconnect_timeout == old(self).disconnect_timeout,
    {
        self.end_open(key);
        let guard = self.hold(copy_bytes(key));
        let c = AvailableConnection { io, used: now, created: now };
        let acquired = if taken {
            if let ConnectionType::H2(_) = io {
                // put h2 connection to list of available connections
                self.put_back(key, c);
            }
            Some(guard)
        } else {
            // waiter is gone, return connection to pool
            self.acquired = self.acquired - 1;
            self.put_back(key, c);
            None
        };
        let wake = self.check_availibility(waiters, canceled);
        Opened { acquired, wake, disconnect_timeout: self.disconnect_timeout }
    }

    /// A connection to a host could not be opened. Returns whether those who
    /// wait are to be looked after.
    pub fn open_failed(
        &mut self,
        key: &[u8],
        waiters: &mut Waiters,
        canceled: &Vec<u64>,
    ) -> (r: bool)
        requires
            old(self).wf(),
            old(waiters).wf(),
        ensures
            final(self).wf(),
            final(waiters).wf(),
            final(self)@ == opening(old(self)@, key@, false),
            final(waiters).map() == cleaned(old(waiters).map(), canceled@),
            r == wakes(final(self)@, final(waiters).map()),
    {
        self.end_open(key);
        self.check_availibility(waiters, canceled)
    }
}

/// How an HTTP/2 connection is opened.
#[derive(Debug)]
pub struct H2Target {
    /// Settings of the connection.
    pub config: H2Config,
    /// Scheme of the target.
    pub scheme: String,
    /// Authority of the target.
    pub authority: String,
}

impl Inner {
    /// How an HTTP/2 connection to a target is opened: with the settings of the
    /// pool, to the scheme and the authority of the target.
    pub fn h2_target(&self, uri: &Uri) -> (r: H2Target)
        ensures
            r.config == self.h2config,
            r.scheme@ == (match uri@.scheme {
                Some(s) => s,
                None => "https"@,
            }),
            r.authority@ == (match uri@.authority {
                Some(a) => a,
                None => ""@,
            }),
    {
        let scheme = match &uri.scheme {
            Some(s) => s.as_str().to_owned(),
            None => "https".to_owned(),
        };
        let authority = match &uri.authority {
            Some(a) => a.as_str().to_owned(),
            None => "".to_owned(),
        };
        H2Target { config: self.h2config, scheme, authority }
    }
}

// ---------------------------------------------------------------------------
// Looking after those who wait
// ---------------------------------------------------------------------------

/// An order of the pool.
#[derive(Debug)]
pub enum PoolOp {
    /// Does something with a connection.
    Conn(ConnOp),
    /// Hands a connection that was opened at the given time to one who waits.
    Hand(Waiting, ConnectionType, u64, Acquired),
    /// Opens a connection for one who waits. The key is that of the host.
    Open(Waiting, Vec<u8>),
}

/// An order of the pool.
pub enum PoolOpView {
    Conn(ConnOp),
    /// The last two tell the host, and that the connection was not given back yet.
    Hand(Waiting, ConnectionType, u64, Seq<u8>, bool),
    Open(Waiting, Seq<u8>),
}

/// Contents of an order.
pub open spec fn op_view(op: PoolOp) -> PoolOpView {
    match op {
        PoolOp::Conn(op) => PoolOpView::Conn(op),
        PoolOp::Hand(w, io, created, a) => PoolOpView::Hand(w, io, created, a.key@, a.live),
        PoolOp::Open(w, key) => PoolOpView::Open(w, key@),
    }
}

/// Contents of orders.
pub open spec fn op_views(ops: Seq<PoolOp>) -> Seq<PoolOpView> {
    Seq::new(ops.len(), |i: int| op_view(ops[i]))
}

/// Orders to do something with connections.
pub open spec fn conn_ops(ops: Seq<ConnOp>) -> Seq<PoolOpView> {
    Seq::new(ops.len(), |i: int| PoolOpView::Conn(ops[i]))
}

/// What looking after the queue of a host gives: the pool, those who wait on,
/// and the orders.
pub struct Served {
    pub pool: PoolView,
    pub queue: Seq<Waiting>,
    pub ops: Seq<PoolOpView>,
}

/// Looks after the queue of a host: from the front, each one gets a connection
/// that is at hand or a new one, until there is neither. The connections that are
/// handed out can be given back, and the host of a new one is being opened.
pub open spec fn serve(p: PoolView, key: Seq<u8>, q: Seq<Waiting>, snap: Snapshot) -> Served
    decreases q.len(),
{
    if q.len() == 0 {
        Served { pool: p, queue: q, ops: Seq::empty() }
    } else if is_canceled(snap.canceled@, q[0].id) {
        serve(p, key, q.skip(1), snap)
    } else {
        let (after, found, shut) = acquire_from(p, key, snap);
        match found {
            Acquire::NotAvailable => Served { pool: after, queue: q, ops: conn_ops(shut) },
            Acquire::Acquired(io, created) => {
                let next = serve(one_more(after), key, q.skip(1), snap);
                Served {
                    ops: conn_ops(shut) + seq![PoolOpView::Hand(q[0], io, created, key, true)]
                        + next.ops,
                    ..next
                }
            },
            Acquire::Available => {
                let next = serve(opening(after, key, true), key, q.skip(1), snap);
                Served {
                    ops: conn_ops(shut) + seq![PoolOpView::Open(q[0], key)] + next.ops,
                    ..next
                }
            },
        }
    }
}

/// Those who wait on are the last ones of the queue, in their order: nobody is
/// overtaken.
pub proof fn nobody_is_overtaken(p: PoolView, key: Seq<u8>, q: Seq<Waiting>, snap: Snapshot)
    ensures
        serve(p, key, q, snap).queue.len() <= q.len(),
        serve(p, key, q, snap).queue == q.skip(q.len() - serve(p, key, q, snap).queue.len()),
    decreases q.len(),
{
    let out = serve(p, key, q, snap).queue;
    if q.len() == 0 {
        assert(q.skip(0) =~= q);
    } else {
        let (after, found, _) = acquire_from(p, key, snap);
        if is_canceled(snap.canceled@, q[0].id) {
            nobody_is_overtaken(p, key, q.skip(1), snap);
            assert(q.skip(1).skip(q.len() - 1 - out.len()) =~= q.skip(q.len() - out.len()));
        } else {
            match found {
                Acquire::NotAvailable => {
                    assert(q.skip(0) =~= q);
                },
                Acquire::Acquired(_, _) => {
                    nobody_is_overtaken(one_more(after), key, q.skip(1), snap);
                    assert(q.skip(1).skip(q.len() - 1 - out.len()) =~= q.skip(q.len() - out.len()));
                },
                Acquire::Available => {
                    nobody_is_overtaken(opening(after, key, true), key, q.skip(1), snap);
                    assert(q.skip(1).skip(q.len() - 1 - out.len()) =~= q.skip(q.len() - out.len()));
                },
            }
        }
    }
}

/// Looking after a queue keeps the limit: whatever is handed out and opened, the
/// connections in use and those that are being opened are never more.
pub proof fn serving_keeps_the_limit(p: PoolView, key: Seq<u8>, q: Seq<Waiting>, snap: Snapshot)
    requires
        within_limit(p),
    ensures
        within_limit(serve(p, key, q, snap).pool),
        serve(p, key, q, snap).pool.limit == p.limit,
    decreases q.len(),
{
    if q.len() > 0 {
        let (after, found, _) = acquire_from(p, key, snap);
        if is_canceled(snap.canceled@, q[0].id) {
            serving_keeps_the_limit(p, key, q.skip(1), snap);
        } else {
            match found {
                Acquire::NotAvailable => {},
                Acquire::Acquired(_, _) => {
                    serving_keeps_the_limit(one_more(after), key, q.skip(1), snap);
                },
                Acquire::Available => {
                    serving_keeps_the_limit(opening(after, key, true), key, q.skip(1), snap);
                },
            }
        }
    }
}

/// Every other change of the pool keeps the limit: one who asks gets a connection
/// that is at hand or a new one, a connection that was being opened is open or
/// failed, and one in use is given back.
pub proof fn changes_keep_the_limit(
    p: PoolView,
    key: Seq<u8>,
    io: ConnectionType,
    taken: bool,
    close: bool,
    created: u64,
    now: u64,
    snap: Snapshot,
)
    requires
        within_limit(p),
    ensures
        ({
            let (after, found, _) = acquire_from(p, key, snap);
            &&& within_limit(after)
            &&& found is Acquired ==> within_limit(one_more(after))
            &&& found is Available ==> within_limit(opening(after, key, true))
        }),
        p.connecting.contains(key) ==> within_limit(after_open(p, key, io, taken, now)),
        within_limit(opening(p, key, false)),
        within_limit(given_back(p, key, io, created, close, now)),
{
}

/// Number of those who wait.
pub open spec fn waiting_count(entries: Seq<(Vec<u8>, VecDeque<Waiting>)>) -> int
    decreases entries.len(),
{
    if entries.len() == 0 {
        0
    } else {
        entries[0].1@.len() + waiting_count(entries.skip(1))
    }
}

/// What looking after all queues, one after another, gives.
pub struct AllServed {
    pub pool: PoolView,
    pub queues: Map<Seq<u8>, Seq<Waiting>>,
    pub ops: Seq<PoolOpView>,
}

/// Looks after all queues, one after another.
pub open spec fn serve_all(
    p: PoolView,
    entries: Seq<(Vec<u8>, VecDeque<Waiting>)>,
    snap: Snapshot,
) -> AllServed
    decreases entries.len(),
{
    if entries.len() == 0 {
        AllServed { pool: p, queues: Map::empty(), ops: Seq::empty() }
    } else {
        let before = serve_all(p, entries.drop_last(), snap);
        let (key, q) = entries.last();
        let out = serve(before.pool, key@, q@, snap);
        AllServed {
            pool: out.pool,
            queues: if out.queue.len() == 0 {
                before.queues
            } else {
                before.queues.insert(key@, out.queue)
            },
            ops: before.ops + out.ops,
        }
    }
}

/// Looking after all queues keeps the limit.
pub proof fn looking_after_keeps_the_limit(
    p: PoolView,
    entries: Seq<(Vec<u8>, VecDeque<Waiting>)>,
    snap: Snapshot,
)
    requires
        within_limit(p),
    ensures
        within_limit(serve_all(p, entries, snap).pool),
        serve_all(p, entries, snap).pool.limit == p.limit,
    decreases entries.len(),
{
    if entries.len() > 0 {
        looking_after_keeps_the_limit(p, entries.drop_last(), snap);
        let before = serve_all(p, entries.drop_last(), snap).pool;
        serving_keeps_the_limit(before, entries.last().0@, entries.last().1@, snap);
    }
}

proof fn served_keys(p: PoolView, entries: Seq<(Vec<u8>, VecDeque<Waiting>)>, snap: Snapshot)
    ensures
        forall|k: Seq<u8>| #[trigger]
            serve_all(p, entries, snap).queues.contains_key(k) ==> has_key(entries, k),
    decreases entries.len(),
{
    if entries.len() > 0 {
        served_keys(p, entries.drop_last(), snap);
        assert forall|k: Seq<u8>| #[trigger]
            serve_all(p, entries, snap).queues.contains_key(k) implies has_key(entries, k) by {
            let before = entries.drop_last();
            if serve_all(p, before, snap).queues.contains_key(k) {
                let i = choose|i: int| 0 <= i < before.len() && (#[trigger] before[i]).0@ == k;
                assert(entries[i].0@ == k);
            } else {
                assert(entries[entries.len() - 1].0@ == k);
            }
        }
    }
}

fn push_conn_ops(ops: &mut Vec<PoolOp>, shut: &Vec<ConnOp>)
    ensures
        op_views(final(ops)@) == op_views(old(ops)@) + conn_ops(shut@),
{
    let mut i: usize = 0;
    assert(op_views(ops@) =~= op_views(old(ops)@) + conn_ops(shut@.take(0)));
    while i < shut.len()
        invariant
            i <= shut.len(),
            op_views(ops@) == op_views(old(ops)@) + conn_ops(shut@.take(i as int)),
        decreases shut.len() - i,
    {
        let ghost before = op_views(ops@);
        ops.push(PoolOp::Conn(shut[i]));
        proof {
            let one = PoolOpView::Conn(shut@[i as int]);
            assert(op_views(ops@) =~= before.push(one));
            assert(conn_ops(shut@.take(i + 1)) =~= conn_ops(shut@.take(i as int)).push(one));
            assert(op_views(ops@) =~= op_views(old(ops)@) + conn_ops(shut@.take(i + 1)));
        }
        i += 1;
    }
    assert(shut@.take(shut@.len() as int) =~= shut@);
}

impl Inner {
    fn serve_queue(
        &mut self,
        key: &[u8],
        q: &mut VecDeque<Waiting>,
        snap: &Snapshot,
        ops: &mut Vec<PoolOp>,
    )
        requires
            old(self).wf(),
            old(self).acquired + old(q)@.len() <= usize::MAX,
        ensures
            final(self).wf(),
            ({
                let out = serve(old(self)@, key@, old(q)@, *snap);
                &&& final(self)@ == out.pool
                &&& final(q)@ == out.queue
                &&& op_views(final(ops)@) == op_views(old(ops)@) + out.ops
            }),
            final(self).acquired <= old(self).acquired + old(q)@.len(),
    {
        let ghost out = serve(self@, key@, q@, *snap);
        let ghost ops0 = op_views(ops@);
        let ghost mut told: Seq<PoolOpView> = Seq::empty();
        proof {
            assert(told + out.ops =~= out.ops);
            assert(ops0 + told =~= ops0);
        }
        while q.len() > 0
            invariant_except_break
                ({
                    let rest = serve(self@, key@, q@, *snap);
                    &&& out.pool == rest.pool
                    &&& out.queue == rest.queue
                    &&& out.ops == told + rest.ops
                }),
                op_views(ops@) == ops0 + told,
            invariant
                self.wf(),
                out == serve(old(self)@, key@, old(q)@, *snap),
                ops0 == op_views(old(ops)@),
                old(self).acquired + old(q)@.len() <= usize::MAX,
                self.acquired + q@.len() <= old(self).acquired + old(q)@.len(),
            ensures
                self@ == out.pool,
                q@ == out.queue,
                op_views(ops@) == ops0 + out.ops,
            decreases q@.len(),
        {
            let ghost q0 = q@;
            let ghost p0 = self@;
            // is waiter still alive
            if canceled_id(&snap.canceled, q[0].id) {
                let _ = q.pop_front();
                assert(q@ =~= q0.skip(1));
                continue;
            }
            let (found, shut) = self.acquire(key, snap);
            push_conn_ops(ops, &shut);
            let ghost shut_ops = conn_ops(shut@);
            match found {
                Acquire::NotAvailable => {
                    proof {
                        assert(op_views(ops@) =~= ops0 + (told + shut_ops));
                    }
                    break;
                },
                Acquire::Acquired(io, created) => {
                    let ghost seen = op_views(ops@);
                    match q.pop_front() {
                        Some(w) => {
                            let a = self.hold(copy_bytes(key));
                            ops.push(PoolOp::Hand(w, io, created, a));
                            proof {
                                let one = PoolOpView::Hand(q0[0], io, created, key@, true);
                                assert(q@ =~= q0.skip(1));
                                assert(op_views(ops@) =~= seen.push(one));
                                let rest = serve(self@, key@, q@, *snap);
                                assert(told + (shut_ops + seq![one] + rest.ops) =~= (told
                                    + shut_ops + seq![one]) + rest.ops);
                                told = told + shut_ops + seq![one];
                                assert(op_views(ops@) =~= ops0 + told);
                            }
                        },
                        None => {},
                    }
                },
                Acquire::Available => {
                    let ghost seen = op_views(ops@);
                    match q.pop_front() {
                        Some(w) => {
                            self.begin_open(key);
                            ops.push(PoolOp::Open(w, copy_bytes(key)));
                            proof {
                                let one = PoolOpView::Open(q0[0], key@);
                                assert(q@ =~= q0.skip(1));
                                assert(op_views(ops@) =~= seen.push(one));
                                let rest = serve(self@, key@, q@, *snap);
                                assert(told + (shut_ops + seq![one] + rest.ops) =~= (told
                                    + shut_ops + seq![one]) + rest.ops);
                                told = told + shut_ops + seq![one];
                                assert(op_views(ops@) =~= ops0 + told);
                            }
                        },
                        None => {},
                    }
                },
            }
        }
    }

    /// Looks after those who wait.
    pub fn look_after(&mut self, waiters: &mut Waiters, snap: &Snapshot) -> (r: Vec<PoolOp>)
        requires
            old(self).wf(),
            old(waiters).wf(),
            old(self).acquired + waiting_count(old(waiters).waiters.entries@) <= usize::MAX,
        ensures
            final(self).wf(),
            final(waiters).wf(),
            ({
                let out = serve_all(old(self)@, old(waiters).waiters.entries@, *snap);
                &&& final(self)@ == out.pool
                &&& final(waiters).map() == out.queues
                &&& op_views(r@) == out.ops
            }),
    {
        let ghost p = self@;
        let ghost all = waiters.waiters.entries@;
        let mut ops: Vec<PoolOp> = Vec::new();
        let mut entries: Vec<(Vec<u8>, VecDeque<Waiting>)> = Vec::new();
        std::mem::swap(&mut waiters.waiters.entries, &mut entries);
        let mut kept: Queues<Waiting> = Queues::new();
        let ghost mut i: int = 0;
        proof {
            assert(entries@ =~= all.skip(0));
            assert(all.take(0).len() == 0);
            assert(op_views(ops@) =~= Seq::empty());
        }
        while entries.len() > 0
            invariant
                0 <= i <= all.len(),
                p == old(self)@,
                entries@ == all.skip(i),
                distinct(all),
                self.wf(),
                self.acquired + waiting_count(entries@) <= usize::MAX,
                kept.wf(),
                ({
                    let out = serve_all(p, all.take(i), *snap);
                    &&& self@ == out.pool
                    &&& kept.map() == out.queues
                    &&& op_views(ops@) == out.ops
                }),
            decreases entries.len(),
        {
            let ghost e = all[i];
            let ghost count = waiting_count(entries@);
            let ghost first = entries@[0];
            let (key, mut q) = entries.remove(0);
            proof {
                assert(entries@ =~= all.skip(i + 1));
                assert(all.skip(i).skip(1) =~= all.skip(i + 1));
                assert(count == q@.len() + waiting_count(entries@));
                count_is_positive(entries@);
            }
            self.serve_queue(key.as_slice(), &mut q, snap, &mut ops);
            proof {
                let before = all.take(i);
                let now_all = all.take(i + 1);
                assert(now_all.drop_last() =~= before);
                assert(now_all.last() == e);
                served_keys(p, before, *snap);
                assert(!kept.map().contains_key(key@)) by {
                    if kept.map().contains_key(key@) {
                        let j = choose|j: int|
                            0 <= j < before.len() && (#[trigger] before[j]).0@ == key@;
                        assert(all[j].0@ == all[i].0@);
                    }
                }
            }
            if q.len() > 0 {
                kept.put(key, q);
            }
            proof {
                i = i + 1;
            }
        }
        proof {
            assert(all.take(i) =~= all);
        }
        waiters.waiters = kept;
        ops
    }
}

proof fn count_is_positive(entries: Seq<(Vec<u8>, VecDeque<Waiting>)>)
    ensures
        waiting_count(entries) >= 0,
    decreases entries.len(),
{
    if entries.len() > 0 {
        count_is_positive(entries.skip(1));
    }
}

// ---------------------------------------------------------------------------
// Asking for a connection
// ---------------------------------------------------------------------------

/// The answer to one who asks for a connection.
#[derive(Debug)]
pub enum Asked {
    /// The target names no host.
    Unresolved,
    /// A connection that was opened at the given time.
    Use(ConnectionType, u64, Acquired),
    /// A connection is opened. The key is that of the host.
    Open(Connect, Vec<u8>),
    /// The one who asks waits.
    Wait,
}

/// Connections pool
#[derive(Debug)]
pub struct ConnectionPool {
    pub inner: Inner,
    pub waiters: Waiters,
}

/// Somebody asks for a connection: one that is at hand is in use from now on, a new
/// one is being opened, or the one who asks waits as the last of the host.
pub open spec fn asked_for(
    p: PoolView,
    waiters: Map<Seq<u8>, Seq<Waiting>>,
    req: Connect,
    id: u64,
    snap: Snapshot,
    p_after: PoolView,
    waiters_after: Map<Seq<u8>, Seq<Waiting>>,
    r: Asked,
    ops: Seq<ConnOp>,
) -> bool {
    match req.uri@.authority {
        None => r is Unresolved && ops.len() == 0 && p_after == p && waiters_after == waiters,
        Some(authority) => {
            let key = key_of_host(authority);
            let (after, found, shut) = acquire_from(p, key, snap);
            &&& ops == shut
            &&& match found {
                Acquire::Acquired(io, created) => {
                    &&& r matches Asked::Use(io2, created2, a)
                    &&& io2 == io
                    &&& created2 == created
                    &&& a.key@ == key
                    &&& a.live
                    &&& p_after == one_more(after)
                    &&& waiters_after == waiters
                },
                Acquire::Available => {
                    &&& r matches Asked::Open(connect, k)
                    &&& connect == req
                    &&& k@ == key
                    &&& p_after == opening(after, key, true)
                    &&& waiters_after == waiters
                },
                Acquire::NotAvailable => {
                    &&& r is Wait
                    &&& p_after == after
                    &&& waiters_after == waiters.insert(
                        key,
                        (if waiters.contains_key(key) {
                            waiters[key]
                        } else {
                            Seq::empty()
                        }).push(Waiting { id, connect: req }),
                    )
                },
            }
        },
    }
}

impl ConnectionPool {
    /// No host has two lists.
    pub open spec fn wf(self) -> bool {
        self.inner.wf() && self.waiters.wf()
    }

    /// A pool without connections.
    pub fn new(
        conn_lifetime: u64,
        conn_keep_alive: u64,
        disconnect_timeout: Seconds,
        limit: usize,
        h2config: H2Config,
    ) -> (r: ConnectionPool)
        ensures
            r.wf(),
            r.inner@ == (PoolView {
                conn_lifetime,
                conn_keep_alive,
                disconnect_timeout,
                limit,
                h2config,
                acquired: 0,
                available: Map::empty(),
                connecting: Set::empty(),
            }),
            r.waiters.map() == Map::<Seq<u8>, Seq<Waiting>>::empty(),
    {
        ConnectionPool {
            inner: Inner::new(
                conn_lifetime,
                conn_keep_alive,
                disconnect_timeout,
                limit,
                h2config,
            ),
            waiters: Waiters::new(),
        }
    }

    /// Asks for a connection under an id. The second result says what is done with
    /// the connections.
    pub fn call(&mut self, req: Connect, id: u64, snap: &Snapshot) -> (r: (Asked, Vec<ConnOp>))
        requires
            old(self).wf(),
            old(self).inner.acquired < usize::MAX,
        ensures
            final(self).wf(),
            asked_for(
                old(self).inner@,
                old(self).waiters.map(),
                req,
                id,
                *snap,
                final(self).inner@,
                final(self).waiters.map(),
                r.0,
                r.1@,
            ),
    {
        let key = match &req.uri.authority {
            Some(authority) => host_key(authority.as_str()),
            None => {
                return (Asked::Unresolved, Vec::new());
            },
        };
        // acquire connection
        let (found, shut) = self.inner.acquire(key.as_slice(), snap);
        match found {
            // use existing connection
            Acquire::Acquired(io, created) => {
                let a = self.inner.hold(key);
                (Asked::Use(io, created, a), shut)
            },
            // open new tcp connection
            Acquire::Available => {
                self.inner.begin_open(key.as_slice());
                (Asked::Open(req, key), shut)
            },
            // pool is full, wait
            Acquire::NotAvailable => {
                self.waiters.wait_for(key, id, req);
                (Asked::Wait, shut)
            },
        }
    }
}

} // verus!
