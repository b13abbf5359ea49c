//! Connections of the client.

use vstd::prelude::*;
use vstd::utf8::encode_utf8;

use crate::client::pool::{
    acquire_from, after_open, asked_for, cleaned, cleared, conns_of, given_back, has_room,
    is_canceled, is_clean, is_stale, is_usable, key_of_host, newest, one_more, op_view, opening,
    serve, stale_behind, still_waiting, wakes, Acquire, Asked, AvailableConnection, ConnOp, Connect,
    ConnectionType, PoolOp, PoolOpView, PoolView, Snapshot, Waiting,
};
use crate::text::eq_ignore_case;

verus! {

/// A connection can be used where it was neither unused nor open for too long, and
/// was found open; one that carries one request at a time also has to be without
/// bytes that were not read, but for a stray line end.
pub proof fn usable_means(p: PoolView, c: AvailableConnection, snap: Snapshot)
    ensures
        is_usable(p, c, snap) <==> {
            &&& snap.now <= c.used || snap.now - c.used <= p.conn_keep_alive
            &&& snap.now <= c.created || snap.now - c.created <= p.conn_lifetime
            &&& exists|i: int|
                0 <= i < snap.conns@.len() && {
                    let s = #[trigger] snap.conns@[i];
                    &&& s.id == (match c.io {
                        ConnectionType::H1(id) => id,
                        ConnectionType::H2(id) => id,
                    })
                    &&& !s.closed
                    &&& c.io is H1 ==> s.buf@ == Seq::<u8>::empty() || s.buf@ == seq![13u8, 10]
                }
        },
{
    let id = match c.io {
        ConnectionType::H1(id) => id,
        ConnectionType::H2(id) => id,
    };
    assert(c.io.id() == id);
    assert forall|i: int| 0 <= i < snap.conns@.len() implies (is_clean(
        (#[trigger] snap.conns@[i]).buf@,
    ) <==> snap.conns@[i].buf@ == Seq::<u8>::empty() || snap.conns@[i].buf@ == seq![13u8, 10]) by {
        let b = snap.conns@[i].buf@;
        if b.len() == 0 {
            assert(b =~= Seq::<u8>::empty());
        }
        assert(crate::text::crlf() =~= seq![13u8, 10]);
    }
}

proof fn newest_is_last(p: PoolView, conns: Seq<AvailableConnection>, snap: Snapshot)
    ensures
        ({
            let n = newest(p, conns, snap);
            &&& -1 <= n < conns.len()
            &&& n >= 0 ==> is_usable(p, conns[n], snap)
            &&& forall|j: int| n < j < conns.len() ==> !is_usable(p, #[trigger] conns[j], snap)
        }),
    decreases conns.len(),
{
    if conns.len() > 0 && !is_usable(p, conns.last(), snap) {
        let front = conns.drop_last();
        newest_is_last(p, front, snap);
        let n = newest(p, front, snap);
        assert forall|j: int| n < j < conns.len() implies !is_usable(
            p,
            #[trigger] conns[j],
            snap,
        ) by {
            if j < front.len() {
                assert(front[j] == conns[j]);
            }
        }
    }
}

/// Looking for a connection loses none that can still be used. The one that is
/// handed out is the last one that can be used; those before it stay at hand, all
/// of them and in their order. One that carries several requests stays, too. Where
/// none can be used, none is handed out. Other hosts keep theirs, and without room
/// nothing changes.
pub proof fn looking_loses_none(p: PoolView, key: Seq<u8>, snap: Snapshot)
    ensures
        ({
            let (after, found, _) = acquire_from(p, key, snap);
            let conns = conns_of(p, key);
            let left = conns_of(after, key);
            &&& !has_room(p) ==> after == p && found is NotAvailable
            &&& has_room(p) ==> match found {
                Acquire::Acquired(io, created) => exists|i: int|
                    0 <= i < conns.len() && {
                        let c = #[trigger] conns[i];
                        &&& c.io == io
                        &&& c.created == created
                        &&& is_usable(p, c, snap)
                        &&& forall|j: int|
                            i < j < conns.len() ==> !is_usable(p, #[trigger] conns[j], snap)
                        &&& io is H1 ==> left == conns.take(i)
                        &&& io is H2 ==> left == seq![
                            AvailableConnection { io, used: snap.now, created },
                        ] + conns.take(i)
                    },
                _ => {
                    &&& forall|j: int|
                        0 <= j < conns.len() ==> !is_usable(p, #[trigger] conns[j], snap)
                    &&& left == Seq::<AvailableConnection>::empty()
                    &&& found is Available <==> !p.connecting.contains(key)
                },
            }
            &&& forall|other: Seq<u8>|
                other != key ==> #[trigger] conns_of(after, other) == conns_of(p, other)
            &&& after.acquired == p.acquired
            &&& after.connecting == p.connecting
            &&& after.limit == p.limit
        }),
{
    let conns = conns_of(p, key);
    newest_is_last(p, conns, snap);
    let n = newest(p, conns, snap);
    let (after, found, _) = acquire_from(p, key, snap);
    if has_room(p) {
        if p.available.contains_key(key) {
            if n >= 0 {
                assert(conns[n].io == found->Acquired_0);
            }
        } else {
            assert(conns.len() == 0);
        }
    }
    assert forall|other: Seq<u8>| other != key implies #[trigger] conns_of(after, other)
        == conns_of(p, other) by {}
}

/// Where two connections of a host can be used, taking the one leaves the other to
/// be handed out next.
pub proof fn the_other_is_next(p: PoolView, key: Seq<u8>, snap: Snapshot, i: int, j: int)
    requires
        ({
            let conns = conns_of(p, key);
            &&& 0 <= i < j < conns.len()
            &&& conns[i].io is H1
            &&& conns[j].io is H1
            &&& is_usable(p, conns[i], snap)
            &&& is_usable(p, conns[j], snap)
            &&& forall|k: int|
                i < k < conns.len() && k != j ==> !is_usable(p, #[trigger] conns[k], snap)
        }),
        has_room(p),
        has_room(one_more(acquire_from(p, key, snap).0)),
    ensures
        ({
            let conns = conns_of(p, key);
            let (after, found, _) = acquire_from(p, key, snap);
            let (_, second, _) = acquire_from(one_more(after), key, snap);
            &&& found == Acquire::Acquired(conns[j].io, conns[j].created)
            &&& second == Acquire::Acquired(conns[i].io, conns[i].created)
        }),
{
    let conns = conns_of(p, key);
    let (after, found, _) = acquire_from(p, key, snap);
    let next = one_more(after);
    newest_is_last(p, conns, snap);
    let n = newest(p, conns, snap);
    assert(is_usable(p, conns[j], snap));
    assert(n == j) by {
        if n < j {
            assert(!is_usable(p, conns[j], snap));
        }
        if n > j {
            assert(is_usable(p, conns[n], snap));
        }
    }
    let left = conns_of(next, key);
    assert(left == conns.take(j));
    assert forall|c: AvailableConnection| is_usable(next, c, snap) == #[trigger] is_usable(
        p,
        c,
        snap,
    ) by {}
    newest_is_last(next, left, snap);
    let m = newest(next, left, snap);
    assert(left[i] == conns[i]);
    assert(is_usable(p, conns[i], snap));
    assert(m == i) by {
        if m < i {
            assert(!is_usable(next, left[i], snap));
        }
        if m > i {
            assert(left[m] == conns[m]);
            assert(is_usable(p, conns[m], snap));
        }
    }
}

/// Those that were unused or open for too long and were looked at are shut down,
/// where they carry one request at a time, and no other is. The bytes of the one
/// that is handed out are dropped where it carries one request at a time, and
/// those of no other.
pub proof fn stale_ones_are_shut_down(p: PoolView, key: Seq<u8>, snap: Snapshot, id: u64)
    ensures
        ({
            let (_, found, ops) = acquire_from(p, key, snap);
            let conns = conns_of(p, key);
            let n = newest(p, conns, snap);
            &&& ops.contains(ConnOp::Shutdown(id)) <==> has_room(p) && exists|j: int|
                n < j < conns.len() && (#[trigger] conns[j]).io == ConnectionType::H1(id) && (
                snap.now > conns[j].used && snap.now - conns[j].used > p.conn_keep_alive || snap.now
                    > conns[j].created && snap.now - conns[j].created > p.conn_lifetime)
            &&& ops.contains(ConnOp::Clear(id)) <==> (found matches Acquire::Acquired(
                ConnectionType::H1(i),
                _,
            ) && i == id)
        }),
{
    let (_, found, ops) = acquire_from(p, key, snap);
    let conns = conns_of(p, key);
    newest_is_last(p, conns, snap);
    let n = newest(p, conns, snap);
    if has_room(p) && p.available.contains_key(key) {
        stale_are_listed(p, conns, n, snap.now, id);
        let stale = stale_behind(p, conns, n, snap.now);
        let more = if n >= 0 {
            cleared(conns[n].io)
        } else {
            Seq::empty()
        };
        assert(ops == stale + more);
        if stale.contains(ConnOp::Shutdown(id)) {
            let i = choose|i: int| 0 <= i < stale.len() && stale[i] == ConnOp::Shutdown(id);
            assert(ops[i] == ConnOp::Shutdown(id));
        }
        if ops.contains(ConnOp::Shutdown(id)) {
            let i = choose|i: int| 0 <= i < ops.len() && ops[i] == ConnOp::Shutdown(id);
            if i >= stale.len() {
                assert(more[i - stale.len()] == ConnOp::Shutdown(id));
            } else {
                assert(stale[i] == ConnOp::Shutdown(id));
            }
        }
        if ops.contains(ConnOp::Clear(id)) {
            let i = choose|i: int| 0 <= i < ops.len() && ops[i] == ConnOp::Clear(id);
            if i < stale.len() {
                assert(stale[i] == ConnOp::Clear(id));
            } else {
                assert(more[i - stale.len()] == ConnOp::Clear(id));
            }
        }
        if n >= 0 && conns[n].io == ConnectionType::H1(id) {
            assert(ops[stale.len() as int] == ConnOp::Clear(id));
        }
    } else {
        assert(ops =~= Seq::empty());
    }
}

proof fn stale_are_listed(
    p: PoolView,
    conns: Seq<AvailableConnection>,
    n: int,
    now: u64,
    id: u64,
)
    requires
        -1 <= n,
    ensures
        ({
            let l = stale_behind(p, conns, n, now);
            &&& l.contains(ConnOp::Shutdown(id)) <==> exists|j: int|
                n < j < conns.len() && (#[trigger] conns[j]).io == ConnectionType::H1(id)
                    && is_stale(p, conns[j], now)
            &&& !l.contains(ConnOp::Clear(id))
        }),
    decreases conns.len(),
{
    let l = stale_behind(p, conns, n, now);
    if conns.len() > 0 && conns.len() - 1 > n {
        let front = conns.drop_last();
        stale_are_listed(p, front, n, now, id);
        let tail = stale_behind(p, front, n, now);
        let c = conns.last();
        let hit = is_stale(p, c, now) && c.io is H1;
        if hit {
            assert(l[0] == ConnOp::Shutdown(c.io.id()));
            assert(l =~= seq![ConnOp::Shutdown(c.io.id())] + tail);
        }
        if tail.contains(ConnOp::Shutdown(id)) {
            let i = choose|i: int| 0 <= i < tail.len() && tail[i] == ConnOp::Shutdown(id);
            if hit {
                assert(l[i + 1] == ConnOp::Shutdown(id));
            }
            let j = choose|j: int|
                n < j < front.len() && (#[trigger] front[j]).io == ConnectionType::H1(id)
                    && is_stale(p, front[j], now);
            assert(conns[j].io == ConnectionType::H1(id) && is_stale(p, conns[j], now));
        }
        if l.contains(ConnOp::Shutdown(id)) {
            let i = choose|i: int| 0 <= i < l.len() && l[i] == ConnOp::Shutdown(id);
            if hit {
                if i == 0 {
                    assert(conns[conns.len() - 1].io == ConnectionType::H1(id));
                } else {
                    assert(tail[i - 1] == ConnOp::Shutdown(id));
                }
            }
        }
        if exists|j: int|
            n < j < conns.len() && (#[trigger] conns[j]).io == ConnectionType::H1(id) && is_stale(
                p,
                conns[j],
                now,
            ) {
            let j = choose|j: int|
                n < j < conns.len() && (#[trigger] conns[j]).io == ConnectionType::H1(id)
                    && is_stale(p, conns[j], now);
            if j < front.len() {
                assert(front[j] == conns[j]);
            }
        }
        if l.contains(ConnOp::Clear(id)) {
            let i = choose|i: int| 0 <= i < l.len() && l[i] == ConnOp::Clear(id);
            if hit {
                assert(tail[i - 1] == ConnOp::Clear(id));
            }
        }
    } else {
        assert(l =~= Seq::empty());
    }
}

/// A connection that is given back makes room for one more. It is at hand again as
/// the last of its host, unless it is closed; all others stay as they are.
pub proof fn giving_back_makes_room(
    p: PoolView,
    key: Seq<u8>,
    io: ConnectionType,
    created: u64,
    close: bool,
    now: u64,
)
    ensures
        ({
            let after = given_back(p, key, io, created, close, now);
            let c = AvailableConnection { io, used: now, created };
            &&& after.acquired == p.acquired - 1
            &&& after.connecting == p.connecting
            &&& after.limit == p.limit
            &&& after.conn_lifetime == p.conn_lifetime
            &&& after.conn_keep_alive == p.conn_keep_alive
            &&& close ==> conns_of(after, key) == conns_of(p, key)
            &&& !close ==> conns_of(after, key) == conns_of(p, key).push(c)
            &&& forall|other: Seq<u8>|
                other != key ==> #[trigger] conns_of(after, other) == conns_of(p, other)
        }),
{
}

/// A connection that was opened is one more in use where somebody took it; where
/// nobody did, it is at hand. One that carries several requests is at hand either
/// way. Its host is not being opened any more, others are.
pub proof fn opened_is_in_use_or_at_hand(
    p: PoolView,
    key: Seq<u8>,
    io: ConnectionType,
    taken: bool,
    now: u64,
)
    ensures
        ({
            let after = after_open(p, key, io, taken, now);
            let c = AvailableConnection { io, used: now, created: now };
            &&& after.acquired == p.acquired + (if taken {
                1int
            } else {
                0
            })
            &&& conns_of(after, key) == (if taken && io is H1 {
                conns_of(p, key)
            } else {
                conns_of(p, key).push(c)
            })
            &&& !after.connecting.contains(key)
            &&& forall|other: Seq<u8>|
                other != key ==> #[trigger] conns_of(after, other) == conns_of(p, other) && (
                after.connecting.contains(other) <==> p.connecting.contains(other))
            &&& after.limit == p.limit
        }),
{
}

/// There is room where no limit is set, or the connections in use and those being
/// opened are fewer than it. Those who wait are looked after exactly where there is
/// room and somebody waits.
pub proof fn room_means(p: PoolView, m: Map<Seq<u8>, Seq<Waiting>>)
    ensures
        has_room(p) <==> p.limit == 0 || p.acquired + p.connecting.len() < p.limit,
        wakes(p, m) <==> has_room(p) && exists|k: Seq<u8>| m.contains_key(k),
{
    if exists|k: Seq<u8>| m.contains_key(k) {
        let k = choose|k: Seq<u8>| m.contains_key(k);
        assert(m.dom().contains(k));
    } else {
        assert(m.dom() =~= Set::empty());
    }
}

/// Hosts are told apart by their authority, whatever its case.
pub proof fn hosts_are_the_same_up_to_case(a: Seq<char>, b: Seq<char>)
    ensures
        key_of_host(a) == key_of_host(b) <==> eq_ignore_case(encode_utf8(a), encode_utf8(b)),
{
}

/// Nobody who still waits is dropped when those who wait no more are: they are
/// taken from the front only, up to the first who still waits, and a host without
/// anybody is dropped.
pub proof fn waiting_is_kept(q: Seq<Waiting>, canceled: Seq<u64>)
    ensures
        ({
            let left = still_waiting(q, canceled);
            &&& left.len() <= q.len()
            &&& left == q.skip(q.len() - left.len())
            &&& left.len() > 0 ==> !canceled.contains(left[0].id)
            &&& forall|i: int|
                0 <= i < q.len() - left.len() ==> canceled.contains((#[trigger] q[i]).id)
        }),
    decreases q.len(),
{
    if q.len() > 0 && is_canceled(canceled, q[0].id) {
        waiting_is_kept(q.skip(1), canceled);
        let left = still_waiting(q, canceled);
        assert(q.skip(1).skip(q.len() - 1 - left.len()) =~= q.skip(q.len() - left.len()));
        assert forall|i: int| 0 <= i < q.len() - left.len() implies canceled.contains(
            (#[trigger] q[i]).id,
        ) by {
            if i > 0 {
                assert(q[i] == q.skip(1)[i - 1]);
            }
        }
    } else {
        assert(q.skip(0) =~= q);
    }
}

/// The queues of all hosts are cleaned in that way.
pub proof fn waiting_is_kept_everywhere(
    m: Map<Seq<u8>, Seq<Waiting>>,
    canceled: Seq<u64>,
    k: Seq<u8>,
    i: int,
)
    requires
        m.contains_key(k),
        0 <= i < m[k].len(),
        !canceled.contains(m[k][i].id),
    ensures
        cleaned(m, canceled).contains_key(k),
        cleaned(m, canceled)[k].contains(m[k][i]),
{
    let q = m[k];
    waiting_is_kept(q, canceled);
    let left = still_waiting(q, canceled);
    let cut = q.len() - left.len();
    if i < cut {
        assert(canceled.contains(q[i].id));
    }
    assert(left[i - cut] == q[i]);
}

/// The one who waits, of an order.
pub open spec fn served_by(op: PoolOpView) -> Option<Waiting> {
    match op {
        PoolOpView::Hand(w, _, _, _, _) => Some(w),
        PoolOpView::Open(w, _) => Some(w),
        PoolOpView::Conn(_) => None,
    }
}

/// Those who are served, in the order of the orders.
pub open spec fn served(ops: Seq<PoolOpView>) -> Seq<Waiting>
    decreases ops.len(),
{
    if ops.len() == 0 {
        Seq::empty()
    } else {
        match served_by(ops[0]) {
            Some(w) => seq![w] + served(ops.skip(1)),
            None => served(ops.skip(1)),
        }
    }
}

/// Those of a queue who still wait.
pub open spec fn alive(q: Seq<Waiting>, canceled: Seq<u64>) -> Seq<Waiting>
    decreases q.len(),
{
    if q.len() == 0 {
        Seq::empty()
    } else if canceled.contains(q[0].id) {
        alive(q.skip(1), canceled)
    } else {
        seq![q[0]] + alive(q.skip(1), canceled)
    }
}

proof fn served_both(a: Seq<PoolOpView>, b: Seq<PoolOpView>)
    ensures
        served(a + b) == served(a) + served(b),
    decreases a.len(),
{
    if a.len() == 0 {
        assert(a + b =~= b);
        assert(served(a) + served(b) =~= served(b));
    } else {
        served_both(a.skip(1), b);
        assert((a + b).skip(1) =~= a.skip(1) + b);
        assert((a + b)[0] == a[0]);
        if let Some(w) = served_by(a[0]) {
            assert(seq![w] + (served(a.skip(1)) + served(b)) =~= seq![w] + served(a.skip(1))
                + served(b));
        }
    }
}

proof fn nobody_served_by_conn_ops(ops: Seq<ConnOp>)
    ensures
        served(crate::client::pool::conn_ops(ops)) == Seq::<Waiting>::empty(),
    decreases ops.len(),
{
    let l = crate::client::pool::conn_ops(ops);
    if ops.len() > 0 {
        nobody_served_by_conn_ops(ops.skip(1));
        assert(l.skip(1) =~= crate::client::pool::conn_ops(ops.skip(1)));
    }
}

/// Looking after the queue of a host serves those who still wait in the order in
/// which they came, each of them once: who is served and who waits on are together
/// all who still wait.
pub proof fn everybody_is_served_in_turn(
    p: PoolView,
    key: Seq<u8>,
    q: Seq<Waiting>,
    snap: Snapshot,
)
    ensures
        ({
            let out = serve(p, key, q, snap);
            served(out.ops) + alive(out.queue, snap.canceled@) == alive(q, snap.canceled@)
        }),
    decreases q.len(),
{
    let out = serve(p, key, q, snap);
    let canceled = snap.canceled@;
    if q.len() == 0 {
        assert(served(out.ops) + alive(q, canceled) =~= alive(q, canceled));
    } else if is_canceled(canceled, q[0].id) {
        everybody_is_served_in_turn(p, key, q.skip(1), snap);
    } else {
        let (after, found, shut) = acquire_from(p, key, snap);
        let first = crate::client::pool::conn_ops(shut);
        nobody_served_by_conn_ops(shut);
        match found {
            Acquire::NotAvailable => {
                assert(served(out.ops) + alive(q, canceled) =~= alive(q, canceled));
            },
            Acquire::Acquired(io, created) => {
                let next = serve(one_more(after), key, q.skip(1), snap);
                everybody_is_served_in_turn(one_more(after), key, q.skip(1), snap);
                let one = PoolOpView::Hand(q[0], io, created, key, true);
                served_in_a_row(first, one, next.ops, q[0]);
                assert(served(out.ops) + alive(out.queue, canceled) =~= seq![q[0]] + (served(
                    next.ops,
                ) + alive(next.queue, canceled)));
            },
            Acquire::Available => {
                let mid = opening(after, key, true);
                let next = serve(mid, key, q.skip(1), snap);
                everybody_is_served_in_turn(mid, key, q.skip(1), snap);
                let one = PoolOpView::Open(q[0], key);
                served_in_a_row(first, one, next.ops, q[0]);
                assert(served(out.ops) + alive(out.queue, canceled) =~= seq![q[0]] + (served(
                    next.ops,
                ) + alive(next.queue, canceled)));
            },
        }
    }
}

proof fn served_in_a_row(
    first: Seq<PoolOpView>,
    one: PoolOpView,
    then: Seq<PoolOpView>,
    w: Waiting,
)
    requires
        served(first) == Seq::<Waiting>::empty(),
        served_by(one) == Some(w),
    ensures
        served(first + seq![one] + then) == seq![w] + served(then),
{
    served_both(first + seq![one], then);
    served_both(first, seq![one]);
    assert(seq![one].skip(1) =~= Seq::empty());
    assert(served(seq![one].skip(1)) =~= Seq::empty());
    assert(served(seq![one]) =~= seq![w]);
    assert(served(first + seq![one]) =~= seq![w]);
}

/// Looking after a queue stops only where nobody waits, or no connection can be had
/// for the next one.
pub proof fn nobody_waits_needlessly(p: PoolView, key: Seq<u8>, q: Seq<Waiting>, snap: Snapshot)
    ensures
        ({
            let out = serve(p, key, q, snap);
            out.queue.len() > 0 ==> !snap.canceled@.contains(out.queue[0].id) && acquire_from(
                out.pool,
                key,
                snap,
            ).1 is NotAvailable
        }),
    decreases q.len(),
{
    if q.len() > 0 {
        if is_canceled(snap.canceled@, q[0].id) {
            nobody_waits_needlessly(p, key, q.skip(1), snap);
        } else {
            let (after, found, _) = acquire_from(p, key, snap);
            match found {
                Acquire::NotAvailable => {
                    looking_loses_none(p, key, snap);
                    if has_room(p) {
                        let left = conns_of(after, key);
                        looking_loses_none(after, key, snap);
                        assert(has_room(after));
                        assert(after.connecting.contains(key));
                        if let Acquire::Acquired(_, _) = acquire_from(after, key, snap).1 {
                            assert(left.len() == 0);
                        }
                    }
                },
                Acquire::Acquired(_, _) => {
                    nobody_waits_needlessly(one_more(after), key, q.skip(1), snap);
                },
                Acquire::Available => {
                    nobody_waits_needlessly(opening(after, key, true), key, q.skip(1), snap);
                },
            }
        }
    }
}

/// An order tells all that it holds.
pub proof fn orders_are_told(op: PoolOp)
    ensures
        op matches PoolOp::Hand(w2, io2, c2, a) ==> op_view(op) == PoolOpView::Hand(
            w2,
            io2,
            c2,
            a.key@,
            a.live,
        ),
        op matches PoolOp::Open(w2, k) ==> op_view(op) == PoolOpView::Open(w2, k@),
        op matches PoolOp::Conn(c) ==> op_view(op) == PoolOpView::Conn(c),
{
}

/// One who asks for a connection gets one of the host that can be used, and it is in
/// use from then on; or is told to open one, and the host is being opened from then
/// on; or waits behind those who wait for the host. Nobody else is affected, and a
/// target without a host is refused.
pub proof fn asking_is_answered(
    p: PoolView,
    waiters: Map<Seq<u8>, Seq<Waiting>>,
    req: Connect,
    id: u64,
    snap: Snapshot,
    p_after: PoolView,
    waiters_after: Map<Seq<u8>, Seq<Waiting>>,
    r: Asked,
    ops: Seq<ConnOp>,
)
    requires
        asked_for(p, waiters, req, id, snap, p_after, waiters_after, r, ops),
    ensures
        req.uri@.authority is None <==> r is Unresolved,
        req.uri@.authority matches Some(a) ==> {
            let key = key_of_host(a);
            let usable = exists|i: int|
                0 <= i < conns_of(p, key).len() && is_usable(
                    p,
                    #[trigger] conns_of(p, key)[i],
                    snap,
                );
            &&& r is Use <==> has_room(p) && usable
            &&& r is Open <==> has_room(p) && !usable && !p.connecting.contains(key)
            &&& r matches Asked::Use(io, created, guard) ==> guard.live && guard.key@ == key
                && p_after.acquired == p.acquired + 1 && p_after.connecting == p.connecting
            &&& r matches Asked::Open(connect, k) ==> connect == req && k@ == key
                && p_after.connecting == p.connecting.insert(key) && p_after.acquired == p.acquired
            &&& r is Wait ==> p_after.acquired == p.acquired && p_after.connecting == p.connecting
                && waiters_after.contains_key(key) && waiters_after[key].last() == (Waiting {
                id,
                connect: req,
            }) && waiters_after[key].drop_last() == (if waiters.contains_key(key) {
                waiters[key]
            } else {
                Seq::empty()
            })
            &&& !(r is Wait) ==> waiters_after == waiters
            &&& forall|other: Seq<u8>|
                other != key ==> (waiters_after.contains_key(other) <==> waiters.contains_key(
                    other,
                )) && #[trigger] conns_of(p_after, other) == conns_of(p, other)
        },
{
    if let Some(a) = req.uri@.authority {
        let key = key_of_host(a);
        looking_loses_none(p, key, snap);
        let conns = conns_of(p, key);
        let (after, found, _) = acquire_from(p, key, snap);
        if let Acquire::Acquired(io, created) = found {
            let i = choose|i: int|
                0 <= i < conns.len() && {
                    let c = #[trigger] conns[i];
                    &&& c.io == io
                    &&& c.created == created
                    &&& is_usable(p, c, snap)
                };
            assert(is_usable(p, conns_of(p, key)[i], snap));
        }
        if r is Wait {
            let q = if waiters.contains_key(key) {
                waiters[key]
            } else {
                Seq::empty()
            };
            assert(waiters_after[key].drop_last() =~= q);
        }
    }
}

/// Whoever is served gets a connection of the host, which can be given back, or is
/// told to open one to it.
pub proof fn served_with_the_host(
    p: PoolView,
    key: Seq<u8>,
    q: Seq<Waiting>,
    snap: Snapshot,
    i: int,
)
    requires
        0 <= i < serve(p, key, q, snap).ops.len(),
    ensures
        serve(p, key, q, snap).ops[i] matches PoolOpView::Hand(_, _, _, k, live) ==> k == key
            && live,
        serve(p, key, q, snap).ops[i] matches PoolOpView::Open(_, k) ==> k == key,
    decreases q.len(),
{
    if q.len() > 0 {
        if is_canceled(snap.canceled@, q[0].id) {
            served_with_the_host(p, key, q.skip(1), snap, i);
        } else {
            let (after, found, shut) = acquire_from(p, key, snap);
            let n = shut.len() as int;
            match found {
                Acquire::NotAvailable => {},
                Acquire::Acquired(_, _) => {
                    if i > n {
                        served_with_the_host(one_more(after), key, q.skip(1), snap, i - n - 1);
                    }
                },
                Acquire::Available => {
                    if i > n {
                        served_with_the_host(
                            opening(after, key, true),
                            key,
                            q.skip(1),
                            snap,
                            i - n - 1,
                        );
                    }
                },
            }
        }
    }
}

} // verus!
