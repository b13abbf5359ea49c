use ntex::client::connection::{Connection, HttpProtocol};
use ntex::builder::H2Config;
use ntex::client::pool::{
    host_key, Asked, ConnOp, ConnStatus, Connect, ConnectionPool, ConnectionType, PoolOp, Snapshot,
};
use ntex::time::Seconds;
use ntex::types::Uri;

const H2: H2Config = H2Config { max_concurrent_streams: Some(7), initial_window_size: None };

fn pool_of(conn_lifetime: u64, conn_keep_alive: u64, limit: usize) -> ConnectionPool {
    ConnectionPool::new(conn_lifetime, conn_keep_alive, Seconds(3), limit, H2)
}

fn connect(url: &str) -> Connect {
    Connect { uri: Uri::from_bytes(url.as_bytes()).unwrap(), addr: None }
}

fn snapshot(now: u64, open: &[u64]) -> Snapshot {
    Snapshot {
        now,
        conns: open
            .iter()
            .map(|id| ConnStatus { id: *id, closed: false, buf: Vec::new() })
            .collect(),
        canceled: Vec::new(),
    }
}

/// A new connection, opened on behalf of a caller.
fn open(pool: &mut ConnectionPool, url: &str, id: u64, conn: u64, now: u64) -> Connection {
    let (asked, _) = pool.call(connect(url), id, &snapshot(now, &[]));
    let key = match asked {
        Asked::Open(_, key) => key,
        other => panic!("{:?}", other),
    };
    let opened = pool.inner.opened(
        &key,
        &mut pool.waiters,
        &Vec::new(),
        ConnectionType::H1(conn),
        true,
        now,
    );
    assert_eq!(opened.disconnect_timeout, Seconds(3));
    Connection::new(ConnectionType::H1(conn), now, opened.acquired)
}

fn release(pool: &mut ConnectionPool, conn: Connection, close: bool, now: u64) -> (bool, bool) {
    let r = conn.release(&mut pool.inner, &mut pool.waiters, &Vec::new(), close, now);
    (r.close, r.wake)
}

#[test]
fn connections_are_pooled() {
    let mut pool = pool_of(10, 10, 1);

    // uri must contain authority
    let (asked, _) = pool.call(connect("/test"), 0, &snapshot(0, &[]));
    assert!(matches!(asked, Asked::Unresolved));

    // connect one
    let conn = open(&mut pool, "http://localhost/test", 1, 100, 0);
    assert_eq!(conn.protocol(), HttpProtocol::Http1);
    assert_eq!(pool.inner.acquired, 1);
    assert!(pool.inner.connecting.is_empty());

    // pool is full, waiting
    let (asked, _) = pool.call(connect("http://localhost/test"), 2, &snapshot(0, &[100]));
    assert!(matches!(asked, Asked::Wait));
    assert_eq!(pool.waiters.waiters.len(), 1);

    // release connection and push it to next waiter
    assert_eq!(release(&mut pool, conn, false, 0), (false, true));
    assert_eq!(pool.inner.acquired, 0);
    let ops = pool.inner.look_after(&mut pool.waiters, &snapshot(0, &[100]));
    assert_eq!(ops.len(), 2);
    assert!(matches!(ops[0], PoolOp::Conn(ConnOp::Clear(100))));
    let acquired = match ops.into_iter().nth(1) {
        Some(PoolOp::Hand(w, ConnectionType::H1(100), 0, a)) => {
            assert_eq!(w.id, 2);
            assert!(a.live);
            a
        }
        other => panic!("{:?}", other),
    };
    assert_eq!(pool.inner.acquired, 1);
    assert_eq!(pool.waiters.waiters.len(), 0);
    let conn = Connection::new(ConnectionType::H1(100), 0, Some(acquired));

    // release and close: a waiter opens a connection of its own
    let (asked, _) = pool.call(connect("http://localhost/test"), 3, &snapshot(0, &[100]));
    assert!(matches!(asked, Asked::Wait));
    assert_eq!(release(&mut pool, conn, true, 0), (true, true));
    assert_eq!(pool.inner.acquired, 0);
    let ops = pool.inner.look_after(&mut pool.waiters, &snapshot(0, &[]));
    match ops.into_iter().next() {
        Some(PoolOp::Open(w, key)) => {
            assert_eq!(w.id, 3);
            assert_eq!(key, host_key("localhost"));
        }
        other => panic!("{:?}", other),
    }
    assert_eq!(pool.waiters.waiters.len(), 0);
    assert_eq!(pool.inner.connecting, vec![host_key("localhost")]);
}

#[test]
fn a_waiter_that_is_gone_is_dropped() {
    let mut pool = pool_of(10, 10, 1);
    let _conn = open(&mut pool, "http://localhost/test", 1, 100, 0);
    let (asked, _) = pool.call(connect("http://localhost/test"), 2, &snapshot(0, &[]));
    assert!(matches!(asked, Asked::Wait));
    let gone = vec![2];
    assert!(!pool.inner.check_availibility(&mut pool.waiters, &gone));
    assert_eq!(pool.waiters.waiters.len(), 0);
}

#[test]
fn another_host_gets_another_connection() {
    let mut pool = pool_of(10, 10, 1);
    let conn = open(&mut pool, "http://localhost/test", 1, 100, 0);
    let (asked, _) = pool.call(connect("http://localhost2/test"), 2, &snapshot(0, &[100]));
    assert!(matches!(asked, Asked::Wait));
    assert_eq!(release(&mut pool, conn, false, 0), (false, true));
    assert_eq!(pool.inner.available.len(), 1);
    let ops = pool.inner.look_after(&mut pool.waiters, &snapshot(0, &[100]));
    assert!(matches!(ops.first(), Some(PoolOp::Open(w, _)) if w.id == 2));
    assert_eq!(pool.inner.available.len(), 1);
}

#[test]
fn hosts_are_the_same_up_to_case() {
    assert_eq!(host_key("LocalHost:80"), host_key("localhost:80"));
    assert_ne!(host_key("localhost:80"), host_key("localhost:81"));
}

#[test]
fn a_connection_is_used_again_while_it_is_fresh() {
    let url = "http://localhost/";
    let mut pool = pool_of(100, 10, 0);
    let conn = open(&mut pool, url, 1, 100, 0);
    release(&mut pool, conn, false, 5);
    let (asked, shut) = pool.call(connect(url), 2, &snapshot(15, &[100]));
    assert!(matches!(asked, Asked::Use(ConnectionType::H1(100), 0, _)));
    assert_eq!(shut, vec![ConnOp::Clear(100)]);

    // unused for too long
    let mut pool = pool_of(100, 10, 0);
    let conn = open(&mut pool, url, 1, 100, 0);
    release(&mut pool, conn, false, 5);
    let (asked, shut) = pool.call(connect(url), 2, &snapshot(16, &[100]));
    assert!(matches!(asked, Asked::Open(_, _)));
    assert_eq!(shut, vec![ConnOp::Shutdown(100)]);

    // open for too long
    let mut pool = pool_of(10, 100, 0);
    let conn = open(&mut pool, url, 1, 100, 0);
    release(&mut pool, conn, false, 5);
    let (asked, shut) = pool.call(connect(url), 2, &snapshot(11, &[100]));
    assert!(matches!(asked, Asked::Open(_, _)));
    assert_eq!(shut, vec![ConnOp::Shutdown(100)]);

    // closed by the peer meanwhile
    let mut pool = pool_of(100, 100, 0);
    let conn = open(&mut pool, url, 1, 100, 0);
    release(&mut pool, conn, false, 5);
    let mut snap = snapshot(6, &[100]);
    snap.conns[0].closed = true;
    let (asked, _) = pool.call(connect(url), 2, &snap);
    assert!(matches!(asked, Asked::Open(_, _)));
}

#[test]
fn waiters_are_served_in_their_order() {
    let url = "http://localhost/";
    let mut pool = pool_of(100, 100, 1);
    let conn = open(&mut pool, url, 1, 100, 0);
    for id in 2..5 {
        let (asked, _) = pool.call(connect(url), id, &snapshot(0, &[100]));
        assert!(matches!(asked, Asked::Wait));
    }
    let mut conn = conn;
    for id in 2..5 {
        release(&mut pool, conn, false, 0);
        let ops = pool.inner.look_after(&mut pool.waiters, &snapshot(0, &[100]));
        assert_eq!(ops.len(), 2);
        conn = match ops.into_iter().nth(1) {
            Some(PoolOp::Hand(w, io, created, a)) => {
                assert_eq!(w.id, id);
                Connection::new(io, created, Some(a))
            }
            other => panic!("{:?}", other),
        };
    }
}

#[test]
fn a_limit_of_zero_is_none() {
    let mut pool = pool_of(10, 10, 0);
    for id in 0..20 {
        let _ = open(&mut pool, "http://localhost/", id, 100 + id, 0);
    }
    assert_eq!(pool.inner.acquired, 20);
}

#[test]
fn a_connection_that_cannot_be_opened_frees_its_place() {
    let mut pool = pool_of(10, 10, 1);
    let (asked, _) = pool.call(connect("http://localhost/"), 1, &snapshot(0, &[]));
    let key = match asked {
        Asked::Open(_, key) => key,
        other => panic!("{:?}", other),
    };
    assert_eq!(pool.inner.connecting.len(), 1);
    pool.inner.open_failed(&key, &mut pool.waiters, &Vec::new());
    assert!(pool.inner.connecting.is_empty());
    assert_eq!(pool.inner.acquired, 0);
}

#[test]
fn connections_being_opened_count_towards_the_limit() {
    let mut pool = pool_of(10, 10, 1);
    let (asked, _) = pool.call(connect("http://localhost/"), 1, &snapshot(0, &[]));
    let key = match asked {
        Asked::Open(_, key) => key,
        other => panic!("{:?}", other),
    };
    assert_eq!(pool.inner.connecting, vec![host_key("localhost")]);
    let (asked, _) = pool.call(connect("http://localhost2/"), 2, &snapshot(0, &[]));
    assert!(matches!(asked, Asked::Wait));
    assert!(pool.inner.look_after(&mut pool.waiters, &snapshot(0, &[])).is_empty());

    // one host after the other
    let (asked, _) = pool.call(connect("http://localhost3/"), 3, &snapshot(0, &[]));
    assert!(matches!(asked, Asked::Wait));
    assert!(pool.inner.open_failed(&key, &mut pool.waiters, &Vec::new()));
    let ops = pool.inner.look_after(&mut pool.waiters, &snapshot(0, &[]));
    assert_eq!(ops.len(), 1);
    assert!(matches!(&ops[0], PoolOp::Open(w, _) if w.id == 2 || w.id == 3));
    assert_eq!(pool.waiters.waiters.len(), 1);
}

#[test]
fn a_stray_line_end_is_dropped() {
    let url = "http://localhost/";
    let mut pool = pool_of(100, 100, 0);
    let conn = open(&mut pool, url, 1, 100, 0);
    release(&mut pool, conn, false, 5);
    let mut snap = snapshot(6, &[100]);
    snap.conns[0].buf = b"\r\n".to_vec();
    let (asked, ops) = pool.call(connect(url), 2, &snap);
    assert!(matches!(asked, Asked::Use(ConnectionType::H1(100), 0, _)));
    assert_eq!(ops, vec![ConnOp::Clear(100)]);

    // any other leftover rules the connection out
    let mut pool = pool_of(100, 100, 0);
    let conn = open(&mut pool, url, 1, 100, 0);
    release(&mut pool, conn, false, 5);
    let mut snap = snapshot(6, &[100]);
    snap.conns[0].buf = b"\r\nx".to_vec();
    let (asked, ops) = pool.call(connect(url), 2, &snap);
    assert!(matches!(asked, Asked::Open(_, _)));
    assert!(ops.is_empty());
}

#[test]
fn http2_is_opened_with_the_settings_of_the_pool() {
    let pool = pool_of(10, 10, 1);
    let t = pool.inner.h2_target(&Uri::from_bytes(b"http://localhost:81/x").unwrap());
    assert_eq!((t.config, t.scheme.as_str()), (H2, "http"));
    assert_eq!(t.authority, "localhost:81");
    let t = pool.inner.h2_target(&Uri::from_bytes(b"/x").unwrap());
    assert_eq!((t.scheme.as_str(), t.authority.as_str()), ("https", ""));
}
