//! What a body delivers, however its bytes are cut.

use vstd::prelude::*;

use super::decoder::{body_step, chunk_run, chunk_step, rest, ChunkedState, ItemView, Kind, Step};
use super::encoder::joined;

verus! {

/// How the reading of a body ends.
pub enum BodyEnd {
    /// More bytes are needed.
    Waiting,
    /// The body is complete.
    Eof,
    /// The bytes are no such body.
    Failed(&'static str),
}

/// What a decoder makes of bytes: the data of the items, joined; how it ends; the
/// decoder afterwards; and the bytes that are left.
#[verifier::ext_equal]
pub struct BodyRun {
    pub data: Seq<u8>,
    pub end: BodyEnd,
    pub kind: Kind,
    pub rest: Seq<u8>,
}

/// The run with data in front of its own.
pub open spec fn after_data(data: Seq<u8>, run: BodyRun) -> BodyRun {
    BodyRun { data: data + run.data, ..run }
}

/// Items of a body, one after the other, up to its end or to the first that is
/// not complete.
pub open spec fn body_run(kind: Kind, src: Seq<u8>) -> BodyRun
    decreases src.len(), stage(kind),
    via body_run_ends
{
    let o = body_step(kind, src);
    match o.item {
        Ok(Some(ItemView::Chunk(data))) => after_data(data, body_run(o.kind, o.rest)),
        Ok(Some(ItemView::Eof)) => BodyRun {
            data: Seq::empty(),
            end: BodyEnd::Eof,
            kind: o.kind,
            rest: o.rest,
        },
        Ok(None) => BodyRun {
            data: Seq::empty(),
            end: BodyEnd::Waiting,
            kind: o.kind,
            rest: o.rest,
        },
        Err(e) => BodyRun {
            data: Seq::empty(),
            end: BodyEnd::Failed(e),
            kind: o.kind,
            rest: o.rest,
        },
    }
}

/// A decoder inside a chunk has the line end behind it still to come.
pub open spec fn stage(kind: Kind) -> nat {
    if kind matches Kind::Chunked(ChunkedState::Body, _) {
        1
    } else {
        0
    }
}

#[via_fn]
proof fn body_run_ends(kind: Kind, src: Seq<u8>) {
    if let Kind::Chunked(state, size) = kind {
        chunk_takes_bytes(state, size, src);
    }
}

/// A chunk comes with fewer bytes left, or with the decoder behind it.
proof fn chunk_takes_bytes(state: ChunkedState, size: u64, src: Seq<u8>)
    ensures
        ({
            let o = chunk_run(state, size, src);
            o.item matches Ok(Some(ItemView::Chunk(_))) ==> o.rest.len() < src.len()
                || o.rest.len() == src.len() && state == ChunkedState::Body && stage(o.kind) == 0
        }),
    decreases src.len(),
{
    match chunk_step(state, size, src) {
        Step::Next(next, n, taken, left) => {
            if next != ChunkedState::End && taken is None && 0 < left.len() < src.len() {
                chunk_takes_bytes(next, n, left);
            }
        },
        _ => {},
    }
}

/// The step with more bytes behind those that it read.
pub open spec fn extended(step: Step, more: Seq<u8>) -> Step {
    match step {
        Step::Pending => Step::Pending,
        Step::Failed(e, left) => Step::Failed(e, left + more),
        Step::Next(next, n, taken, left) => Step::Next(next, n, taken, left + more),
    }
}

/// What one call of a decoder did keeps what the body delivers: its item, and
/// what comes of the bytes that are left and any that follow, is what comes of
/// all the bytes at once.
pub open spec fn goes_on(
    kind: Kind,
    src: Seq<u8>,
    item: Result<Option<ItemView>, &'static str>,
    kind2: Kind,
    left: Seq<u8>,
) -> bool {
    forall|more: Seq<u8>| #[trigger]
        body_run(kind, src + more) == match item {
            Ok(None) => body_run(kind2, left + more),
            Ok(Some(ItemView::Chunk(data))) => after_data(data, body_run(kind2, left + more)),
            Ok(Some(ItemView::Eof)) => BodyRun {
                data: Seq::empty(),
                end: BodyEnd::Eof,
                kind: kind2,
                rest: left + more,
            },
            Err(e) => BodyRun {
                data: Seq::empty(),
                end: BodyEnd::Failed(e),
                kind: kind2,
                rest: left + more,
            },
        }
}

/// A body of a given length delivers that many of the bytes, or all where there
/// are fewer; it is complete where there are enough, and bytes beyond it are
/// left alone.
pub proof fn length_delivers(n: u64, s: Seq<u8>)
    ensures
        n <= s.len() ==> body_run(Kind::Length(n), s) == (BodyRun {
            data: s.take(n as int),
            end: BodyEnd::Eof,
            kind: Kind::Length(0),
            rest: s.skip(n as int),
        }),
        n > s.len() ==> body_run(Kind::Length(n), s) == (BodyRun {
            data: s,
            end: BodyEnd::Waiting,
            kind: Kind::Length((n - s.len()) as u64),
            rest: Seq::empty(),
        }),
{
    let run = body_run(Kind::Length(n), s);
    if n == 0 {
        assert(run.data =~= s.take(0));
        assert(run.rest =~= s.skip(0));
    } else if s.len() == 0 {
        assert(run.data =~= s);
        assert(run.rest =~= Seq::empty());
    } else if n > s.len() {
        let left = body_run(Kind::Length((n - s.len()) as u64), Seq::empty());
        assert(left.end is Waiting);
        assert(run == after_data(s, left));
        assert(run.data =~= s);
    } else {
        let left = body_run(Kind::Length(0), rest(s, n as int));
        assert(run == after_data(s.subrange(0, n as int), left));
        assert(run.data =~= s.take(n as int));
        assert(run.rest =~= s.skip(n as int));
    }
}

/// A body that ends with the connection delivers all the bytes.
pub proof fn eof_delivers(s: Seq<u8>)
    ensures
        body_run(Kind::Eof, s) == (BodyRun {
            data: s,
            end: BodyEnd::Waiting,
            kind: Kind::Eof,
            rest: Seq::empty(),
        }),
{
    let run = body_run(Kind::Eof, s);
    if s.len() == 0 {
        assert(s =~= Seq::empty());
    } else {
        let left = body_run(Kind::Eof, Seq::empty());
        assert(left.end is Waiting);
        assert(run == after_data(s, left));
        assert(run.data =~= s);
    }
}

/// A body of a given length goes on after a call.
pub(crate) proof fn length_goes_on(n: u64, src: Seq<u8>)
    ensures
        ({
            let o = body_step(Kind::Length(n), src);
            goes_on(Kind::Length(n), src, o.item, o.kind, o.rest)
        }),
{
    let o = body_step(Kind::Length(n), src);
    assert forall|more: Seq<u8>| true implies {
        let run = #[trigger] body_run(Kind::Length(n), src + more);
        match o.item {
            Ok(None) => run == body_run(o.kind, o.rest + more),
            Ok(Some(ItemView::Chunk(data))) => run == after_data(
                data,
                body_run(o.kind, o.rest + more),
            ),
            Ok(Some(ItemView::Eof)) => run == (BodyRun {
                data: Seq::empty(),
                end: BodyEnd::Eof,
                kind: o.kind,
                rest: o.rest + more,
            }),
            Err(_) => false,
        }
    } by {
        let all = src + more;
        length_delivers(n, all);
        match o.kind {
            Kind::Length(m) => {
                length_delivers(m, o.rest + more);
                if n == 0 {
                    assert(all.take(0) =~= Seq::empty());
                    assert(all.skip(0) =~= all);
                } else if src.len() > 0 {
                    let run = body_run(Kind::Length(n), all);
                    let joint = after_data(o.item->Ok_0->0->Chunk_0, body_run(o.kind, o.rest + more));
                    assert(o.rest + more =~= all.skip(n - m));
                    assert(run.data =~= joint.data);
                    assert(run.rest =~= joint.rest);
                }
            },
            _ => {},
        }
    }
}

/// A body that ends with the connection goes on after a call.
pub(crate) proof fn eof_goes_on(src: Seq<u8>)
    ensures
        ({
            let o = body_step(Kind::Eof, src);
            goes_on(Kind::Eof, src, o.item, o.kind, o.rest)
        }),
{
    let o = body_step(Kind::Eof, src);
    assert forall|more: Seq<u8>| true implies {
        let run = #[trigger] body_run(Kind::Eof, src + more);
        match o.item {
            Ok(None) => run == body_run(o.kind, o.rest + more),
            Ok(Some(ItemView::Chunk(data))) => run == after_data(
                data,
                body_run(o.kind, o.rest + more),
            ),
            _ => false,
        }
    } by {
        eof_delivers(src + more);
        eof_delivers(o.rest + more);
        if src.len() > 0 {
            let joint = after_data(src, body_run(o.kind, o.rest + more));
            assert(joint.data =~= src + more);
        }
    }
}

/// A step that takes no data leaves what the body delivers as it is.
pub(crate) proof fn step_goes_on(state: ChunkedState, size: u64, src: Seq<u8>, more: Seq<u8>)
    requires
        state != ChunkedState::Body,
        chunk_step(state, size, src + more) == extended(chunk_step(state, size, src), more),
    ensures
        match chunk_step(state, size, src) {
            Step::Pending => true,
            Step::Failed(e, left) => body_run(Kind::Chunked(state, size), src + more) == (BodyRun {
                data: Seq::empty(),
                end: BodyEnd::Failed(e),
                kind: Kind::Chunked(state, size),
                rest: left + more,
            }),
            Step::Next(next, n, taken, left) => if next == ChunkedState::End {
                body_run(Kind::Chunked(state, size), src + more) == (BodyRun {
                    data: Seq::empty(),
                    end: BodyEnd::Eof,
                    kind: Kind::Chunked(next, n),
                    rest: left + more,
                })
            } else {
                taken is None && left.len() < src.len() ==> body_run(
                    Kind::Chunked(state, size),
                    src + more,
                ) == body_run(Kind::Chunked(next, n), left + more)
            },
        },
{
    match chunk_step(state, size, src) {
        Step::Next(next, n, taken, left) => {
            if next != ChunkedState::End && taken is None && left.len() < src.len() {
                let all = src + more;
                let ahead = left + more;
                if ahead.len() == 0 {
                    nothing_ahead(next, n, ahead);
                    assert(chunk_run(state, size, all).rest == ahead);
                } else {
                    assert(chunk_run(state, size, all) == chunk_run(next, n, ahead));
                }
            }
        },
        _ => {},
    }
}

/// Without bytes a chunked body waits.
proof fn nothing_ahead(state: ChunkedState, size: u64, src: Seq<u8>)
    requires
        src.len() == 0,
        state != ChunkedState::End,
    ensures
        body_run(Kind::Chunked(state, size), src) == (BodyRun {
            data: Seq::empty(),
            end: BodyEnd::Waiting,
            kind: Kind::Chunked(state, size),
            rest: src,
        }),
{
}

/// The data of a chunk, or a part of it, and what follows it is what comes of all
/// the bytes at once.
pub(crate) proof fn data_goes_on(size: u64, src: Seq<u8>, more: Seq<u8>)
    requires
        src.len() > 0,
    ensures
        match chunk_step(ChunkedState::Body, size, src) {
            Step::Next(next, n, Some(data), left) => body_run(
                Kind::Chunked(ChunkedState::Body, size),
                src + more,
            ) == after_data(data, body_run(Kind::Chunked(next, n), left + more)),
            _ => false,
        },
{
    let all = src + more;
    let kind = Kind::Chunked(ChunkedState::Body, size);
    if size > src.len() {
        let n = (size - src.len()) as u64;
        let kind2 = Kind::Chunked(ChunkedState::Body, n);
        assert(Seq::<u8>::empty() + more =~= more);
        if more.len() == 0 {
            assert(all =~= src);
            assert(more =~= Seq::empty());
        } else if size > all.len() {
            let left = (size - all.len()) as u64;
            let end = body_run(Kind::Chunked(ChunkedState::Body, left), Seq::empty());
            assert(body_run(kind, all) == after_data(all, end));
            assert(body_run(kind2, more) == after_data(more, end));
            assert(all + end.data =~= src + (more + end.data));
        } else {
            let end = body_run(
                Kind::Chunked(ChunkedState::BodyCr, 0),
                rest(all, size as int),
            );
            assert(rest(all, size as int) =~= rest(more, n as int));
            assert(body_run(kind, all) == after_data(all.subrange(0, size as int), end));
            assert(body_run(kind2, more) == after_data(more.subrange(0, n as int), end));
            assert(all.subrange(0, size as int) + end.data =~= src + (more.subrange(0, n as int)
                + end.data));
        }
    } else {
        assert(all.subrange(0, size as int) =~= src.subrange(0, size as int));
        assert(rest(all, size as int) =~= rest(src, size as int) + more);
    }
}

/// One call of a decoder: the bytes that came before it, what it gave, and the
/// decoder and the bytes afterwards.
pub struct Call {
    pub came: Seq<u8>,
    pub data: Seq<u8>,
    pub kind: Kind,
    pub rest: Seq<u8>,
}

/// Calls of a decoder, each with the bytes that the last one left and those that
/// came since, that gave data or nothing yet.
pub open spec fn calls_of(kind: Kind, src: Seq<u8>, calls: Seq<Call>) -> bool
    decreases calls.len(),
{
    calls.len() > 0 ==> {
        let c = calls.last();
        let (kind1, rest1) = state_after(kind, src, calls.drop_last());
        &&& calls_of(kind, src, calls.drop_last())
        &&& exists|item: Result<Option<ItemView>, &'static str>| #[trigger]
            goes_on(kind1, rest1 + c.came, item, c.kind, c.rest) && gives(item, c.data)
    }
}

/// An item with the given data, or nothing yet.
pub open spec fn gives(item: Result<Option<ItemView>, &'static str>, data: Seq<u8>) -> bool {
    match item {
        Ok(Some(ItemView::Chunk(d))) => data == d,
        Ok(None) => data.len() == 0,
        _ => false,
    }
}

/// The decoder and the bytes that are left after calls.
pub open spec fn state_after(kind: Kind, src: Seq<u8>, calls: Seq<Call>) -> (Kind, Seq<u8>) {
    if calls.len() == 0 {
        (kind, src)
    } else {
        (calls.last().kind, calls.last().rest)
    }
}

/// Bytes that came before the calls.
pub open spec fn arrived(calls: Seq<Call>) -> Seq<Seq<u8>> {
    calls.map_values(|c: Call| c.came)
}

/// Data that the calls gave.
pub open spec fn delivered(calls: Seq<Call>) -> Seq<Seq<u8>> {
    calls.map_values(|c: Call| c.data)
}

/// However the bytes of a body are cut, the data that the calls gave, followed by
/// what comes of the bytes that are left and any that follow, is what comes of
/// all the bytes at once, to the same end and with the same bytes left.
pub proof fn cuts_do_not_matter(kind: Kind, src: Seq<u8>, calls: Seq<Call>, more: Seq<u8>)
    requires
        calls_of(kind, src, calls),
    ensures
        ({
            let (kind2, left) = state_after(kind, src, calls);
            body_run(kind, src + joined(arrived(calls)) + more) == after_data(
                joined(delivered(calls)),
                body_run(kind2, left + more),
            )
        }),
    decreases calls.len(),
{
    let (kind2, left) = state_after(kind, src, calls);
    if calls.len() == 0 {
        assert(src + joined(arrived(calls)) + more =~= src + more);
        assert(joined(delivered(calls)) + body_run(kind, src + more).data =~= body_run(
            kind,
            src + more,
        ).data);
    } else {
        let c = calls.last();
        let before = calls.drop_last();
        let (kind1, rest1) = state_after(kind, src, before);
        cuts_do_not_matter(kind, src, before, c.came + more);
        assert(arrived(calls).drop_last() =~= arrived(before));
        assert(delivered(calls).drop_last() =~= delivered(before));
        assert(src + joined(arrived(calls)) + more =~= src + joined(arrived(before)) + (c.came
            + more));
        assert(rest1 + (c.came + more) =~= rest1 + c.came + more);
        let item = choose|item: Result<Option<ItemView>, &'static str>| #[trigger]
            goes_on(kind1, rest1 + c.came, item, c.kind, c.rest) && gives(item, c.data);
        let run = body_run(kind2, left + more);
        assert(body_run(kind1, rest1 + c.came + more) == after_data(c.data, run)) by {
            if item is Ok && item->Ok_0 is None {
                assert(c.data + run.data =~= run.data);
            }
        }
        assert(joined(delivered(calls)) + run.data =~= joined(delivered(before)) + (c.data
            + run.data));
    }
}

/// How the reading of a body ends with an item that is no data.
pub open spec fn end_of(item: Result<Option<ItemView>, &'static str>) -> BodyEnd {
    match item {
        Ok(None) => BodyEnd::Waiting,
        Ok(Some(_)) => BodyEnd::Eof,
        Err(e) => BodyEnd::Failed(e),
    }
}

/// However the bytes of a body are cut, the calls together give the data that all
/// the bytes at once give, and the last one, which gives no data, ends as they end
/// and leaves what they leave. `came` are the bytes that came before the last call.
pub proof fn cut_body_ends_alike(kind: Kind, src: Seq<u8>, calls: Seq<Call>, came: Seq<u8>)
    requires
        calls_of(kind, src, calls),
        ({
            let (kind1, rest1) = state_after(kind, src, calls);
            !(body_step(kind1, rest1 + came).item matches Ok(Some(ItemView::Chunk(_))))
        }),
    ensures
        ({
            let (kind1, rest1) = state_after(kind, src, calls);
            let last = body_step(kind1, rest1 + came);
            body_run(kind, src + joined(arrived(calls)) + came) == (BodyRun {
                data: joined(delivered(calls)),
                end: end_of(last.item),
                kind: last.kind,
                rest: last.rest,
            })
        }),
{
    let (kind1, rest1) = state_after(kind, src, calls);
    cuts_do_not_matter(kind, src, calls, came);
    let run = body_run(kind1, rest1 + came);
    assert(run.data =~= Seq::empty());
    assert(joined(delivered(calls)) + run.data =~= joined(delivered(calls)));
}

} // verus!
