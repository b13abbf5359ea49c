//! Queues by host.

use std::collections::VecDeque;

use vstd::prelude::*;

use crate::text::bytes_eq;

verus! {

/// Queues, each under a key of its own.
#[derive(Debug)]
pub struct Queues<T> {
    /// The keys and their queues.
    pub entries: Vec<(Vec<u8>, VecDeque<T>)>,
}

/// The key stands in the list.
pub open spec fn has_key<T>(entries: Seq<(Vec<u8>, VecDeque<T>)>, k: Seq<u8>) -> bool {
    exists|i: int| 0 <= i < entries.len() && (#[trigger] entries[i]).0@ == k
}

/// Where the key stands in the list.
pub open spec fn index_of<T>(entries: Seq<(Vec<u8>, VecDeque<T>)>, k: Seq<u8>) -> int {
    choose|i: int| 0 <= i < entries.len() && (#[trigger] entries[i]).0@ == k
}

/// No key stands twice in the list.
pub open spec fn distinct<T>(entries: Seq<(Vec<u8>, VecDeque<T>)>) -> bool {
    forall|i: int, j: int|
        0 <= i < entries.len() && 0 <= j < entries.len() && (#[trigger] entries[i]).0@ == (
        #[trigger] entries[j]).0@ ==> i == j
}

/// The queues by their keys.
pub open spec fn queue_map<T>(entries: Seq<(Vec<u8>, VecDeque<T>)>) -> Map<Seq<u8>, Seq<T>> {
    Map::new(|k: Seq<u8>| has_key(entries, k), |k: Seq<u8>| entries[index_of(entries, k)].1@)
}

/// Where a key stands is settled.
pub proof fn settled<T>(entries: Seq<(Vec<u8>, VecDeque<T>)>, i: int)
    requires
        distinct(entries),
        0 <= i < entries.len(),
    ensures
        index_of(entries, entries[i].0@) == i,
        queue_map(entries).contains_key(entries[i].0@),
        queue_map(entries)[entries[i].0@] == entries[i].1@,
{
    let k = entries[i].0@;
    assert(has_key(entries, k));
    let j = index_of(entries, k);
    assert(entries[j].0@ == k);
}

/// Taking an entry out of the list takes its key out of the queues.
proof fn taken_out<T>(entries: Seq<(Vec<u8>, VecDeque<T>)>, i: int)
    requires
        distinct(entries),
        0 <= i < entries.len(),
    ensures
        distinct(entries.remove(i)),
        queue_map(entries.remove(i)) == queue_map(entries).remove(entries[i].0@),
{
    let left = entries.remove(i);
    let m = queue_map(entries).remove(entries[i].0@);
    assert forall|a: int| 0 <= a < left.len() implies #[trigger] left[a] == entries[if a < i {
        a
    } else {
        a + 1
    }] by {}
    assert forall|a: int, b: int|
        0 <= a < left.len() && 0 <= b < left.len() && (#[trigger] left[a]).0@ == (
        #[trigger] left[b]).0@ implies a == b by {}
    assert forall|k: Seq<u8>| #[trigger] queue_map(left).contains_key(k) == m.contains_key(k) by {
        if has_key(left, k) {
            let a = index_of(left, k);
            let b = if a < i {
                a
            } else {
                a + 1
            };
            assert(left[a] == entries[b]);
            assert(entries[b].0@ == k);
            assert(k != entries[i].0@);
        }
        if m.contains_key(k) {
            let b = index_of(entries, k);
            assert(b != i);
            let a = if b < i {
                b
            } else {
                b - 1
            };
            assert(left[a] == entries[b]);
        }
    }
    assert forall|k: Seq<u8>| #[trigger] queue_map(left).contains_key(k) implies queue_map(left)[k]
        == m[k] by {
        let a = index_of(left, k);
        let b = if a < i {
            a
        } else {
            a + 1
        };
        assert(left[a] == entries[b]);
        settled(entries, b);
    }
    assert(queue_map(left) =~= m);
}

/// An entry at the end of the list adds its key to the queues.
pub proof fn put_in<T>(entries: Seq<(Vec<u8>, VecDeque<T>)>, e: (Vec<u8>, VecDeque<T>))
    requires
        distinct(entries),
        !has_key(entries, e.0@),
    ensures
        distinct(entries.push(e)),
        queue_map(entries.push(e)) == queue_map(entries).insert(e.0@, e.1@),
{
    let all = entries.push(e);
    let m = queue_map(entries).insert(e.0@, e.1@);
    assert forall|a: int, b: int|
        0 <= a < all.len() && 0 <= b < all.len() && (#[trigger] all[a]).0@ == (
        #[trigger] all[b]).0@ implies a == b by {
        if a < entries.len() {
            assert(all[a] == entries[a]);
        }
        if b < entries.len() {
            assert(all[b] == entries[b]);
        }
    }
    assert forall|k: Seq<u8>| #[trigger] queue_map(all).contains_key(k) == m.contains_key(k) by {
        if has_key(all, k) {
            let a = index_of(all, k);
            if a < entries.len() {
                assert(entries[a].0@ == k);
            }
        }
        if has_key(entries, k) {
            let a = index_of(entries, k);
            assert(all[a].0@ == k);
        }
        assert(all[entries.len() as int] == e);
    }
    assert forall|k: Seq<u8>| #[trigger] queue_map(all).contains_key(k) implies queue_map(all)[k]
        == m[k] by {
        let a = index_of(all, k);
        settled(all, a);
        if a < entries.len() {
            assert(entries[a] == all[a]);
            settled(entries, a);
            assert(k != e.0@);
        }
    }
    assert(queue_map(all) =~= m);
}

impl<T> Queues<T> {
    /// No key has two queues.
    pub open spec fn wf(self) -> bool {
        distinct(self.entries@)
    }

    /// The queues by their keys.
    pub open spec fn map(self) -> Map<Seq<u8>, Seq<T>> {
        queue_map(self.entries@)
    }

    /// No queues.
    pub fn new() -> (r: Queues<T>)
        ensures
            r.wf(),
            r.entries@.len() == 0,
            r.map() == Map::<Seq<u8>, Seq<T>>::empty(),
    {
        let r = Queues { entries: Vec::new() };
        assert(r.map() =~= Map::<Seq<u8>, Seq<T>>::empty());
        r
    }

    /// Number of queues.
    pub fn len(&self) -> (r: usize)
        ensures
            r == self.entries@.len(),
    {
        self.entries.len()
    }

    /// Takes the queue of a key.
    pub fn take(&mut self, key: &[u8]) -> (r: Option<VecDeque<T>>)
        requires
            old(self).wf(),
        ensures
            final(self).wf(),
            final(self).map() == old(self).map().remove(key@),
            match r {
                Some(q) => old(self).map().contains_key(key@) && q@ == old(self).map()[key@],
                None => !old(self).map().contains_key(key@) && *final(self) == *old(self),
            },
    {
        let mut i: usize = 0;
        while i < self.entries.len()
            invariant
                i <= self.entries.len(),
                self.wf(),
                *self == *old(self),
                forall|j: int| 0 <= j < i ==> (#[trigger] self.entries@[j]).0@ != key@,
            decreases self.entries.len() - i,
        {
            if bytes_eq(self.entries[i].0.as_slice(), key) {
                proof {
                    settled(self.entries@, i as int);
                    taken_out(self.entries@, i as int);
                }
                let (_, q) = self.entries.remove(i);
                return Some(q);
            }
            i += 1;
        }
        assert(!has_key(self.entries@, key@));
        assert(self.map() =~= self.map().remove(key@));
        None
    }

    /// Puts a queue under a key that has none.
    pub fn put(&mut self, key: Vec<u8>, q: VecDeque<T>)
        requires
            old(self).wf(),
            !old(self).map().contains_key(key@),
        ensures
            final(self).wf(),
            final(self).map() == old(self).map().insert(key@, q@),
            final(self).entries@ == old(self).entries@.push((key, q)),
    {
        proof {
            put_in(self.entries@, (key, q));
        }
        self.entries.push((key, q));
    }
}

} // verus!
