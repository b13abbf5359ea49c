//! Those who wait for the end of a connection.

use slab::Slab;
use vstd::prelude::*;

verus! {

/// One who waits for the end of a connection.
#[derive(Debug, Copy, Clone, PartialEq, Eq, Structural)]
pub enum Listener {
    /// Does not wait yet.
    Idle,
    /// Waits.
    Waiting,
    /// Was told.
    Notified,
}

#[verifier::external_type_specification]
#[verifier::external_body]
#[verifier::reject_recursive_types(T)]
pub struct ExSlab<T>(slab::Slab<T>);

/// What a slab holds, by key.
pub uninterp spec fn slab_items(s: Slab<Listener>) -> Map<usize, Listener>;

/// Nothing.
pub open spec fn no_items() -> Map<usize, Listener> {
    Map::empty()
}

/// `slab::Slab::new`: the slab is empty.
#[verifier::external_body]
pub(crate) fn slab_new() -> (r: Slab<Listener>)
    ensures
        slab_items(r) == no_items(),
{
    Slab::new()
}

/// `slab::Slab::insert`: the value is kept under a key that was free.
#[verifier::external_body]
pub(crate) fn slab_insert(s: &mut Slab<Listener>, v: Listener) -> (r: usize)
    ensures
        !slab_items(*old(s)).contains_key(r),
        slab_items(*final(s)) == slab_items(*old(s)).insert(r, v),
{
    s.insert(v)
}

/// `slab::Slab::get`: the value of a key.
#[verifier::external_body]
pub(crate) fn slab_get(s: &Slab<Listener>, key: usize) -> (r: Option<Listener>)
    ensures
        r is Some <==> slab_items(*s).contains_key(key),
        r matches Some(v) ==> v == slab_items(*s)[key],
{
    s.get(key).copied()
}

/// `slab::Slab::get_mut`: another value under a key that is in use.
#[verifier::external_body]
pub(crate) fn slab_set(s: &mut Slab<Listener>, key: usize, v: Listener)
    requires
        slab_items(*old(s)).contains_key(key),
    ensures
        slab_items(*final(s)) == slab_items(*old(s)).insert(key, v),
{
    *s.get_mut(key).unwrap() = v;
}

/// `slab::Slab::remove`: the key is free afterwards.
#[verifier::external_body]
pub(crate) fn slab_remove(s: &mut Slab<Listener>, key: usize)
    requires
        slab_items(*old(s)).contains_key(key),
    ensures
        slab_items(*final(s)) == slab_items(*old(s)).remove(key),
{
    s.remove(key);
}

/// `slab::Slab::iter`: every key in use.
#[verifier::external_body]
pub(crate) fn slab_keys(s: &Slab<Listener>) -> (r: Vec<usize>)
    ensures
        forall|k: usize| #[trigger] r@.contains(k) <==> slab_items(*s).contains_key(k),
{
    s.iter().map(|(k, _)| k).collect()
}

/// Everybody was told.
pub open spec fn all_notified(before: Map<usize, Listener>, after: Map<usize, Listener>) -> bool {
    &&& after.dom() == before.dom()
    &&& forall|k: usize| #[trigger] after.contains_key(k) ==> after[k] == Listener::Notified
}

/// Tells everybody.
pub fn notify_all(s: &mut Slab<Listener>)
    ensures
        all_notified(slab_items(*old(s)), slab_items(*final(s))),
{
    let keys = slab_keys(s);
    let ghost before = slab_items(*s);
    let mut i: usize = 0;
    while i < keys.len()
        invariant
            i <= keys.len(),
            before == slab_items(*old(s)),
            forall|k: usize| #[trigger] keys@.contains(k) <==> before.contains_key(k),
            slab_items(*s).dom() =~= before.dom(),
            forall|j: int|
                0 <= j < i ==> slab_items(*s)[#[trigger] keys@[j]] == Listener::Notified,
        decreases keys.len() - i,
    {
        let key = keys[i];
        assert(keys@.contains(keys@[i as int]));
        slab_set(s, key, Listener::Notified);
        i += 1;
    }
    assert forall|k: usize| #[trigger] slab_items(*s).contains_key(k) implies slab_items(*s)[k]
        == Listener::Notified by {
        assert(keys@.contains(k));
        let j = choose|j: int| 0 <= j < keys@.len() && keys@[j] == k;
        assert(slab_items(*s)[keys@[j]] == Listener::Notified);
    }
}

} // verus!
