//! Header names, header values and the header map.

use ntex_http::HeaderMap;
use vstd::prelude::*;

use crate::text::str_eq;
use crate::types::{chars, is_token, is_token_text};

verus! {

/// ASCII lower case of one character.
pub open spec fn lower_char(c: char) -> char {
    if 'A' <= c && c <= 'Z' {
        (c as u8 + 32) as char
    } else {
        c
    }
}

/// The form under which a header name is kept: ASCII lower case.
pub open spec fn key(name: Seq<char>) -> Seq<char> {
    Seq::new(name.len(), |i: int| lower_char(name[i]))
}

/// Longest header name.
pub const MAX_NAME_LEN: usize = 65535;

/// A header name: one to 65535 token characters.
pub open spec fn valid_name(name: Seq<char>) -> bool {
    &&& 1 <= name.len() <= MAX_NAME_LEN
    &&& forall|i: int| 0 <= i < name.len() ==> is_token(#[trigger] name[i] as int)
}

/// Bytes of a header value: tab, space, printable characters and the bytes
/// above the ASCII range.
pub open spec fn is_value_byte(b: u8) -> bool {
    b >= 32 && b != 127 || b == 9
}

/// A header value.
pub open spec fn valid_value(v: Seq<u8>) -> bool {
    forall|i: int| 0 <= i < v.len() ==> is_value_byte(#[trigger] v[i])
}

/// Header fields: the values of each name, in the order in which they came.
pub type Fields = Map<Seq<char>, Seq<Seq<u8>>>;

#[verifier::external_type_specification]
#[verifier::external_body]
pub struct ExHeaderMap(ntex_http::HeaderMap);

/// No header field.
pub open spec fn no_fields() -> Fields {
    Map::empty()
}

/// Bytes that read as a header name.
pub open spec fn is_name_text(src: Seq<u8>) -> bool {
    is_token_text(src) && src.len() <= MAX_NAME_LEN
}

/// What a header map holds.
pub uninterp spec fn fields(map: HeaderMap) -> Fields;

/// The values of a name, none where it is absent.
pub open spec fn values_of(f: Fields, name: Seq<char>) -> Seq<Seq<u8>> {
    if f.contains_key(name) {
        f[name]
    } else {
        Seq::empty()
    }
}

/// The fields with one more value of a name.
pub open spec fn appended(f: Fields, name: Seq<char>, value: Seq<u8>) -> Fields {
    f.insert(name, values_of(f, name).push(value))
}

/// The fields with one value of a name in place of those it had.
pub open spec fn replaced(f: Fields, name: Seq<char>, value: Seq<u8>) -> Fields {
    f.insert(name, seq![value])
}

/// Contents of a list of byte strings.
pub open spec fn views(v: Seq<Vec<u8>>) -> Seq<Seq<u8>> {
    Seq::new(v.len(), |i: int| v[i]@)
}

/// Contents of a list of header lines.
pub open spec fn lines(v: Seq<(String, Vec<u8>)>) -> Seq<(Seq<char>, Seq<u8>)> {
    Seq::new(v.len(), |i: int| (v[i].0@, v[i].1@))
}

/// The header lines of one name.
pub open spec fn lines_of(f: Fields, name: Seq<char>) -> Seq<(Seq<char>, Seq<u8>)> {
    Seq::new(values_of(f, name).len(), |i: int| (name, values_of(f, name)[i]))
}

/// The header lines of names taken in the given order.
pub open spec fn lines_in_order(f: Fields, order: Seq<Seq<char>>) -> Seq<(Seq<char>, Seq<u8>)>
    decreases order.len(),
{
    if order.len() == 0 {
        Seq::empty()
    } else {
        lines_in_order(f, order.drop_last()) + lines_of(f, order.last())
    }
}

/// The order names each name of the fields once.
pub open spec fn is_order_of(order: Seq<Seq<char>>, f: Fields) -> bool {
    &&& order.no_duplicates()
    &&& forall|k: Seq<char>| #[trigger] order.contains(k) <==> f.contains_key(k)
}

/// The lines are those of the fields, name by name, in some order of the names.
pub open spec fn lists(l: Seq<(Seq<char>, Seq<u8>)>, f: Fields) -> bool {
    exists|order: Seq<Seq<char>>| #[trigger] is_order_of(order, f) && l == lines_in_order(f, order)
}

/// `ntex_http::HeaderMap::new`: the map is empty.
#[verifier::external_body]
pub(crate) fn map_new() -> (r: HeaderMap)
    ensures
        fields(r) == no_fields(),
{
    HeaderMap::new()
}

/// `ntex_http::HeaderMap::clear`: the map is empty afterwards.
#[verifier::external_body]
pub(crate) fn map_clear(map: &mut HeaderMap)
    ensures
        fields(*final(map)) == no_fields(),
{
    map.clear();
}

/// `ntex_http::HeaderMap::clone`: the copy holds the same fields.
#[verifier::external_body]
pub(crate) fn map_clone(map: &HeaderMap) -> (r: HeaderMap)
    ensures
        fields(r) == fields(*map),
{
    map.clone()
}

/// `ntex_http::HeaderMap::contains_key`: whether the name, whatever its case,
/// has a value.
#[verifier::external_body]
pub(crate) fn map_contains(map: &HeaderMap, name: &str) -> (r: bool)
    ensures
        r == fields(*map).contains_key(key(name@)),
{
    map.contains_key(name)
}

/// `ntex_http::HeaderMap::get`: the first value of the name.
#[verifier::external_body]
pub(crate) fn map_get(map: &HeaderMap, name: &str) -> (r: Option<Vec<u8>>)
    ensures
        r is Some <==> fields(*map).contains_key(key(name@)),
        r matches Some(v) ==> fields(*map)[key(name@)].len() > 0 && v@ == fields(*map)[key(
            name@,
        )][0] && valid_value(v@),
{
    map.get(name).map(|v| v.as_bytes().to_vec())
}

/// `ntex_http::HeaderMap::get_all`: the values of the name in order.
#[verifier::external_body]
pub(crate) fn map_get_all(map: &HeaderMap, name: &str) -> (r: Vec<Vec<u8>>)
    ensures
        views(r@) == values_of(fields(*map), key(name@)),
        forall|i: int| 0 <= i < r@.len() ==> valid_value((#[trigger] r@[i])@),
{
    map.get_all(name).map(|v| v.as_bytes().to_vec()).collect()
}

/// `ntex_http::HeaderMap::iter`: every value with its name; the values of one
/// name come together and in order, the order of the names is left open.
#[verifier::external_body]
pub(crate) fn map_lines(map: &HeaderMap) -> (r: Vec<(String, Vec<u8>)>)
    ensures
        lists(lines(r@), fields(*map)),
        forall|i: int|
            0 <= i < r@.len() ==> key((#[trigger] r@[i]).0@) == r@[i].0@ && valid_name(r@[i].0@)
                && valid_value(r@[i].1@),
{
    map.iter().map(|(k, v)| (k.as_str().to_string(), v.as_bytes().to_vec())).collect()
}

/// `ntex_http::HeaderMap::append`: one more value of the name, after those it
/// has.
#[verifier::external_body]
pub(crate) fn map_append(map: &mut HeaderMap, name: &str, value: &[u8])
    requires
        valid_name(name@),
        valid_value(value@),
    ensures
        fields(*final(map)) == appended(fields(*old(map)), key(name@), value@),
{
    let name = ntex_http::HeaderName::from_bytes(name.as_bytes()).unwrap();
    map.append(name, ntex_http::HeaderValue::from_bytes(value).unwrap());
}

/// `ntex_http::HeaderMap::insert`: the value takes the place of those that the
/// name had.
#[verifier::external_body]
pub(crate) fn map_insert(map: &mut HeaderMap, name: &str, value: &[u8])
    requires
        valid_name(name@),
        valid_value(value@),
    ensures
        fields(*final(map)) == replaced(fields(*old(map)), key(name@), value@),
{
    let name = ntex_http::HeaderName::from_bytes(name.as_bytes()).unwrap();
    map.insert(name, ntex_http::HeaderValue::from_bytes(value).unwrap());
}

/// `ntex_http::HeaderMap::remove`: the name has no value afterwards.
#[verifier::external_body]
pub(crate) fn map_remove(map: &mut HeaderMap, name: &str)
    ensures
        fields(*final(map)) == fields(*old(map)).remove(key(name@)),
{
    map.remove(name);
}

/// `ntex_http::HeaderName::from_bytes`: a name is accepted where it is one to
/// 65535 token bytes, and is brought to lower case.
#[verifier::external_body]
pub(crate) fn header_name(src: &[u8]) -> (r: Option<String>)
    ensures
        r is Some <==> is_name_text(src@),
        r matches Some(s) ==> s@ == key(chars(src@)),
{
    match ntex_http::HeaderName::from_bytes(src) {
        Ok(name) => Some(name.as_str().to_string()),
        Err(_) => None,
    }
}

/// Whether the bytes are a header value.
pub fn is_header_value(v: &[u8]) -> (r: bool)
    ensures
        r == valid_value(v@),
{
    let mut i: usize = 0;
    while i < v.len()
        invariant
            i <= v.len(),
            forall|j: int| 0 <= j < i ==> is_value_byte(#[trigger] v@[j]),
        decreases v.len() - i,
    {
        let b = v[i];
        if !(b >= 32 && b != 127 || b == 9) {
            assert(!is_value_byte(v@[i as int]));
            return false;
        }
        i += 1;
    }
    true
}

/// A lower case name is its own key.
pub proof fn key_of_key(name: Seq<char>)
    ensures
        key(key(name)) == key(name),
{
    assert(key(key(name)) =~= key(name));
}

/// The name read from token bytes is a header name.
pub proof fn name_from_token(src: Seq<u8>)
    requires
        is_name_text(src),
    ensures
        valid_name(key(chars(src))),
        key(key(chars(src))) == key(chars(src)),
{
    key_of_key(chars(src));
    let k = key(chars(src));
    assert forall|i: int| 0 <= i < k.len() implies is_token(#[trigger] k[i] as int) by {
        assert(is_token(src[i] as int));
        assert(chars(src)[i] as int == src[i] as int);
    }
}

/// The values of a name among header lines, in their order.
pub open spec fn values_in(l: Seq<(Seq<char>, Seq<u8>)>, name: Seq<char>) -> Seq<Seq<u8>>
    decreases l.len(),
{
    if l.len() == 0 {
        Seq::empty()
    } else if l.last().0 == name {
        values_in(l.drop_last(), name).push(l.last().1)
    } else {
        values_in(l.drop_last(), name)
    }
}

proof fn values_in_both(
    a: Seq<(Seq<char>, Seq<u8>)>,
    b: Seq<(Seq<char>, Seq<u8>)>,
    name: Seq<char>,
)
    ensures
        values_in(a + b, name) == values_in(a, name) + values_in(b, name),
    decreases b.len(),
{
    if b.len() == 0 {
        assert(a + b =~= a);
        assert(values_in(a, name) + values_in(b, name) =~= values_in(a, name));
    } else {
        values_in_both(a, b.drop_last(), name);
        assert((a + b).drop_last() =~= a + b.drop_last());
        assert((a + b).last() == b.last());
        if b.last().0 == name {
            assert(values_in(a, name) + values_in(b.drop_last(), name).push(b.last().1) =~= (
            values_in(a, name) + values_in(b.drop_last(), name)).push(b.last().1));
        }
    }
}

proof fn values_in_lines_of(f: Fields, k: Seq<char>, name: Seq<char>, n: int)
    requires
        0 <= n <= values_of(f, k).len(),
    ensures
        values_in(lines_of(f, k).take(n), name) == (if k == name {
            values_of(f, k).take(n)
        } else {
            Seq::empty()
        }),
    decreases n,
{
    let l = lines_of(f, k);
    if n == 0 {
        assert(l.take(0).len() == 0);
        assert(values_of(f, k).take(0) =~= Seq::empty());
    } else {
        values_in_lines_of(f, k, name, n - 1);
        assert(l.take(n).drop_last() =~= l.take(n - 1));
        assert(l.take(n).last() == l[n - 1]);
        if k == name {
            assert(values_of(f, k).take(n) =~= values_of(f, k).take(n - 1).push(
                values_of(f, k)[n - 1],
            ));
        }
    }
}

proof fn values_in_ordered(f: Fields, order: Seq<Seq<char>>, name: Seq<char>)
    requires
        order.no_duplicates(),
    ensures
        values_in(lines_in_order(f, order), name) == (if order.contains(name) {
            values_of(f, name)
        } else {
            Seq::empty()
        }),
    decreases order.len(),
{
    if order.len() > 0 {
        let before = order.drop_last();
        let k = order.last();
        values_in_ordered(f, before, name);
        values_in_both(lines_in_order(f, before), lines_of(f, k), name);
        let n = values_of(f, k).len() as int;
        values_in_lines_of(f, k, name, n);
        assert(lines_of(f, k).take(n) =~= lines_of(f, k));
        assert(values_of(f, k).take(n) =~= values_of(f, k));
        if k == name {
            if before.contains(name) {
                let i = choose|i: int| 0 <= i < before.len() && before[i] == name;
                assert(order[i] == order[order.len() - 1]);
            }
            assert(order[order.len() - 1] == name);
            assert(order.contains(name));
            assert(Seq::<Seq<u8>>::empty() + values_of(f, name) =~= values_of(f, name));
        } else {
            if order.contains(name) {
                let i = choose|i: int| 0 <= i < order.len() && order[i] == name;
                assert(before[i] == name);
            }
            if before.contains(name) {
                let i = choose|i: int| 0 <= i < before.len() && before[i] == name;
                assert(order[i] == name);
            }
            assert(values_in(lines_in_order(f, before), name) + Seq::<Seq<u8>>::empty()
                =~= values_in(lines_in_order(f, before), name));
        }
    }
}

/// Lines that list fields hold, for each name, its values in order.
pub proof fn listed_values(l: Seq<(Seq<char>, Seq<u8>)>, f: Fields, name: Seq<char>)
    requires
        lists(l, f),
    ensures
        values_in(l, name) == values_of(f, name),
{
    let order = choose|order: Seq<Seq<char>>| #[trigger]
        is_order_of(order, f) && l == lines_in_order(f, order);
    values_in_ordered(f, order, name);
    if !f.contains_key(name) {
        assert(!order.contains(name));
    }
}

/// The name is one of those in a list.
pub open spec fn is_one_of(names: Seq<&str>, name: Seq<char>) -> bool {
    exists|i: int| 0 <= i < names.len() && (#[trigger] names[i])@ == name
}

fn holds_name(names: &Vec<&str>, name: &str) -> (r: bool)
    ensures
        r == is_one_of(names@, name@),
{
    let mut i: usize = 0;
    while i < names.len()
        invariant
            i <= names.len(),
            forall|j: int| 0 <= j < i ==> (#[trigger] names@[j])@ != name@,
        decreases names.len() - i,
    {
        if str_eq(names[i], name) {
            return true;
        }
        i += 1;
    }
    false
}

/// Each name has the values it had before, and those it has in `src` unless it
/// is skipped.
pub open spec fn added(before: Fields, src: Fields, skip: Seq<&str>, after: Fields) -> bool {
    forall|k: Seq<char>| #[trigger]
        values_of(after, k) == values_of(before, k) + (if is_one_of(skip, k) {
            Seq::empty()
        } else {
            values_of(src, k)
        })
}

/// Adds the fields of a header map to another, but for the given names.
pub fn add_fields(dst: &mut HeaderMap, src: &HeaderMap, skip: &Vec<&str>)
    ensures
        added(fields(*old(dst)), fields(*src), skip@, fields(*final(dst))),
{
    let all = map_lines(src);
    let ghost before = fields(*dst);
    let ghost l = lines(all@);
    let mut i: usize = 0;
    while i < all.len()
        invariant
            i <= all.len(),
            l == lines(all@),
            lists(l, fields(*src)),
            before == fields(*old(dst)),
            forall|j: int|
                0 <= j < all@.len() ==> key((#[trigger] all@[j]).0@) == all@[j].0@ && valid_name(
                    all@[j].0@,
                ) && valid_value(all@[j].1@),
            forall|k: Seq<char>| #[trigger]
                values_of(fields(*dst), k) == values_of(before, k) + (if is_one_of(skip@, k) {
                    Seq::empty()
                } else {
                    values_in(l.take(i as int), k)
                }),
        decreases all.len() - i,
    {
        let ghost mid = fields(*dst);
        let name = all[i].0.as_str();
        let skipped = holds_name(skip, name);
        if !skipped {
            map_append(dst, name, all[i].1.as_slice());
        }
        proof {
            let n = l[i as int].0;
            let v = l[i as int].1;
            assert forall|k: Seq<char>| #[trigger]
                values_of(fields(*dst), k) == values_of(before, k) + (if is_one_of(skip@, k) {
                    Seq::empty()
                } else {
                    values_in(l.take(i + 1), k)
                }) by {
                assert(l.take(i + 1).drop_last() =~= l.take(i as int));
                assert(l.take(i + 1).last() == l[i as int]);
                assert(values_of(mid, k) == values_of(before, k) + (if is_one_of(skip@, k) {
                    Seq::empty()
                } else {
                    values_in(l.take(i as int), k)
                }));
                if !skipped && k == n {
                    assert(values_of(fields(*dst), k) == values_of(mid, k).push(v));
                    assert((values_of(before, k) + values_in(l.take(i as int), k)).push(v)
                        =~= values_of(before, k) + values_in(l.take(i as int), k).push(v));
                }
            }
        }
        i += 1;
    }
    proof {
        assert(l.take(l.len() as int) =~= l);
        assert forall|k: Seq<char>| #[trigger]
            values_of(fields(*dst), k) == values_of(before, k) + (if is_one_of(skip@, k) {
                Seq::empty()
            } else {
                values_of(fields(*src), k)
            }) by {
            listed_values(l, fields(*src), k);
        }
    }
}

proof fn listed_names(l: Seq<(Seq<char>, Seq<u8>)>, name: Seq<char>)
    ensures
        values_in(l, name).len() > 0 <==> exists|i: int|
            0 <= i < l.len() && (#[trigger] l[i]).0 == name,
    decreases l.len(),
{
    if l.len() > 0 {
        listed_names(l.drop_last(), name);
        if l.last().0 == name {
            assert(l[l.len() - 1].0 == name);
        } else {
            if exists|i: int| 0 <= i < l.len() && (#[trigger] l[i]).0 == name {
                let i = choose|i: int| 0 <= i < l.len() && (#[trigger] l[i]).0 == name;
                assert(l.drop_last()[i].0 == name);
            }
            if exists|i: int| 0 <= i < l.drop_last().len() && (#[trigger] l.drop_last()[i]).0
                == name {
                let i = choose|i: int|
                    0 <= i < l.drop_last().len() && (#[trigger] l.drop_last()[i]).0 == name;
                assert(l[i].0 == name);
            }
        }
    }
}

/// Each name has the values it had before, or where it had none, those it has in
/// `src`.
pub open spec fn filled(before: Fields, src: Fields, after: Fields) -> bool {
    forall|k: Seq<char>| #[trigger]
        values_of(after, k) == (if values_of(before, k).len() > 0 {
            values_of(before, k)
        } else {
            values_of(src, k)
        })
}

/// Adds the fields of a header map whose names another map does not have.
pub fn fill_fields(dst: &mut HeaderMap, src: &HeaderMap)
    ensures
        filled(fields(*old(dst)), fields(*src), fields(*final(dst))),
{
    let mine = map_lines(dst);
    let ghost before = fields(*dst);
    let ghost l = lines(mine@);
    let mut names: Vec<&str> = Vec::new();
    let mut i: usize = 0;
    while i < mine.len()
        invariant
            i <= mine.len(),
            names@.len() == i,
            l == lines(mine@),
            forall|j: int| 0 <= j < i ==> (#[trigger] names@[j])@ == l[j].0,
        decreases mine.len() - i,
    {
        names.push(mine[i].0.as_str());
        i += 1;
    }
    add_fields(dst, src, &names);
    proof {
        assert forall|k: Seq<char>| #[trigger]
            values_of(fields(*dst), k) == (if values_of(before, k).len() > 0 {
                values_of(before, k)
            } else {
                values_of(fields(*src), k)
            }) by {
            listed_values(l, before, k);
            listed_names(l, k);
            if values_of(before, k).len() > 0 {
                let i = choose|i: int| 0 <= i < l.len() && (#[trigger] l[i]).0 == k;
                assert(names@[i]@ == k);
                assert(is_one_of(names@, k));
                assert(values_of(before, k) + Seq::<Seq<u8>>::empty() =~= values_of(before, k));
            } else {
                if is_one_of(names@, k) {
                    let i = choose|i: int| 0 <= i < names@.len() && (#[trigger] names@[i])@ == k;
                    assert(l[i].0 == k);
                }
                assert(values_of(before, k) + values_of(fields(*src), k) =~= values_of(
                    fields(*src),
                    k,
                ));
            }
        }
    }
}

} // verus!
