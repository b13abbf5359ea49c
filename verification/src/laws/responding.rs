//! Responses and their cookies.

use cookie::Cookie;
use vstd::prelude::*;
use vstd::utf8::encode_utf8;

use crate::body::{Body, ResponseBody};
use crate::cookies::{
    are_cookies, cookie_name, cookie_text, cookie_value, cookie_values, expiry_fits,
    is_cookie_named, is_first_fault, lists_changes, next_cookie, parsed_cookie, texts_are_values,
    with_cookie, with_values, without_change, without_cookie, Changes,
};
use crate::h1::{error_status, ProtocolError};
use crate::headers::{appended, filled, key, no_fields, replaced, valid_value, values_of, Fields};
use crate::message::ResponseHead;
use crate::response::{
    built, changes_of, header_error, json_parts, loaded, name_of, names_from, originals_of,
    HttpError, Response, ResponseBuilder, ResponseError,
};
use crate::text::{ascii, is_text};
use crate::types::{chars, is_token_text, StatusCode};

verus! {

// ---------------------------------------------------------------------------
// Header fields
// ---------------------------------------------------------------------------

/// Adding a value to a name keeps those it has and puts the value behind them; no
/// other name changes.
pub proof fn appending(f: Fields, name: Seq<char>, value: Seq<u8>, other: Seq<char>)
    ensures
        values_of(appended(f, name, value), name) == values_of(f, name).push(value),
        other != name ==> values_of(appended(f, name, value), other) == values_of(f, other),
        appended(f, name, value).contains_key(name),
{
}

/// Setting a name leaves it with the value alone; no other name changes.
pub proof fn replacing(f: Fields, name: Seq<char>, value: Seq<u8>, other: Seq<char>)
    ensures
        values_of(replaced(f, name, value), name) == seq![value],
        other != name ==> values_of(replaced(f, name, value), other) == values_of(f, other),
        replaced(f, name, value).contains_key(name),
{
}

/// Setting the values of a name; without a value the name is absent.
pub proof fn setting_values(
    f: Fields,
    name: Seq<char>,
    values: Seq<Seq<u8>>,
    other: Seq<char>,
)
    ensures
        values_of(with_values(f, name, values), name) == values,
        with_values(f, name, values).contains_key(name) <==> values.len() > 0,
        other != name ==> values_of(with_values(f, name, values), other) == values_of(f, other),
{
    if values.len() == 0 {
        assert(values =~= Seq::empty());
    }
}

/// A header is refused where its name is none, and else where its value is none;
/// names are made of one to 65535 token bytes and are the same in any case.
pub proof fn headers_are_checked(name: Seq<char>, value: Seq<u8>)
    ensures
        ({
            let b = encode_utf8(name);
            let named = is_token_text(b) && b.len() <= 65535;
            &&& !named <==> header_error(name, value) == Some(HttpError::HeaderName)
            &&& named && !valid_value(value) <==> header_error(name, value) == Some(
                HttpError::HeaderValue,
            )
            &&& named && valid_value(value) <==> header_error(name, value) is None
            &&& named <==> name_of(name) is Some
            &&& name_of(name) matches Some(n) ==> n == key(chars(b))
        }),
{
}

// ---------------------------------------------------------------------------
// Responses
// ---------------------------------------------------------------------------

/// An error that has no response of its own is answered with 500 and its text, and
/// an error of the protocol with its status and no body.
pub proof fn errors_are_answered(e: HttpError, p: ProtocolError, r: Response<Body>, t: Response<Body>)
    requires
        e.answered_with(r),
        p.answered_with(t),
    ensures
        r.head.status == StatusCode(500),
        values_of(r.head.fields(), "content-type"@) == seq![ascii("text/plain; charset=utf-8"@)],
        r.body matches ResponseBody::Body(Body::Bytes(b)) && b@ == encode_utf8(e.text_spec()),
        t.head.status == error_status(p),
        t.head.fields() == no_fields(),
        t.body == ResponseBody::Body(Body::Empty),
{
    reveal_strlit("content-type");
    assert(key("content-type"@) =~= "content-type"@);
}

/// A builder makes the response that was built: with its status, its marks, the
/// given body, its headers, and a cookie header for each cookie that was added or
/// removed, behind those that it had. Where something was wrong, it makes an error
/// response instead, with 500.
pub proof fn builders_make_responses<B>(
    b: ResponseBuilder,
    after: ResponseBuilder,
    head: ResponseHead,
    body: B,
    r: Response<B>,
    name: Seq<char>,
)
    requires
        built(b, after, head, body, r),
    ensures
        b.err is Some ==> r.head.status == StatusCode(500) && r.body is Other,
        b.err is None && texts_are_values(changes_of(b.cookies)) ==> {
            &&& r.head.status == head.status
            &&& r.head.flags == head.flags
            &&& r.head.reason == head.reason
            &&& r.body == ResponseBody::Body(body)
            &&& name != "set-cookie"@ ==> values_of(r.head.fields(), name) == values_of(
                head.fields(),
                name,
            )
            &&& values_of(head.fields(), "set-cookie"@).is_prefix_of(
                values_of(r.head.fields(), "set-cookie"@),
            )
            &&& changes_of(b.cookies).contains_key(name) ==> values_of(
                r.head.fields(),
                "set-cookie"@,
            ).contains(encode_utf8(changes_of(b.cookies)[name].1))
        },
        b.err is None && !texts_are_values(changes_of(b.cookies)) ==> r.head.status == StatusCode(
            500,
        ) && r.body is Other,
{
    reveal_strlit("set-cookie");
    assert(key("set-cookie"@) =~= "set-cookie"@);
    if b.err is None && texts_are_values(changes_of(b.cookies)) {
        let m = changes_of(b.cookies);
        let l = choose|l: Seq<Cookie<'static>>| #[trigger]
            lists_changes(l, m) && crate::response::more_values(
                head.fields(),
                key("set-cookie"@),
                cookie_values(l),
                r.head.fields(),
            );
        let f = head.fields();
        let g = r.head.fields();
        if name != "set-cookie"@ {
            assert(g.remove("set-cookie"@).contains_key(name) == f.remove(
                "set-cookie"@,
            ).contains_key(name));
            assert(g.contains_key(name) ==> g.remove("set-cookie"@)[name] == g[name]);
            assert(f.contains_key(name) ==> f.remove("set-cookie"@)[name] == f[name]);
        }
        if m.contains_key(name) {
            let i = choose|i: int| 0 <= i < l.len() && cookie_name(#[trigger] l[i]) == name;
            let old = values_of(f, "set-cookie"@);
            assert(values_of(g, "set-cookie"@)[old.len() + i] == encode_utf8(cookie_text(l[i])));
        }
    }
}

/// A builder that is given a text of json sends it as it is, as json unless a type
/// was set.
pub proof fn json_is_sent(b: ResponseBuilder, head: ResponseHead, body: Vec<u8>, text: Seq<char>)
    requires
        json_parts(b, head, body, text),
        b.is_open(),
    ensures
        body@ == encode_utf8(text),
        b.head->0.fields().contains_key("content-type"@) ==> head.fields() == b.head->0.fields(),
        !b.head->0.fields().contains_key("content-type"@) ==> values_of(
            head.fields(),
            "content-type"@,
        ) == seq![ascii("application/json"@)],
        head.status == b.head->0.status,
{
    reveal_strlit("content-type");
    assert(key("content-type"@) =~= "content-type"@);
    assert(Seq::<Seq<u8>>::empty().push(ascii("application/json"@)) =~= seq![
        ascii("application/json"@),
    ]);
}

// ---------------------------------------------------------------------------
// Cookies
// ---------------------------------------------------------------------------

/// The next cookie is the first value from a place on that reads as one, unless a
/// value that is no text comes before it; values that are no cookies are passed
/// over.
pub proof fn next_cookies(values: Seq<Seq<u8>>, pos: int)
    requires
        0 <= pos <= values.len(),
    ensures
        ({
            let (c, next) = next_cookie(values, pos);
            &&& pos <= next <= values.len()
            &&& c matches Some(parts) ==> next > pos && parsed_cookie(values[next - 1]) == Ok::<
                (Seq<char>, Seq<char>, Seq<char>),
                crate::cookies::CookieParseError,
            >(parts) && forall|j: int|
                pos <= j < next - 1 ==> is_text(values[j]) && (#[trigger] parsed_cookie(values[j]))
                    is Err
            &&& c is None ==> next == values.len() && (forall|j: int|
                pos <= j < values.len() ==> (#[trigger] parsed_cookie(values[j])) is Err)
                || next > pos && !is_text(values[next - 1])
        }),
    decreases values.len() - pos,
{
    if pos < values.len() && is_text(values[pos]) && parsed_cookie(values[pos]) is Err {
        next_cookies(values, pos + 1);
    }
}

/// Removing the cookies of a name removes them all and nothing else.
pub proof fn removing_cookies(values: Seq<Seq<u8>>, name: Seq<char>, v: Seq<u8>)
    ensures
        without_cookie(values, name).contains(v) <==> values.contains(v) && !(is_text(v) && (
        parsed_cookie(v) matches Ok((n, _, _)) && n == name)),
        without_cookie(values, name).to_multiset().count(v) == (if is_cookie_named(v, name) {
            0
        } else {
            values.to_multiset().count(v)
        }),
    decreases values.len(),
{
    broadcast use vstd::seq_lib::group_to_multiset_ensures;

    let left = without_cookie(values, name);
    if values.len() > 0 {
        let tail = values.skip(1);
        let behind = without_cookie(tail, name);
        removing_cookies(tail, name, v);
        assert(values =~= seq![values[0]] + tail);
        vstd::seq_lib::lemma_multiset_commutative(seq![values[0]], tail);
        assert(seq![values[0]].to_multiset() =~= vstd::multiset::Multiset::singleton(values[0])) by {
            assert(seq![values[0]] =~= Seq::empty().push(values[0]));
        }
        if behind.contains(v) {
            let i = choose|i: int| 0 <= i < behind.len() && behind[i] == v;
            assert(left[i] == v);
        }
        if tail.contains(v) {
            let i = choose|i: int| 0 <= i < tail.len() && tail[i] == v;
            assert(values[i + 1] == v);
        }
        if values.contains(v) {
            let i = choose|i: int| 0 <= i < values.len() && values[i] == v;
            if i > 0 {
                assert(tail[i - 1] == v);
            }
        }
        if !is_cookie_named(values[0], name) {
            assert(left[behind.len() as int] == values[0]);
            if left.contains(v) {
                let i = choose|i: int| 0 <= i < left.len() && left[i] == v;
                if i < behind.len() {
                    assert(behind[i] == v);
                }
            }
        }
    }
}

/// A cookie that is added takes the place of one of its name and leaves the others
/// alone.
pub proof fn adding_cookies(m: Changes, c: Cookie<'static>, other: Seq<char>)
    ensures
        with_cookie(m, c).contains_key(cookie_name(c)),
        with_cookie(m, c)[cookie_name(c)] == (cookie_value(c), cookie_text(c), expiry_fits(c)),
        other != cookie_name(c) ==> (with_cookie(m, c).contains_key(other) <==> m.contains_key(
            other,
        )) && (m.contains_key(other) ==> with_cookie(m, c)[other] == m[other]),
{
}

/// A cookie that is removed from what was added is gone; one that was there from
/// the start leaves an order to drop it behind. Others stay.
pub proof fn dropping_cookies(
    before: Changes,
    originals: Set<Seq<char>>,
    name: Seq<char>,
    after: Changes,
    other: Seq<char>,
)
    requires
        without_change(before, originals, name, after),
    ensures
        after.contains_key(name) <==> originals.contains(name),
        originals.contains(name) ==> after[name].0 == Seq::<char>::empty() && (name + seq!['='])
            .is_prefix_of(after[name].1),
        other != name ==> (after.contains_key(other) <==> before.contains_key(other)) && (
        before.contains_key(other) ==> after[other] == before[other]),
{
    reveal_strlit("=");
    assert("="@ =~= seq!['=']);
    if other != name {
        assert(after.remove(name).contains_key(other) == before.remove(name).contains_key(other));
        assert(after.contains_key(other) ==> after.remove(name)[other] == after[other]);
        assert(before.contains_key(other) ==> before.remove(name)[other] == before[other]);
    }
}

/// Fields that are filled in keep all values that a name has; only a name without a
/// value gets those of the other fields.
pub proof fn filling_in(before: Fields, src: Fields, after: Fields, name: Seq<char>)
    requires
        filled(before, src, after),
    ensures
        values_of(before, name).len() > 0 ==> values_of(after, name) == values_of(before, name),
        values_of(before, name).len() == 0 ==> values_of(after, name) == values_of(src, name),
{
}

/// A builder that is open takes a header or the error that it makes; one that is not
/// stays as it is.
pub proof fn builders_take_headers(
    b: ResponseBuilder,
    other: ResponseBuilder,
    error: Option<HttpError>,
    f: Fields,
)
    requires
        b.with_fields(other, error, f),
    ensures
        other.err is Some || other.head is None ==> b == other,
        other.err is None && other.head is Some ==> b.err == error && (error is None ==> b.head
            is Some && b.head->0.fields() == f && b.head->0.status == other.head->0.status
            && b.head->0.flags == other.head->0.flags) && (error is Some ==> b.head == other.head)
            && b.cookies == other.cookies,
{
}

/// All header values are cookies, one for each and in their order; the first that is
/// none is told.
pub proof fn cookies_are_read(
    values: Seq<Seq<u8>>,
    cookies: Seq<Cookie<'static>>,
    e: crate::cookies::CookieParseError,
    i: int,
)
    requires
        0 <= i < values.len(),
    ensures
        are_cookies(values, cookies) ==> cookies.len() == values.len() && parsed_cookie(values[i])
            == Ok::<(Seq<char>, Seq<char>, Seq<char>), crate::cookies::CookieParseError>(
            (cookie_name(cookies[i]), cookie_value(cookies[i]), cookie_text(cookies[i])),
        ),
        is_first_fault(values, e) ==> exists|j: int|
            0 <= j < values.len() && (#[trigger] parsed_cookie(values[j])) is Err,
        is_first_fault(values, e) ==> !are_cookies(values, cookies),
{
    if are_cookies(values, cookies) {
        assert(parsed_cookie(values[i]) == Ok::<_, crate::cookies::CookieParseError>(
            crate::cookies::cookie_parts(cookies[i]),
        ));
    }
    if is_first_fault(values, e) {
        let j = choose|j: int|
            0 <= j < values.len() && parsed_cookie(#[trigger] values[j]) == Err::<
                (Seq<char>, Seq<char>, Seq<char>),
                _,
            >(e) && forall|k: int| 0 <= k < j ==> (#[trigger] parsed_cookie(values[k])) is Ok;
        assert(parsed_cookie(values[j]) is Err);
        if are_cookies(values, cookies) {
            assert(parsed_cookie(values[j]) == Ok::<_, crate::cookies::CookieParseError>(
                crate::cookies::cookie_parts(cookies[j]),
            ));
        }
    }
}

/// A builder with other marks keeps all else, where it is open.
pub proof fn builders_take_marks(
    b: ResponseBuilder,
    other: ResponseBuilder,
    flags: crate::message::Flags,
)
    requires
        b.with_flags(other, flags),
    ensures
        other.err is None && other.head is Some ==> b.err is None && b.head is Some
            && b.head->0.flags == flags && b.head->0.status == other.head->0.status
            && b.head->0.headers == other.head->0.headers && b.cookies == other.cookies,
        other.err is Some || other.head is None ==> b == other,
{
}

/// A builder that is started from a response knows the cookies of the response, and
/// no other.
pub proof fn started_cookies(values: Seq<Seq<u8>>, pos: int, name: Seq<char>)
    requires
        0 <= pos <= values.len(),
    ensures
        names_from(values, pos).contains(name) ==> exists|i: int|
            pos <= i < values.len() && is_cookie_named(#[trigger] values[i], name),
        (forall|i: int| pos <= i < values.len() ==> is_text(#[trigger] values[i])) ==> forall|i: int|
            pos <= i < values.len() && is_cookie_named(#[trigger] values[i], name) ==> names_from(
                values,
                pos,
            ).contains(name),
    decreases values.len() - pos,
{
    next_cookies(values, pos);
    let (c, next) = next_cookie(values, pos);
    next_reads_as_text(values, pos);
    if pos < values.len() {
        if let Some(parts) = c {
            started_cookies(values, next, name);
            if parts.0 == name {
                assert(is_cookie_named(values[next - 1], name));
            }
            if names_from(values, next).contains(name) {
                let i = choose|i: int|
                    next <= i < values.len() && is_cookie_named(#[trigger] values[i], name);
                assert(is_cookie_named(values[i], name));
            }
            if forall|i: int| pos <= i < values.len() ==> is_text(#[trigger] values[i]) {
                assert forall|i: int|
                    pos <= i < values.len() && is_cookie_named(
                        #[trigger] values[i],
                        name,
                    ) implies names_from(values, pos).contains(name) by {
                    if i < next - 1 {
                        assert(parsed_cookie(values[i]) is Err);
                    }
                }
            }
        }
    }
}

proof fn next_reads_as_text(values: Seq<Seq<u8>>, pos: int)
    requires
        0 <= pos <= values.len(),
    ensures
        next_cookie(values, pos).0 is Some ==> is_text(values[next_cookie(values, pos).1 - 1]),
    decreases values.len() - pos,
{
    if pos < values.len() && is_text(values[pos]) && parsed_cookie(values[pos]) is Err {
        next_reads_as_text(values, pos + 1);
    }
}

/// The jar of such a builder has those names, and nothing was added or removed.
pub proof fn started_jars(values: Seq<Seq<u8>>, jar: Option<cookie::CookieJar>, name: Seq<char>)
    requires
        loaded(values, jar),
    ensures
        originals_of(jar).contains(name) ==> exists|i: int|
            0 <= i < values.len() && is_cookie_named(#[trigger] values[i], name),
        !changes_of(jar).contains_key(name),
{
    started_cookies(values, 0, name);
}

} // verus!
