//! Cookies.

use cookie::{Cookie, CookieJar};
use vstd::prelude::*;
use vstd::utf8::encode_utf8;

use crate::headers::{valid_value, Fields};
use crate::text::{is_text, is_text_bytes};

verus! {

#[verifier::external_type_specification]
#[verifier::external_body]
pub struct ExCookie<'c>(cookie::Cookie<'c>);

#[verifier::external_type_specification]
#[verifier::external_body]
pub struct ExCookieJar(cookie::CookieJar);

/// Name of a cookie.
pub uninterp spec fn cookie_name(c: Cookie<'static>) -> Seq<char>;

/// Value of a cookie.
pub uninterp spec fn cookie_value(c: Cookie<'static>) -> Seq<char>;

/// A cookie as the text of a `Set-Cookie` header.
pub uninterp spec fn cookie_text(c: Cookie<'static>) -> Seq<char>;

/// Why a header value is no cookie.
#[derive(Copy, Clone, Debug, PartialEq, Eq, Structural)]
pub enum CookieParseError {
    /// There is no pair of a name and a value.
    MissingPair,
    /// The name is empty.
    EmptyName,
    /// The value is no UTF-8, or does not decode to UTF-8.
    Utf8Error,
}

/// Whether the expiry that a cookie holds has a date in UTC, `None` where it holds
/// none.
pub uninterp spec fn expiry_in_utc(c: Cookie<'static>) -> Option<bool>;

/// Name, value and text of the cookie that a header value stands for.
pub uninterp spec fn parsed_cookie(value: Seq<u8>) -> Result<
    (Seq<char>, Seq<char>, Seq<char>),
    CookieParseError,
>;

/// `cookie::Cookie::name`: the name of the cookie.
#[verifier::external_body]
pub(crate) fn name_of_cookie(c: &Cookie<'static>) -> (r: String)
    ensures
        r@ == cookie_name(*c),
{
    c.name().to_string()
}

/// `cookie::Cookie::value`: the value of the cookie.
#[verifier::external_body]
pub(crate) fn value_of_cookie(c: &Cookie<'static>) -> (r: String)
    ensures
        r@ == cookie_value(*c),
{
    c.value().to_string()
}

/// `time::OffsetDateTime::checked_to_offset` on `cookie::Cookie::expires_datetime`:
/// whether the moment has a date in UTC depends on the cookie alone.
#[verifier::external_body]
fn utc_expiry(c: &Cookie<'static>) -> (r: Option<bool>)
    ensures
        r == expiry_in_utc(*c),
{
    c.expires_datetime().map(|t| t.checked_to_offset(cookie::time::UtcOffset::UTC).is_some())
}

/// The cookie has no expiry, or one that has a date in UTC.
pub open spec fn expiry_fits(c: Cookie<'static>) -> bool {
    expiry_in_utc(c) != Some(false)
}

/// Whether the cookie has no expiry, or one that has a date in UTC.
pub fn has_utc_expiry(c: &Cookie<'static>) -> (r: bool)
    ensures
        r == expiry_fits(*c),
{
    match utc_expiry(c) {
        Some(fits) => fits,
        None => true,
    }
}

/// The text form of `cookie::Cookie`. It writes the expiry in UTC, so there is
/// one only where the expiry has a date there.
#[verifier::external_body]
pub(crate) fn text_of_cookie(c: &Cookie<'static>) -> (r: String)
    requires
        expiry_fits(*c),
    ensures
        r@ == cookie_text(*c),
{
    c.to_string()
}

/// Name, value and text of a cookie.
pub open spec fn cookie_parts(c: Cookie<'static>) -> (Seq<char>, Seq<char>, Seq<char>) {
    (cookie_name(c), cookie_value(c), cookie_text(c))
}

/// `cookie::Cookie::parse_encoded` on UTF-8 text: whether a header value is a
/// cookie, and which, depends on the value alone.
#[verifier::external_body]
fn parse_cookie(value: &[u8]) -> (r: Result<Cookie<'static>, CookieParseError>)
    ensures
        match r {
            Ok(c) => parsed_cookie(value@) == Ok::<_, CookieParseError>(cookie_parts(c)),
            Err(e) => parsed_cookie(value@) == Err::<(Seq<char>, Seq<char>, Seq<char>), _>(e),
        },
{
    match std::str::from_utf8(value).map(|text| Cookie::parse_encoded(text.to_string())) {
        Ok(Ok(cookie)) => Ok(cookie),
        Ok(Err(cookie::ParseError::MissingPair)) => Err(CookieParseError::MissingPair),
        Ok(Err(cookie::ParseError::EmptyName)) => Err(CookieParseError::EmptyName),
        Ok(Err(_)) | Err(_) => Err(CookieParseError::Utf8Error),
    }
}

// ---------------------------------------------------------------------------
// Cookies of a response
// ---------------------------------------------------------------------------

/// The next cookie among header values, and the place after it. A value that
/// does not read as text ends the search, one that is no cookie is passed over.
pub open spec fn next_cookie(values: Seq<Seq<u8>>, pos: int) -> (
    Option<(Seq<char>, Seq<char>, Seq<char>)>,
    int,
)
    decreases values.len() - pos,
{
    if pos < 0 || pos >= values.len() {
        (None, pos)
    } else if !is_text(values[pos]) {
        (None, pos + 1)
    } else {
        match parsed_cookie(values[pos]) {
            Ok(c) => (Some(c), pos + 1),
            Err(_) => next_cookie(values, pos + 1),
        }
    }
}

/// The cookies set by a response, one after another.
#[derive(Debug)]
pub struct CookieIter {
    /// Values of the `Set-Cookie` headers.
    pub values: Vec<Vec<u8>>,
    /// The next one.
    pub pos: usize,
}

impl CookieIter {
    /// The values.
    pub open spec fn all(self) -> Seq<Seq<u8>> {
        crate::headers::views(self.values@)
    }

    /// The next cookie.
    pub fn next(&mut self) -> (r: Option<Cookie<'static>>)
        requires
            old(self).pos <= old(self).values@.len(),
        ensures
            final(self).values == old(self).values,
            final(self).pos <= final(self).values@.len(),
            final(self).pos == next_cookie(old(self).all(), old(self).pos as int).1,
            match next_cookie(old(self).all(), old(self).pos as int).0 {
                Some(parts) => r matches Some(c) && cookie_parts(c) == parts,
                None => r is None,
            },
            final(self).pos >= old(self).pos,
            r is Some ==> final(self).pos > old(self).pos,
    {
        while self.pos < self.values.len()
            invariant
                old(self).pos <= self.pos <= self.values.len(),
                self.values == old(self).values,
                next_cookie(self.all(), self.pos as int) == next_cookie(
                    old(self).all(),
                    old(self).pos as int,
                ),
            decreases self.values.len() - self.pos,
        {
            let at = self.pos;
            let v = self.values[at].as_slice();
            assert(self.all()[at as int] == v@);
            self.pos = at + 1;
            if !is_text_bytes(v) {
                return None;
            }
            if let Ok(c) = parse_cookie(v) {
                return Some(c);
            }
        }
        None
    }
}

/// The values that stay when the cookies of a name are removed, the last one
/// first.
pub open spec fn without_cookie(values: Seq<Seq<u8>>, name: Seq<char>) -> Seq<Seq<u8>>
    decreases values.len(),
{
    if values.len() == 0 {
        Seq::empty()
    } else {
        let behind = without_cookie(values.skip(1), name);
        if is_cookie_named(values[0], name) {
            behind
        } else {
            behind.push(values[0])
        }
    }
}

/// The value is a cookie of the given name.
pub open spec fn is_cookie_named(value: Seq<u8>, name: Seq<char>) -> bool {
    is_text(value) && (parsed_cookie(value) matches Ok((n, _, _)) && n == name)
}

/// Whether the value is a cookie of the given name.
pub(crate) fn is_cookie(value: &[u8], name: &str) -> (r: bool)
    ensures
        r == is_cookie_named(value@, name@),
{
    if !is_text_bytes(value) {
        return false;
    }
    match parse_cookie(value) {
        Ok(c) => {
            let n = name_of_cookie(&c);
            crate::text::str_eq(n.as_str(), name)
        },
        Err(_) => false,
    }
}

/// The fields with other values of a name.
pub open spec fn with_values(f: Fields, name: Seq<char>, values: Seq<Seq<u8>>) -> Fields {
    if values.len() == 0 {
        f.remove(name)
    } else {
        f.insert(name, values)
    }
}

/// The cookies are those of the header values, one for each.
pub open spec fn are_cookies(values: Seq<Seq<u8>>, cookies: Seq<Cookie<'static>>) -> bool {
    &&& cookies.len() == values.len()
    &&& forall|i: int|
        0 <= i < values.len() ==> parsed_cookie(values[i]) == Ok::<_, CookieParseError>(
            cookie_parts(#[trigger] cookies[i]),
        )
}

/// The first of the header values that is no cookie.
pub open spec fn is_first_fault(values: Seq<Seq<u8>>, e: CookieParseError) -> bool {
    exists|i: int|
        0 <= i < values.len() && parsed_cookie(#[trigger] values[i]) == Err::<
            (Seq<char>, Seq<char>, Seq<char>),
            _,
        >(e) && forall|j: int| 0 <= j < i ==> (#[trigger] parsed_cookie(values[j])) is Ok
}

/// Reads header values as cookies. The first value that is none fails.
pub(crate) fn parse_cookies(values: &Vec<Vec<u8>>) -> (r: Result<
    Vec<Cookie<'static>>,
    CookieParseError,
>)
    ensures
        match r {
            Ok(l) => are_cookies(crate::headers::views(values@), l@),
            Err(e) => is_first_fault(crate::headers::views(values@), e),
        },
{
    let ghost all = crate::headers::views(values@);
    let mut cookies: Vec<Cookie<'static>> = Vec::new();
    let mut i: usize = 0;
    while i < values.len()
        invariant
            i <= values.len(),
            all == crate::headers::views(values@),
            cookies@.len() == i,
            forall|j: int|
                0 <= j < i ==> parsed_cookie(all[j]) == Ok::<_, CookieParseError>(
                    cookie_parts(#[trigger] cookies@[j]),
                ),
            forall|j: int| 0 <= j < i ==> (#[trigger] parsed_cookie(all[j])) is Ok,
        decreases values.len() - i,
    {
        let v = values[i].as_slice();
        assert(all[i as int] == v@);
        match parse_cookie(v) {
            Ok(c) => {
                cookies.push(c);
            },
            Err(e) => {
                return Err(e);
            },
        }
        i += 1;
    }
    Ok(cookies)
}

// ---------------------------------------------------------------------------
// Jars
// ---------------------------------------------------------------------------

/// Cookies of a jar that were added or removed: value, text and whether the
/// expiry has a date in UTC, by name.
pub type Changes = Map<Seq<char>, (Seq<char>, Seq<char>, bool)>;

/// Cookies of a jar that were added or removed: value, text and whether the
/// expiry has a date in UTC, by name.
pub uninterp spec fn jar_changes(jar: CookieJar) -> Changes;

/// Names of the cookies that a jar was started with.
pub uninterp spec fn jar_originals(jar: CookieJar) -> Set<Seq<char>>;

/// No cookies.
pub open spec fn no_changes() -> Changes {
    Map::empty()
}

/// No names.
pub open spec fn no_names() -> Set<Seq<char>> {
    Set::empty()
}

/// `cookie::CookieJar::new`: the jar is empty.
#[verifier::external_body]
pub(crate) fn jar_new() -> (r: CookieJar)
    ensures
        jar_changes(r) == no_changes(),
        jar_originals(r) == no_names(),
{
    CookieJar::new()
}

/// `cookie::CookieJar::add`: the cookie takes the place of one of its name.
#[verifier::external_body]
pub(crate) fn jar_add(jar: &mut CookieJar, c: &Cookie<'static>)
    ensures
        jar_changes(*final(jar)) == with_cookie(jar_changes(*old(jar)), *c),
        jar_originals(*final(jar)) == jar_originals(*old(jar)),
{
    jar.add(c.clone());
}

/// The changes with one more cookie.
pub open spec fn with_cookie(m: Changes, c: Cookie<'static>) -> Changes {
    m.insert(cookie_name(c), (cookie_value(c), cookie_text(c), expiry_fits(c)))
}

/// `cookie::CookieJar::add_original`: the jar was started with the cookie.
#[verifier::external_body]
pub(crate) fn jar_add_original(jar: &mut CookieJar, c: &Cookie<'static>)
    ensures
        jar_changes(*final(jar)) == jar_changes(*old(jar)),
        jar_originals(*final(jar)) == jar_originals(*old(jar)).insert(cookie_name(*c)),
{
    jar.add_original(c.clone());
}

/// The changes after a cookie was removed from a jar. One that the jar was
/// started with leaves a cookie without a value behind, whose text tells the
/// client to drop it and depends on the time.
pub open spec fn without_change(
    before: Changes,
    originals: Set<Seq<char>>,
    name: Seq<char>,
    after: Changes,
) -> bool {
    if originals.contains(name) {
        &&& after.contains_key(name)
        &&& after[name].0 == Seq::<char>::empty()
        &&& (name + "="@).is_prefix_of(after[name].1)
        &&& after[name].2
        &&& after.remove(name) == before.remove(name)
    } else {
        after == before.remove(name)
    }
}

/// `cookie::CookieJar::remove`: a cookie that the jar was started with leaves
/// one without a value behind, any other leaves nothing. Its expiry is in UTC and
/// depends on the time, so it is told of its text only that it starts with the name.
#[verifier::external_body]
pub(crate) fn jar_remove(jar: &mut CookieJar, c: &Cookie<'static>)
    ensures
        without_change(
            jar_changes(*old(jar)),
            jar_originals(*old(jar)),
            cookie_name(*c),
            jar_changes(*final(jar)),
        ),
        jar_originals(*final(jar)) == jar_originals(*old(jar)),
{
    jar.remove(c.clone());
}

/// The cookies list the changes, in some order.
pub open spec fn lists_changes(l: Seq<Cookie<'static>>, m: Changes) -> bool {
    &&& forall|i: int, j: int|
        0 <= i < l.len() && 0 <= j < l.len() && cookie_name(#[trigger] l[i]) == cookie_name(
            #[trigger] l[j],
        ) ==> i == j
    &&& forall|i: int|
        0 <= i < l.len() ==> m.contains_key(cookie_name(#[trigger] l[i])) && m[cookie_name(l[i])]
            == (cookie_value(l[i]), cookie_text(l[i]), expiry_fits(l[i]))
    &&& forall|k: Seq<char>| #[trigger]
        m.contains_key(k) ==> exists|i: int| 0 <= i < l.len() && cookie_name(#[trigger] l[i]) == k
}

/// `cookie::CookieJar::delta`: the cookies that were added or removed. Their
/// order is left open.
#[verifier::external_body]
pub(crate) fn jar_delta(jar: &CookieJar) -> (r: Vec<Cookie<'static>>)
    ensures
        lists_changes(r@, jar_changes(*jar)),
{
    jar.delta().cloned().collect()
}

/// Every cookie can stand in a header.
pub open spec fn texts_are_values(m: Changes) -> bool {
    forall|k: Seq<char>| #[trigger]
        m.contains_key(k) ==> m[k].2 && valid_value(encode_utf8(m[k].1))
}

/// The header values of cookies.
pub open spec fn cookie_values(l: Seq<Cookie<'static>>) -> Seq<Seq<u8>> {
    Seq::new(l.len(), |i: int| encode_utf8(cookie_text(l[i])))
}

} // verus!
