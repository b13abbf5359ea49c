//! Byte and text primitives shared by the decoders and the encoders.

use vstd::prelude::*;

verus! {

/// The bytes of an ASCII text.
pub open spec fn ascii(s: Seq<char>) -> Seq<u8> {
    Seq::new(s.len(), |i: int| s[i] as u8)
}

/// A line end.
pub open spec fn crlf() -> Seq<u8> {
    seq![13u8, 10u8]
}

/// ASCII lower case of one byte.
pub open spec fn lower(b: u8) -> u8 {
    if 65 <= b <= 90 {
        (b + 32) as u8
    } else {
        b
    }
}

/// ASCII lower case of every byte.
pub open spec fn lower_seq(s: Seq<u8>) -> Seq<u8> {
    Seq::new(s.len(), |i: int| lower(s[i]))
}

/// Equality up to ASCII case.
pub open spec fn eq_ignore_case(a: Seq<u8>, b: Seq<u8>) -> bool {
    lower_seq(a) =~= lower_seq(b)
}

/// Space or horizontal tab.
pub open spec fn is_blank(b: u8) -> bool {
    b == 32 || b == 9
}

/// The text without leading blanks.
pub open spec fn trim_start(s: Seq<u8>) -> Seq<u8>
    decreases s.len(),
{
    if s.len() > 0 && is_blank(s[0]) {
        trim_start(s.subrange(1, s.len() as int))
    } else {
        s
    }
}

/// The text without trailing blanks.
pub open spec fn trim_end(s: Seq<u8>) -> Seq<u8>
    decreases s.len(),
{
    if s.len() > 0 && is_blank(s.last()) {
        trim_end(s.drop_last())
    } else {
        s
    }
}

/// The text without leading and trailing blanks.
pub open spec fn trim(s: Seq<u8>) -> Seq<u8> {
    trim_end(trim_start(s))
}

/// Printable ASCII or tab: the bytes of a header value that reads as text.
pub open spec fn is_visible(b: u8) -> bool {
    32 <= b < 127 || b == 9
}

/// Every byte is printable ASCII or tab.
pub open spec fn is_text(s: Seq<u8>) -> bool {
    forall|i: int| 0 <= i < s.len() ==> is_visible(#[trigger] s[i])
}

pub open spec fn is_digit(b: u8) -> bool {
    48 <= b <= 57
}

pub open spec fn all_digits(s: Seq<u8>) -> bool {
    forall|i: int| 0 <= i < s.len() ==> is_digit(#[trigger] s[i])
}

/// The number that a run of decimal digits stands for.
pub open spec fn decimal_value(s: Seq<u8>) -> nat
    decreases s.len(),
{
    if s.len() == 0 {
        0
    } else {
        decimal_value(s.drop_last()) * 10 + (s.last() - 48) as nat
    }
}

/// The decimal digits of a number, without leading zeros.
pub open spec fn decimal(n: nat) -> Seq<u8>
    decreases n,
{
    if n < 10 {
        seq![(48 + n) as u8]
    } else {
        decimal(n / 10).push((48 + n % 10) as u8)
    }
}

/// One upper case hexadecimal digit.
pub open spec fn hex_digit(n: nat) -> u8 {
    if n < 10 {
        (48 + n) as u8
    } else {
        (55 + n) as u8
    }
}

/// The upper case hexadecimal digits of a number, without leading zeros.
pub open spec fn hex(n: nat) -> Seq<u8>
    decreases n,
{
    if n < 16 {
        seq![hex_digit(n)]
    } else {
        hex(n / 16).push(hex_digit(n % 16))
    }
}

/// Printing a number in decimal and reading it back gives the number.
pub proof fn decimal_reads_back(n: nat)
    ensures
        decimal(n).len() > 0,
        all_digits(decimal(n)),
        decimal_value(decimal(n)) == n,
    decreases n,
{
    if n < 10 {
        assert(decimal(n).drop_last() =~= Seq::<u8>::empty());
        assert(decimal_value(Seq::<u8>::empty()) == 0);
        assert(decimal(n).last() == 48 + n);
    } else {
        decimal_reads_back(n / 10);
        let s = decimal(n);
        assert(s.drop_last() =~= decimal(n / 10));
        assert(s.last() == 48 + n % 10);
        assert forall|i: int| 0 <= i < s.len() implies is_digit(#[trigger] s[i]) by {
            if i < s.len() - 1 {
                assert(s[i] == decimal(n / 10)[i]);
            }
        }
    }
}

proof fn decimal_value_grows(s: Seq<u8>, i: int)
    requires
        all_digits(s),
        0 <= i <= s.len(),
    ensures
        decimal_value(s.subrange(0, i)) <= decimal_value(s),
    decreases s.len(),
{
    if i == s.len() {
        assert(s.subrange(0, i) =~= s);
    } else {
        let t = s.drop_last();
        assert forall|j: int| 0 <= j < t.len() implies is_digit(#[trigger] t[j]) by {
            assert(t[j] == s[j]);
        }
        decimal_value_grows(t, i);
        assert(t.subrange(0, i) =~= s.subrange(0, i));
        assert(is_digit(s[s.len() - 1]));
    }
}

/// Compares two texts.
pub fn str_eq(a: &str, b: &str) -> (r: bool)
    ensures
        r == (a@ == b@),
{
    a.to_owned() == b.to_owned()
}

/// Compares two byte strings.
pub fn bytes_eq(a: &[u8], b: &[u8]) -> (r: bool)
    ensures
        r == (a@ == b@),
{
    if a.len() != b.len() {
        return false;
    }
    let mut i: usize = 0;
    while i < a.len()
        invariant
            a.len() == b.len(),
            i <= a.len(),
            forall|j: int| 0 <= j < i ==> a@[j] == b@[j],
        decreases a.len() - i,
    {
        if a[i] != b[i] {
            return false;
        }
        i += 1;
    }
    assert(a@ =~= b@);
    true
}

fn lower_byte(b: u8) -> (r: u8)
    ensures
        r == lower(b),
{
    if 65 <= b && b <= 90 {
        b + 32
    } else {
        b
    }
}

/// Compares two byte strings up to ASCII case.
pub fn eq_ignore_ascii_case(a: &[u8], b: &[u8]) -> (r: bool)
    ensures
        r == eq_ignore_case(a@, b@),
{
    if a.len() != b.len() {
        return false;
    }
    let mut i: usize = 0;
    while i < a.len()
        invariant
            a.len() == b.len(),
            i <= a.len(),
            forall|j: int| 0 <= j < i ==> lower(a@[j]) == lower(b@[j]),
        decreases a.len() - i,
    {
        if lower_byte(a[i]) != lower_byte(b[i]) {
            assert(lower_seq(a@)[i as int] != lower_seq(b@)[i as int]);
            return false;
        }
        i += 1;
    }
    true
}

/// The part of a byte string without leading and trailing blanks.
pub fn trim_bytes(s: &[u8]) -> (r: &[u8])
    ensures
        r@ == trim(s@),
{
    let mut start: usize = 0;
    assert(s@.subrange(0, s@.len() as int) =~= s@);
    while start < s.len() && (s[start] == 32 || s[start] == 9)
        invariant
            start <= s.len(),
            trim_start(s@.subrange(start as int, s@.len() as int)) == trim_start(s@),
        decreases s.len() - start,
    {
        let ghost t = s@.subrange(start as int, s@.len() as int);
        assert(t.subrange(1, t.len() as int) =~= s@.subrange(start + 1, s@.len() as int));
        start += 1;
    }
    let mut end: usize = s.len();
    let ghost t = s@.subrange(start as int, s@.len() as int);
    assert(trim_start(s@) == t);
    while end > start && (s[end - 1] == 32 || s[end - 1] == 9)
        invariant
            start <= end <= s.len(),
            trim_end(s@.subrange(start as int, end as int)) == trim_end(
                s@.subrange(start as int, s@.len() as int),
            ),
        decreases end,
    {
        let ghost u = s@.subrange(start as int, end as int);
        assert(u.drop_last() =~= s@.subrange(start as int, end - 1));
        assert(u.last() == s@[end - 1]);
        end -= 1;
    }
    vstd::slice::slice_subrange(s, start, end)
}

/// Whether every byte is printable ASCII or tab.
pub fn is_text_bytes(s: &[u8]) -> (r: bool)
    ensures
        r == is_text(s@),
{
    let mut i: usize = 0;
    while i < s.len()
        invariant
            i <= s.len(),
            forall|j: int| 0 <= j < i ==> is_visible(#[trigger] s@[j]),
        decreases s.len() - i,
    {
        let b = s[i];
        if !(32 <= b && b < 127 || b == 9) {
            assert(!is_visible(s@[i as int]));
            return false;
        }
        i += 1;
    }
    true
}

/// Reads an unsigned number written in decimal digits only.
pub fn parse_u64(s: &[u8]) -> (r: Option<u64>)
    ensures
        r is Some <==> s@.len() > 0 && all_digits(s@) && decimal_value(s@) <= u64::MAX,
        r matches Some(v) ==> v == decimal_value(s@),
{
    if s.len() == 0 {
        return None;
    }
    let mut i: usize = 0;
    let mut v: u64 = 0;
    while i < s.len()
        invariant
            i <= s.len(),
            all_digits(s@.subrange(0, i as int)),
            v == decimal_value(s@.subrange(0, i as int)),
        decreases s.len() - i,
    {
        let b = s[i];
        if b < 48 || b > 57 {
            assert(!is_digit(s@[i as int]));
            return None;
        }
        let ghost next = s@.subrange(0, i + 1);
        proof {
            assert(next.drop_last() =~= s@.subrange(0, i as int));
            assert(next.last() == s@[i as int]);
            assert forall|j: int| 0 <= j < next.len() implies is_digit(#[trigger] next[j]) by {
                if j < i {
                    assert(next[j] == s@.subrange(0, i as int)[j]);
                }
            }
            if all_digits(s@) {
                decimal_value_grows(s@, i + 1);
            }
        }
        let d: u64 = (b - 48) as u64;
        match v.checked_mul(10) {
            None => {
                return None;
            },
            Some(t) => match t.checked_add(d) {
                None => {
                    return None;
                },
                Some(w) => {
                    v = w;
                },
            },
        }
        i += 1;
    }
    assert(s@.subrange(0, i as int) =~= s@);
    Some(v)
}

/// Appends the decimal digits of a number.
pub fn write_decimal(n: u64, dst: &mut Vec<u8>)
    ensures
        final(dst)@ == old(dst)@ + decimal(n as nat),
    decreases n,
{
    if n >= 10 {
        write_decimal(n / 10, dst);
    }
    let d: u8 = (n % 10) as u8;
    dst.push(48 + d);
    proof {
        if n >= 10 {
            assert(decimal(n as nat) == decimal((n / 10) as nat).push((48 + n % 10) as u8));
        }
    }
    assert(dst@ =~= old(dst)@ + decimal(n as nat));
}

/// Appends the upper case hexadecimal digits of a number.
pub fn write_hex(n: u64, dst: &mut Vec<u8>)
    ensures
        final(dst)@ == old(dst)@ + hex(n as nat),
    decreases n,
{
    if n >= 16 {
        write_hex(n / 16, dst);
    }
    let d: u8 = (n % 16) as u8;
    let c: u8 = if d < 10 {
        48 + d
    } else {
        55 + d
    };
    dst.push(c);
    proof {
        if n >= 16 {
            assert(hex(n as nat) == hex((n / 16) as nat).push(hex_digit((n % 16) as nat)));
        }
    }
    assert(dst@ =~= old(dst)@ + hex(n as nat));
}

/// The bytes of an ASCII text.
pub fn ascii_bytes(s: &str) -> (r: &[u8])
    requires
        s.is_ascii(),
    ensures
        r@ == ascii(s@),
{
    s.as_bytes()
}

/// Appends an ASCII text.
pub fn put(dst: &mut Vec<u8>, s: &str)
    requires
        s.is_ascii(),
    ensures
        final(dst)@ == old(dst)@ + ascii(s@),
{
    dst.extend_from_slice(ascii_bytes(s));
    assert(dst@ =~= old(dst)@ + ascii(s@));
}

/// Appends bytes.
pub fn put_bytes(dst: &mut Vec<u8>, s: &[u8])
    ensures
        final(dst)@ == old(dst)@ + s@,
{
    dst.extend_from_slice(s);
    assert(dst@ =~= old(dst)@ + s@);
}

/// A copy of a byte string.
pub fn copy_bytes(s: &[u8]) -> (r: Vec<u8>)
    ensures
        r@ == s@,
{
    let mut v: Vec<u8> = Vec::new();
    put_bytes(&mut v, s);
    assert(v@ =~= s@);
    v
}

/// Takes the first `n` bytes out of a buffer.
pub fn split_to(buf: &mut Vec<u8>, n: usize) -> (r: Vec<u8>)
    requires
        n <= old(buf)@.len(),
    ensures
        r@ == old(buf)@.subrange(0, n as int),
        final(buf)@ == old(buf)@.subrange(n as int, old(buf)@.len() as int),
{
    let mut rest = buf.split_off(n);
    std::mem::swap(buf, &mut rest);
    rest
}

/// Takes everything out of a buffer.
pub fn take_all(buf: &mut Vec<u8>) -> (r: Vec<u8>)
    ensures
        r@ == old(buf)@,
        final(buf)@ == Seq::<u8>::empty(),
{
    let mut rest: Vec<u8> = Vec::new();
    std::mem::swap(buf, &mut rest);
    rest
}

} // verus!
