//! Percent encoding.

use vstd::prelude::*;

use crate::text::hex_digit;

verus! {

/// The bytes that are encoded in the user part of a target: controls, white
/// space, quotes and the characters that have a meaning of their own.
pub open spec fn is_reserved(b: u8) -> bool {
    ||| b <= 32
    ||| b >= 127
    ||| b == 34
    ||| b == 35
    ||| b == 47
    ||| 58 <= b <= 64
    ||| 91 <= b <= 94
    ||| b == 96
    ||| 123 <= b <= 125
}

/// Whether the byte is encoded in the user part of a target.
fn reserved(b: u8) -> (r: bool)
    ensures
        r == is_reserved(b),
{
    b <= 32 || b >= 127 || b == 34 || b == 35 || b == 47 || (58 <= b && b <= 64) || (91 <= b && b
        <= 94) || b == 96 || (123 <= b && b <= 125)
}

/// A byte as it is written: by itself, or as a percent sign and two digits.
pub open spec fn encoded_byte(b: u8) -> Seq<u8> {
    if is_reserved(b) {
        seq![37u8, hex_digit((b / 16) as nat), hex_digit((b % 16) as nat)]
    } else {
        seq![b]
    }
}

/// The bytes in percent encoding.
pub open spec fn percent_encoded(s: Seq<u8>) -> Seq<u8>
    decreases s.len(),
{
    if s.len() == 0 {
        Seq::empty()
    } else {
        percent_encoded(s.drop_last()) + encoded_byte(s.last())
    }
}

fn digit(n: u8) -> (r: u8)
    requires
        n < 16,
    ensures
        r == hex_digit(n as nat),
{
    if n < 10 {
        48 + n
    } else {
        55 + n
    }
}

/// Appends bytes in percent encoding.
pub fn percent_encode(s: &[u8], dst: &mut Vec<u8>)
    ensures
        final(dst)@ == old(dst)@ + percent_encoded(s@),
{
    let mut i: usize = 0;
    assert(dst@ =~= old(dst)@ + percent_encoded(s@.take(0)));
    while i < s.len()
        invariant
            i <= s.len(),
            dst@ == old(dst)@ + percent_encoded(s@.take(i as int)),
        decreases s.len() - i,
    {
        let b: u8 = s[i];
        let ghost before = dst@;
        if reserved(b) {
            dst.push(37);
            dst.push(digit(b / 16));
            dst.push(digit(b % 16));
        } else {
            dst.push(b);
        }
        proof {
            assert(s@.take(i + 1).drop_last() =~= s@.take(i as int));
            assert(dst@ =~= before + encoded_byte(b));
            assert(dst@ =~= old(dst)@ + percent_encoded(s@.take(i + 1)));
        }
        i += 1;
    }
    assert(s@.take(s@.len() as int) =~= s@);
}

/// What is written holds no reserved byte, so that it can stand in a header and
/// between separators.
pub proof fn encoding_is_plain(s: Seq<u8>)
    ensures
        forall|i: int|
            0 <= i < percent_encoded(s).len() ==> !is_reserved(#[trigger] percent_encoded(s)[i]),
    decreases s.len(),
{
    if s.len() > 0 {
        encoding_is_plain(s.drop_last());
        let tail = encoded_byte(s.last());
        assert forall|i: int| 0 <= i < tail.len() implies !is_reserved(#[trigger] tail[i]) by {
            let b = s.last();
            if is_reserved(b) {
                assert((b / 16) as nat <= 15);
                assert((b % 16) as nat <= 15);
            }
        }
        assert forall|i: int| 0 <= i < percent_encoded(s).len() implies !is_reserved(
            #[trigger] percent_encoded(s)[i],
        ) by {
            let before = percent_encoded(s.drop_last());
            if i < before.len() {
                assert(percent_encoded(s)[i] == before[i]);
            } else {
                assert(percent_encoded(s)[i] == tail[i - before.len()]);
            }
        }
    }
}

} // verus!
