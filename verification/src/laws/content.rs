//! Encoded contents, and texts.

use vstd::prelude::*;
use vstd::utf8::encode_utf8;

use crate::body::{Body, BodySize, MessageBody, ResponseBody};
use crate::encoding::encoder::{held_body, is_encoded, item_taken, EncodeStep, Encoder, EncoderBody};
use crate::encoding::coders::ContentEncoder;
use crate::encoding::{encoding_named, without_leading, without_trailing, ContentEncoding};
use crate::headers::{is_value_byte, key};
use crate::helpers::{encoded_byte, is_reserved, percent_encoded};
use crate::message::ResponseHead;
use crate::payload::{buffered, pieces};
use crate::text::{
    ascii, eq_ignore_case, hex, is_blank, lower, lower_seq, trim, trim_end, trim_start,
};

verus! {

/// A response is encoded where an encoding was chosen that compresses, and it is
/// not encoded yet, has a body, and neither switches protocols nor is without
/// contents by its status.
pub proof fn what_is_encoded<B>(
    encoding: ContentEncoding,
    head: ResponseHead,
    body: ResponseBody<B>,
)
    ensures
        is_encoded(encoding, head, body) ==> encoding != ContentEncoding::Identity && encoding
            != ContentEncoding::Auto && !head.fields().contains_key("content-encoding"@)
            && head.status.0 != 101 && head.status.0 != 204,
        (encoding == ContentEncoding::Gzip || encoding == ContentEncoding::Deflate || encoding
            == ContentEncoding::Br) && !head.fields().contains_key("content-encoding"@)
            && head.status.0 != 101 && head.status.0 != 204 && (body is Body || (
        body matches ResponseBody::Other(b) && (b is Bytes || b is Message))) ==> is_encoded(
            encoding,
            head,
            body,
        ),
        body == ResponseBody::<B>::Other(Body::NoBody) || body == ResponseBody::<B>::Other(
            Body::Empty,
        ) ==> !is_encoded(encoding, head, body),
{
    reveal_strlit("content-encoding");
    assert(key("content-encoding"@) =~= "content-encoding"@);
}

/// What is encoded is what the body holds.
pub proof fn encoded_bodies_are_held<B>(body: ResponseBody<B>)
    ensures
        body matches ResponseBody::Body(b) ==> held_body(body) == EncoderBody::Stream(b),
        body matches ResponseBody::Other(Body::Bytes(b)) ==> held_body(body) == EncoderBody::<
            B,
        >::Bytes(b),
        body matches ResponseBody::Other(Body::Message(s)) ==> held_body(body) == EncoderBody::<
            B,
        >::BoxedStream(s),
{
}

/// The encodings go by their names in any case; what is no name is no encoding.
pub proof fn encodings_have_names(s: Seq<char>)
    requires
        s.len() > 0 ==> !crate::encoding::is_white(s[0]) && !crate::encoding::is_white(s.last()),
    ensures
        ({
            let b = encode_utf8(s);
            let e = encoding_named(s);
            &&& eq_ignore_case(b, ascii("gzip"@)) ==> e == ContentEncoding::Gzip
            &&& eq_ignore_case(b, ascii("deflate"@)) ==> e == ContentEncoding::Deflate
            &&& eq_ignore_case(b, ascii("br"@)) ==> e == ContentEncoding::Br
            &&& e == ContentEncoding::Gzip ==> eq_ignore_case(b, ascii("gzip"@))
            &&& e == ContentEncoding::Deflate ==> eq_ignore_case(b, ascii("deflate"@))
            &&& e == ContentEncoding::Br ==> eq_ignore_case(b, ascii("br"@))
            &&& e != ContentEncoding::Auto
        }),
{
    reveal_strlit("gzip");
    reveal_strlit("deflate");
    reveal_strlit("br");
    assert(without_leading(s) == s);
    assert(without_trailing(s) == s);
    let b = encode_utf8(s);
    assert(lower_seq(b).len() == b.len());
    assert(lower_seq(ascii("gzip"@)).len() == 4);
    assert(lower_seq(ascii("deflate"@)).len() == 7);
    assert(lower_seq(ascii("br"@)).len() == 2);
}

/// An encoding is named as it is read.
pub proof fn encodings_are_named(e: ContentEncoding)
    ensures
        e == ContentEncoding::Gzip ==> e.name() == "gzip"@,
        e == ContentEncoding::Deflate ==> e.name() == "deflate"@,
        e == ContentEncoding::Br ==> e.name() == "br"@,
        e == ContentEncoding::Identity || e == ContentEncoding::Auto ==> e.name() == "identity"@,
{
}

/// A body that holds its bytes announces their number; one without a body announces
/// none, and a stream what it was told.
pub proof fn bodies_announce_their_size(b: Body)
    ensures
        b matches Body::Bytes(v) ==> b.size_spec() == BodySize::Sized(v@.len() as u64)
            && b.bytes_left() == Some(v@),
        b is NoBody ==> b.size_spec() == BodySize::NoBody && b.bytes_left() == Some(
            Seq::<u8>::empty(),
        ),
        b is Empty ==> b.size_spec() == BodySize::Empty && b.bytes_left() == Some(
            Seq::<u8>::empty(),
        ),
        b matches Body::Message(s) ==> b.size_spec() == s && b.bytes_left() is None,
{
}

/// The bytes of a buffer are those of its pieces, in their order.
pub proof fn buffers_hold_their_pieces(items: Seq<Vec<u8>>, item: Vec<u8>)
    ensures
        buffered(items.push(item)) == buffered(items) + item@,
        pieces(items.push(item)) == pieces(items).push(item@),
        buffered(Seq::<Vec<u8>>::empty()) == Seq::<u8>::empty(),
{
    crate::payload::piece_comes_last(items, item);
    assert(pieces(items.push(item)) =~= pieces(items).push(item@));
}

/// Trimming takes blanks from both ends and nothing else.
pub proof fn trimming(s: Seq<u8>)
    ensures
        ({
            let t = trim(s);
            &&& t.len() > 0 ==> t[0] != 32 && t[0] != 9 && t.last() != 32 && t.last() != 9
            &&& exists|i: int, j: int|
                0 <= i <= j <= s.len() && t == #[trigger] s.subrange(i, j) && (forall|k: int|
                    0 <= k < i || j <= k < s.len() ==> #[trigger] s[k] == 32 || s[k] == 9)
        }),
{
    let a = trim_start(s);
    let i = leading(s);
    let t = trim_end(a);
    let n = trailing(a);
    assert(t =~= s.subrange(i, i + n));
    assert forall|k: int| 0 <= k < i || i + n <= k < s.len() implies #[trigger] s[k] == 32 || s[k]
        == 9 by {
        if k >= i {
            assert(s[k] == a[k - i]);
        }
    }
    if t.len() > 0 {
        assert(t[0] == a[0]);
    }
}

proof fn leading(s: Seq<u8>) -> (i: int)
    ensures
        0 <= i <= s.len(),
        trim_start(s) == s.subrange(i, s.len() as int),
        forall|k: int| 0 <= k < i ==> is_blank(#[trigger] s[k]),
        i < s.len() ==> !is_blank(s[i]),
    decreases s.len(),
{
    if s.len() > 0 && is_blank(s[0]) {
        let tail = s.subrange(1, s.len() as int);
        let i = leading(tail);
        assert(tail.subrange(i, tail.len() as int) =~= s.subrange(i + 1, s.len() as int));
        assert forall|k: int| 0 <= k < i + 1 implies is_blank(#[trigger] s[k]) by {
            if k > 0 {
                assert(s[k] == tail[k - 1]);
            }
        }
        if i < tail.len() {
            assert(s[i + 1] == tail[i]);
        }
        i + 1
    } else {
        assert(s.subrange(0, s.len() as int) =~= s);
        0
    }
}

proof fn trailing(s: Seq<u8>) -> (n: int)
    ensures
        0 <= n <= s.len(),
        trim_end(s) == s.subrange(0, n),
        forall|k: int| n <= k < s.len() ==> is_blank(#[trigger] s[k]),
        n > 0 ==> !is_blank(s[n - 1]),
    decreases s.len(),
{
    if s.len() > 0 && is_blank(s.last()) {
        let front = s.drop_last();
        let n = trailing(front);
        assert(front.subrange(0, n) =~= s.subrange(0, n));
        assert forall|k: int| n <= k < s.len() implies is_blank(#[trigger] s[k]) by {
            if k < front.len() {
                assert(s[k] == front[k]);
            }
        }
        n
    } else {
        assert(s.subrange(0, s.len() as int) =~= s);
        s.len() as int
    }
}

/// Case is ignored for the letters of ASCII and for nothing else.
pub proof fn case_is_ignored(a: u8, b: u8)
    ensures
        lower(a) == lower(b) <==> a == b || 65 <= a <= 90 && b == a + 32 || 65 <= b <= 90 && a == b
            + 32,
{
}

/// Texts that are the same up to case are of one length, and so letter by letter.
pub proof fn same_up_to_case(a: Seq<u8>, b: Seq<u8>)
    ensures
        eq_ignore_case(a, b) <==> a.len() == b.len() && forall|i: int|
            0 <= i < a.len() ==> lower(#[trigger] a[i]) == lower(b[i]),
{
    if eq_ignore_case(a, b) {
        assert(lower_seq(a).len() == a.len() && lower_seq(b).len() == b.len());
        assert forall|i: int| 0 <= i < a.len() implies lower(#[trigger] a[i]) == lower(b[i]) by {
            assert(lower_seq(a)[i] == lower_seq(b)[i]);
        }
    }
}

/// The number that hexadecimal digits stand for.
pub open spec fn hex_value(s: Seq<u8>) -> nat
    decreases s.len(),
{
    if s.len() == 0 {
        0
    } else {
        let d = s.last();
        hex_value(s.drop_last()) * 16 + (if d <= 57 {
            d - 48
        } else {
            d - 55
        }) as nat
    }
}

/// Printing a number in hexadecimal digits and reading it back gives the number.
pub proof fn hex_reads_back(n: nat)
    ensures
        hex(n).len() > 0,
        hex_value(hex(n)) == n,
        forall|i: int|
            0 <= i < hex(n).len() ==> 48 <= #[trigger] hex(n)[i] <= 57 || 65 <= hex(n)[i] <= 70,
    decreases n,
{
    if n < 16 {
        assert(hex(n).drop_last() =~= Seq::<u8>::empty());
        assert(hex_value(Seq::<u8>::empty()) == 0);
    } else {
        hex_reads_back(n / 16);
        let front = hex(n / 16);
        assert(hex(n).drop_last() =~= front);
        assert forall|i: int| 0 <= i < hex(n).len() implies 48 <= #[trigger] hex(n)[i] <= 57 || 65
            <= hex(n)[i] <= 70 by {
            if i < front.len() {
                assert(hex(n)[i] == front[i]);
            }
        }
    }
}

/// Letters, digits and a few signs stand for themselves in percent encoding; any
/// other byte is a percent sign and its two hexadecimal digits. Texts are encoded
/// byte by byte.
pub proof fn percent_encoding(s: Seq<u8>, b: u8)
    ensures
        percent_encoded(s.push(b)) == percent_encoded(s) + encoded_byte(b),
        percent_encoded(Seq::<u8>::empty()) == Seq::<u8>::empty(),
        48 <= b <= 57 || 65 <= b <= 90 || 97 <= b <= 122 || b == 45 || b == 46 || b == 95 || b
            == 126 ==> encoded_byte(b) == seq![b],
        b <= 32 || b >= 127 || b == 59 || b == 61 || b == 47 || b == 63 || b == 35 || b == 64 || b
            == 34 ==> encoded_byte(b).len() == 3 && encoded_byte(b)[0] == 37 && hex_value(
            encoded_byte(b).skip(1),
        ) == b,
{
    assert(s.push(b).drop_last() =~= s);
    let e = encoded_byte(b);
    if is_reserved(b) {
        let d = e.skip(1);
        assert(d =~= seq![e[1], e[2]]);
        assert(d.drop_last() =~= seq![e[1]]);
        assert(d.drop_last().drop_last() =~= Seq::<u8>::empty());
        assert(hex_value(d.drop_last().drop_last()) == 0);
        assert(hex_value(d.drop_last()) == b / 16);
        assert(hex_value(d) == (b / 16) * 16 + b % 16);
    }
}

/// The bytes of a header value: tab, blank, and all but controls.
pub proof fn header_values(b: u8)
    ensures
        b == 9 || 32 <= b <= 126 || b >= 128 ==> is_value_byte(b),
        b == 10 || b == 13 || b == 0 || b == 127 ==> !is_value_byte(b),
        is_value_byte(b) ==> b == 9 || b >= 32 && b != 127,
{
}

/// A body that is not encoded is handed out as it is; a failure of a body is told as
/// it is, encoded or not.
pub proof fn bodies_without_an_encoder<B>(
    before: Encoder<B>,
    after: Encoder<B>,
    item: Result<Option<Seq<u8>>, Seq<char>>,
    r: EncodeStep,
)
    requires
        item_taken(before, after, item, r),
    ensures
        item matches Err(e) ==> (r matches EncodeStep::Failed(t) && t@ == e) && after.encoder
            == before.encoder,
        before.encoder is None ==> (item matches Ok(Some(chunk)) ==> (r matches EncodeStep::Output(
            b,
        ) && b@ == chunk)),
        before.encoder is None ==> (item matches Ok(None) ==> r is Done),
        item is Ok ==> !(r is Failed),
{
}

/// Compression makes the size of a body unknown; without it the body tells its own.
pub proof fn encoded_sizes<B: MessageBody>(e: Encoder<B>)
    ensures
        e.encoder is Some ==> e.size_hint() == BodySize::Stream,
        e.encoder is None ==> (e.body matches EncoderBody::Bytes(b) ==> e.size_hint()
            == BodySize::Sized(b@.len() as u64)),
        e.encoder is None ==> (e.body matches EncoderBody::Stream(b) ==> e.size_hint()
            == b.size_spec()),
        e.encoder is None ==> (e.body matches EncoderBody::BoxedStream(s) ==> e.size_hint() == s),
{
}

/// There are encoders for `gzip`, `deflate` and `br`, and for nothing else.
pub proof fn supported_encodings(e: ContentEncoding)
    ensures
        ContentEncoder::supports(e) <==> e == ContentEncoding::Gzip || e == ContentEncoding::Deflate
            || e == ContentEncoding::Br,
{
}

/// A sender reaches its stream until it ended it or nobody reads it.
pub proof fn senders_reach_their_stream(
    s: crate::h1::payload::PayloadSender,
    p: crate::h1::payload::Payload,
)
    ensures
        s.reaches(p) <==> s.linked && !p.dropped,
        p.bytes() == buffered(p.items@),
        p.chunks() == pieces(p.items@),
{
}

/// Bytes that were written are not written again, and no others are left out.
pub proof fn written_bytes_are_done(
    before: crate::io::tokio_impl::FlushTask,
    after: crate::io::tokio_impl::FlushTask,
    n: usize,
)
    requires
        before.wf(),
        after.buf == before.buf,
        after.written == before.written + n,
        after.written <= after.buf@.len(),
    ensures
        before.left() == before.left().take(n as int) + after.left(),
        before.buf@ == before.buf@.take(before.written as int) + before.left(),
{
    assert(before.left() =~= before.left().take(n as int) + after.left());
    assert(before.buf@ =~= before.buf@.take(before.written as int) + before.left());
}

/// A body in either place of a response tells its own size and gives its own bytes.
pub proof fn bodies_of_responses_are_their_own<B: MessageBody>(r: ResponseBody<B>)
    ensures
        r matches ResponseBody::Body(b) ==> r.size_spec() == b.size_spec() && r.bytes_left()
            == b.bytes_left(),
        r matches ResponseBody::Other(b) ==> r.size_spec() == b.size_spec() && r.bytes_left()
            == b.bytes_left(),
{
}

/// The address of a path on a server of this machine has one slash before the path.
pub proof fn local_addresses(scheme: Seq<char>, port: u16, uri: Seq<char>)
    ensures
        ({
            let url = crate::testing::local_url(scheme, port, uri);
            let host = scheme + "://localhost:"@ + crate::types::chars(
                crate::text::decimal(port as nat),
            );
            &&& uri.len() > 0 && uri[0] == '/' ==> url == host + uri
            &&& uri.len() == 0 || uri[0] != '/' ==> url == host + (seq!['/'] + uri)
        }),
{
    reveal_strlit("/");
    assert("/"@ =~= seq!['/']);
}

} // verus!
