//! Content encoders.

use brotli2::read::BrotliDecoder;
use brotli2::write::BrotliEncoder;
use flate2::write::{GzDecoder, GzEncoder, ZlibDecoder, ZlibEncoder};
use vstd::prelude::*;

use crate::encoding::ContentEncoding;
use crate::h1::encoder::joined;
use crate::text::copy_bytes;

verus! {

/// Nothing written.
pub open spec fn no_pieces() -> Seq<Seq<u8>> {
    Seq::empty()
}

/// Bytes with their contents.
pub open spec fn contents(r: Option<Vec<u8>>) -> Option<Seq<u8>> {
    match r {
        Some(b) => Some(b@),
        None => None,
    }
}

/// `flate2::write::ZlibEncoder` that writes to a buffer.
#[verifier::external_body]
pub struct Zlib {
    inner: ZlibEncoder<Vec<u8>>,
}

/// Level that an encoder was made with.
pub uninterp spec fn zlib_level(enc: Zlib) -> int;

/// What an encoder was given to write.
pub uninterp spec fn zlib_writes(enc: Zlib) -> Seq<Seq<u8>>;

/// What was taken out of an encoder.
pub uninterp spec fn zlib_taken(enc: Zlib) -> Seq<u8>;

/// What the buffer behind an encoder holds.
pub uninterp spec fn zlib_ready(enc: Zlib) -> Seq<u8>;

/// The zlib stream of what was written, in the pieces in which it came, at a
/// level.
pub uninterp spec fn zlib_stream(level: int, writes: Seq<Seq<u8>>) -> Seq<u8>;

/// What the bytes of a zlib stream were made of, `None` where they are no such
/// stream.
pub uninterp spec fn zlib_plain(stream: Seq<u8>) -> Option<Seq<u8>>;

/// `flate2::write::ZlibEncoder::new` on an empty buffer: nothing was written and
/// nothing was taken.
#[verifier::external_body]
fn zlib_new(level: u32) -> (r: Zlib)
    requires
        level <= 9,
    ensures
        zlib_level(r) == level,
        zlib_writes(r) == no_pieces(),
        zlib_taken(r) == Seq::<u8>::empty(),
        zlib_ready(r) == Seq::<u8>::empty(),
{
    Zlib { inner: ZlibEncoder::new(Vec::new(), flate2::Compression::new(level)) }
}

/// `write_all` of `flate2::write::ZlibEncoder`: what was written grows by the bytes.
/// It succeeds: the buffer takes all that comes, and a stream that has not ended
/// has room for more. The buffer behind the encoder keeps what it holds and may
/// grow; nothing is taken out.
#[verifier::external_body]
fn zlib_write(enc: &mut Zlib, data: &[u8]) -> (r: Result<(), String>)
    ensures
        zlib_level(*final(enc)) == zlib_level(*old(enc)),
        zlib_taken(*final(enc)) == zlib_taken(*old(enc)),
        zlib_writes(*final(enc)) == zlib_writes(*old(enc)).push(data@),
        zlib_ready(*old(enc)).is_prefix_of(zlib_ready(*final(enc))),
        r is Ok,
{
    std::io::Write::write_all(&mut enc.inner, data).map_err(|e| e.to_string())
}

/// `flate2::write::ZlibEncoder::get_mut`: takes out all that the buffer behind the
/// encoder holds.
#[verifier::external_body]
fn zlib_take(enc: &mut Zlib) -> (r: Vec<u8>)
    ensures
        r@ == zlib_ready(*old(enc)),
        zlib_ready(*final(enc)) == Seq::<u8>::empty(),
        zlib_level(*final(enc)) == zlib_level(*old(enc)),
        zlib_writes(*final(enc)) == zlib_writes(*old(enc)),
        zlib_taken(*final(enc)) == zlib_taken(*old(enc)) + r@,
{
    std::mem::take(enc.inner.get_mut())
}

/// `flate2::write::ZlibEncoder::finish`: it succeeds, as a write does. The bytes that
/// are left start with what the buffer held, and together with what was taken out
/// before they are the stream of what was written. `flate2::write::ZlibDecoder` gives
/// it back.
#[verifier::external_body]
fn zlib_finish(enc: Zlib) -> (r: Result<Vec<u8>, String>)
    ensures
        r is Ok,
        r matches Ok(rest) ==> zlib_ready(enc).is_prefix_of(rest@) && zlib_taken(enc) + rest@
            == zlib_stream(zlib_level(enc), zlib_writes(enc)) && zlib_plain(zlib_taken(enc) + rest@) == Some(
            joined(zlib_writes(enc)),
        ),
{
    enc.inner.finish().map_err(|e| e.to_string())
}

/// `write_all` of all the bytes and `finish` of `flate2::write::ZlibDecoder` that writes
/// to a buffer: what it makes of the bytes depends on them alone.
#[verifier::external_body]
fn zlib_decode(data: &[u8]) -> (r: Option<Vec<u8>>)
    ensures
        contents(r) == zlib_plain(data@),
{
    let mut dec = ZlibDecoder::new(Vec::new());
    std::io::Write::write_all(&mut dec, data).and_then(|()| dec.finish()).ok()
}

/// `flate2::write::GzEncoder` that writes to a buffer.
#[verifier::external_body]
pub struct Gzip {
    inner: GzEncoder<Vec<u8>>,
}

/// Level that an encoder was made with.
pub uninterp spec fn gzip_level(enc: Gzip) -> int;

/// What an encoder was given to write.
pub uninterp spec fn gzip_writes(enc: Gzip) -> Seq<Seq<u8>>;

/// What was taken out of an encoder.
pub uninterp spec fn gzip_taken(enc: Gzip) -> Seq<u8>;

/// What the buffer behind an encoder holds.
pub uninterp spec fn gzip_ready(enc: Gzip) -> Seq<u8>;

/// The gzip stream of what was written, in the pieces in which it came, at a
/// level.
pub uninterp spec fn gzip_stream(level: int, writes: Seq<Seq<u8>>) -> Seq<u8>;

/// What the bytes of a gzip stream were made of, `None` where they are no such
/// stream.
pub uninterp spec fn gzip_plain(stream: Seq<u8>) -> Option<Seq<u8>>;

/// `flate2::write::GzEncoder::new` on an empty buffer: nothing was written and
/// nothing was taken.
#[verifier::external_body]
fn gzip_new(level: u32) -> (r: Gzip)
    requires
        level <= 9,
    ensures
        gzip_level(r) == level,
        gzip_writes(r) == no_pieces(),
        gzip_taken(r) == Seq::<u8>::empty(),
        gzip_ready(r) == Seq::<u8>::empty(),
{
    Gzip { inner: GzEncoder::new(Vec::new(), flate2::Compression::new(level)) }
}

/// `write_all` of `flate2::write::GzEncoder`: what was written grows by the bytes.
/// It succeeds: the buffer takes all that comes, and a stream that has not ended
/// has room for more. The buffer behind the encoder keeps what it holds and may
/// grow; nothing is taken out.
#[verifier::external_body]
fn gzip_write(enc: &mut Gzip, data: &[u8]) -> (r: Result<(), String>)
    ensures
        gzip_level(*final(enc)) == gzip_level(*old(enc)),
        gzip_taken(*final(enc)) == gzip_taken(*old(enc)),
        gzip_writes(*final(enc)) == gzip_writes(*old(enc)).push(data@),
        gzip_ready(*old(enc)).is_prefix_of(gzip_ready(*final(enc))),
        r is Ok,
{
    std::io::Write::write_all(&mut enc.inner, data).map_err(|e| e.to_string())
}

/// `flate2::write::GzEncoder::get_mut`: takes out all that the buffer behind the
/// encoder holds.
#[verifier::external_body]
fn gzip_take(enc: &mut Gzip) -> (r: Vec<u8>)
    ensures
        r@ == gzip_ready(*old(enc)),
        gzip_ready(*final(enc)) == Seq::<u8>::empty(),
        gzip_level(*final(enc)) == gzip_level(*old(enc)),
        gzip_writes(*final(enc)) == gzip_writes(*old(enc)),
        gzip_taken(*final(enc)) == gzip_taken(*old(enc)) + r@,
{
    std::mem::take(enc.inner.get_mut())
}

/// `flate2::write::GzEncoder::finish`: it succeeds, as a write does. The bytes that
/// are left start with what the buffer held, and together with what was taken out
/// before they are the stream of what was written. `flate2::write::GzDecoder` gives
/// it back.
#[verifier::external_body]
fn gzip_finish(enc: Gzip) -> (r: Result<Vec<u8>, String>)
    ensures
        r is Ok,
        r matches Ok(rest) ==> gzip_ready(enc).is_prefix_of(rest@) && gzip_taken(enc) + rest@
            == gzip_stream(gzip_level(enc), gzip_writes(enc)) && gzip_plain(gzip_taken(enc) + rest@) == Some(
            joined(gzip_writes(enc)),
        ),
{
    enc.inner.finish().map_err(|e| e.to_string())
}

/// `write_all` of all the bytes and `finish` of `flate2::write::GzDecoder` that writes
/// to a buffer: what it makes of the bytes depends on them alone.
#[verifier::external_body]
fn gzip_decode(data: &[u8]) -> (r: Option<Vec<u8>>)
    ensures
        contents(r) == gzip_plain(data@),
{
    let mut dec = GzDecoder::new(Vec::new());
    std::io::Write::write_all(&mut dec, data).and_then(|()| dec.finish()).ok()
}

/// `brotli2::write::BrotliEncoder` that writes to a buffer.
#[verifier::external_body]
pub struct Brotli {
    inner: BrotliEncoder<Vec<u8>>,
}

/// Level that an encoder was made with.
pub uninterp spec fn brotli_level(enc: Brotli) -> int;

/// What was written to an encoder.
pub uninterp spec fn brotli_writes(enc: Brotli) -> Seq<Seq<u8>>;

/// What was taken out of an encoder.
pub uninterp spec fn brotli_taken(enc: Brotli) -> Seq<u8>;

/// What the buffer behind an encoder holds.
pub uninterp spec fn brotli_ready(enc: Brotli) -> Seq<u8>;

/// The brotli stream of what was written, in the pieces in which it came, at a
/// level.
pub uninterp spec fn brotli_stream(level: int, writes: Seq<Seq<u8>>) -> Seq<u8>;

/// What the bytes of a brotli stream were made of, `None` where they are no such
/// stream.
pub uninterp spec fn brotli_plain(stream: Seq<u8>) -> Option<Seq<u8>>;

/// `brotli2::write::BrotliEncoder::new` on an empty buffer: nothing was written and
/// nothing was taken.
#[verifier::external_body]
fn brotli_new(level: u32) -> (r: Brotli)
    requires
        level <= 11,
    ensures
        brotli_level(r) == level,
        brotli_writes(r) == no_pieces(),
        brotli_taken(r) == Seq::<u8>::empty(),
        brotli_ready(r) == Seq::<u8>::empty(),
{
    Brotli { inner: BrotliEncoder::new(Vec::new(), level) }
}

/// `write_all` of `brotli2::write::BrotliEncoder`: what was written grows by the
/// bytes. It succeeds: an encoder that has not ended fails only where memory
/// cannot be had. The buffer behind the encoder keeps what it holds and may grow;
/// nothing is taken out.
#[verifier::external_body]
fn brotli_write(enc: &mut Brotli, data: &[u8]) -> (r: Result<(), String>)
    ensures
        brotli_level(*final(enc)) == brotli_level(*old(enc)),
        brotli_taken(*final(enc)) == brotli_taken(*old(enc)),
        brotli_writes(*final(enc)) == brotli_writes(*old(enc)).push(data@),
        brotli_ready(*old(enc)).is_prefix_of(brotli_ready(*final(enc))),
        r is Ok,
{
    std::io::Write::write_all(&mut enc.inner, data).map_err(|e| e.to_string())
}

/// `brotli2::write::BrotliEncoder::get_mut`: takes out all that the buffer behind
/// the encoder holds.
#[verifier::external_body]
fn brotli_take(enc: &mut Brotli) -> (r: Vec<u8>)
    ensures
        r@ == brotli_ready(*old(enc)),
        brotli_ready(*final(enc)) == Seq::<u8>::empty(),
        brotli_level(*final(enc)) == brotli_level(*old(enc)),
        brotli_writes(*final(enc)) == brotli_writes(*old(enc)),
        brotli_taken(*final(enc)) == brotli_taken(*old(enc)) + r@,
{
    std::mem::take(enc.inner.get_mut())
}

/// `brotli2::write::BrotliEncoder::finish`: it succeeds, as a write does. The bytes
/// that are left start with what the buffer held, and together with what was taken
/// out before they are the stream of what was written. `brotli2::read::BrotliDecoder`
/// gives it back.
#[verifier::external_body]
fn brotli_finish(enc: Brotli) -> (r: Result<Vec<u8>, String>)
    ensures
        r is Ok,
        r matches Ok(rest) ==> brotli_ready(enc).is_prefix_of(rest@) && brotli_taken(enc) + rest@
            == brotli_stream(brotli_level(enc), brotli_writes(enc)) && brotli_plain(
            brotli_taken(enc) + rest@,
        ) == Some(joined(brotli_writes(enc))),
{
    enc.inner.finish().map_err(|e| e.to_string())
}

/// `read_to_end` of `brotli2::read::BrotliDecoder` on the bytes: what it makes of
/// them depends on them alone.
#[verifier::external_body]
fn brotli_decode(data: &[u8]) -> (r: Option<Vec<u8>>)
    ensures
        contents(r) == brotli_plain(data@),
{
    let mut plain = Vec::new();
    std::io::Read::read_to_end(&mut BrotliDecoder::new(data), &mut plain).ok().map(|_| plain)
}

/// A content encoder.
pub enum ContentEncoder {
    Deflate(Zlib),
    Gzip(Gzip),
    Br(Brotli),
}

/// Level at which zlib and gzip streams are made: fast rather than small.
pub const FAST_LEVEL: u32 = 1;

/// Level at which brotli streams are made.
pub const BROTLI_LEVEL: u32 = 3;

/// The stream of what was written, in the pieces in which it came. The identity
/// encoding leaves the bytes as they are.
pub open spec fn stream_of(encoding: ContentEncoding, writes: Seq<Seq<u8>>) -> Seq<u8> {
    match encoding {
        ContentEncoding::Deflate => zlib_stream(FAST_LEVEL as int, writes),
        ContentEncoding::Gzip => gzip_stream(FAST_LEVEL as int, writes),
        ContentEncoding::Br => brotli_stream(BROTLI_LEVEL as int, writes),
        ContentEncoding::Identity | ContentEncoding::Auto => joined(writes),
    }
}

/// What the bytes of a stream were made of, `None` where they are no stream of the
/// encoding. The identity encoding leaves the bytes as they are.
pub open spec fn plain_of(encoding: ContentEncoding, stream: Seq<u8>) -> Option<Seq<u8>> {
    match encoding {
        ContentEncoding::Deflate => zlib_plain(stream),
        ContentEncoding::Gzip => gzip_plain(stream),
        ContentEncoding::Br => brotli_plain(stream),
        ContentEncoding::Identity | ContentEncoding::Auto => Some(stream),
    }
}

/// What the bytes of a stream were made of.
pub fn decompress(encoding: ContentEncoding, stream: &[u8]) -> (r: Option<Vec<u8>>)
    ensures
        contents(r) == plain_of(encoding, stream@),
{
    match encoding {
        ContentEncoding::Deflate => zlib_decode(stream),
        ContentEncoding::Gzip => gzip_decode(stream),
        ContentEncoding::Br => brotli_decode(stream),
        ContentEncoding::Identity | ContentEncoding::Auto => Some(copy_bytes(stream)),
    }
}

impl ContentEncoder {
    /// The encoder works at the level that its encoding asks for.
    pub open spec fn wf(self) -> bool {
        match self {
            ContentEncoder::Deflate(e) => zlib_level(e) == FAST_LEVEL,
            ContentEncoder::Gzip(e) => gzip_level(e) == FAST_LEVEL,
            ContentEncoder::Br(e) => brotli_level(e) == BROTLI_LEVEL,
        }
    }

    /// The encoding.
    pub open spec fn encoding(self) -> ContentEncoding {
        match self {
            ContentEncoder::Deflate(_) => ContentEncoding::Deflate,
            ContentEncoder::Gzip(_) => ContentEncoding::Gzip,
            ContentEncoder::Br(_) => ContentEncoding::Br,
        }
    }

    /// What was written.
    pub open spec fn writes(self) -> Seq<Seq<u8>> {
        match self {
            ContentEncoder::Deflate(e) => zlib_writes(e),
            ContentEncoder::Gzip(e) => gzip_writes(e),
            ContentEncoder::Br(e) => brotli_writes(e),
        }
    }

    /// What was taken out.
    pub open spec fn taken(self) -> Seq<u8> {
        match self {
            ContentEncoder::Deflate(e) => zlib_taken(e),
            ContentEncoder::Gzip(e) => gzip_taken(e),
            ContentEncoder::Br(e) => brotli_taken(e),
        }
    }

    /// What the buffer behind the encoder holds.
    pub open spec fn ready(self) -> Seq<u8> {
        match self {
            ContentEncoder::Deflate(e) => zlib_ready(e),
            ContentEncoder::Gzip(e) => gzip_ready(e),
            ContentEncoder::Br(e) => brotli_ready(e),
        }
    }

    /// Whether there is an encoder for an encoding.
    pub open spec fn supports(encoding: ContentEncoding) -> bool {
        encoding is Deflate || encoding is Gzip || encoding is Br
    }

    /// Whether there is an encoder for an encoding.
    pub fn can_encode(encoding: ContentEncoding) -> (r: bool)
        ensures
            r == ContentEncoder::supports(encoding),
    {
        matches!(encoding, ContentEncoding::Deflate | ContentEncoding::Gzip | ContentEncoding::Br)
    }

    /// A fresh encoder for an encoding.
    pub fn encoder(encoding: ContentEncoding) -> (r: Option<ContentEncoder>)
        ensures
            r is Some <==> ContentEncoder::supports(encoding),
            r matches Some(e) ==> e.wf() && e.encoding() == encoding && e.writes() == no_pieces()
                && e.taken() == Seq::<u8>::empty() && e.ready() == Seq::<u8>::empty(),
    {
        match encoding {
            ContentEncoding::Deflate => Some(ContentEncoder::Deflate(zlib_new(FAST_LEVEL))),
            ContentEncoding::Gzip => Some(ContentEncoder::Gzip(gzip_new(FAST_LEVEL))),
            ContentEncoding::Br => Some(ContentEncoder::Br(brotli_new(BROTLI_LEVEL))),
            _ => None,
        }
    }

    /// Takes out all that is finished.
    pub fn take(&mut self) -> (r: Vec<u8>)
        requires
            old(self).wf(),
        ensures
            r@ == old(self).ready(),
            final(self).ready() == Seq::<u8>::empty(),
            final(self).wf(),
            final(self).encoding() == old(self).encoding(),
            final(self).writes() == old(self).writes(),
            final(self).taken() == old(self).taken() + r@,
    {
        match self {
            ContentEncoder::Deflate(e) => zlib_take(e),
            ContentEncoder::Gzip(e) => gzip_take(e),
            ContentEncoder::Br(e) => brotli_take(e),
        }
    }

    /// Ends the stream. What was taken out before and what is left are together
    /// the stream of what was written, which gives it back.
    pub fn finish(self) -> (r: Result<Vec<u8>, String>)
        requires
            self.wf(),
        ensures
            r matches Ok(rest) && self.ready().is_prefix_of(rest@) && self.taken() + rest@
                == stream_of(self.encoding(), self.writes()) && plain_of(
                self.encoding(),
                self.taken() + rest@,
            ) == Some(joined(self.writes())),
    {
        match self {
            ContentEncoder::Deflate(e) => zlib_finish(e),
            ContentEncoder::Gzip(e) => gzip_finish(e),
            ContentEncoder::Br(e) => brotli_finish(e),
        }
    }

    /// Writes bytes.
    pub fn write(&mut self, data: &[u8]) -> (r: Result<(), String>)
        requires
            old(self).wf(),
        ensures
            r is Ok,
            final(self).wf(),
            final(self).encoding() == old(self).encoding(),
            final(self).taken() == old(self).taken(),
            final(self).writes() == old(self).writes().push(data@),
            old(self).ready().is_prefix_of(final(self).ready()),
    {
        match self {
            ContentEncoder::Deflate(e) => zlib_write(e, data),
            ContentEncoder::Gzip(e) => gzip_write(e, data),
            ContentEncoder::Br(e) => brotli_write(e, data),
        }
    }
}

} // verus!
