//! Content-Encoding support

use vstd::prelude::*;
use vstd::utf8::encode_utf8;

use crate::text::{ascii, ascii_bytes, eq_ignore_ascii_case, eq_ignore_case};

pub mod coders;
pub mod encoder;

verus! {

/// Represents supported types of content encodings
#[derive(Copy, Clone, PartialEq, Eq, Debug, Structural)]
pub enum ContentEncoding {
    /// Automatically select encoding based on encoding negotiation
    Auto,
    /// A format using the Brotli algorithm
    Br,
    /// A format using the zlib structure with deflate algorithm
    Deflate,
    /// Gzip algorithm
    Gzip,
    /// Indicates the identity function (i.e. no compression, nor modification)
    Identity,
}

impl ContentEncoding {
    /// Name of the encoding.
    pub open spec fn name(self) -> Seq<char> {
        match self {
            ContentEncoding::Br => "br"@,
            ContentEncoding::Gzip => "gzip"@,
            ContentEncoding::Deflate => "deflate"@,
            ContentEncoding::Identity | ContentEncoding::Auto => "identity"@,
        }
    }

    /// Is the content compressed?
    pub fn is_compressed(self) -> (r: bool)
        ensures
            r == !(self is Identity || self is Auto),
    {
        !matches!(self, ContentEncoding::Identity | ContentEncoding::Auto)
    }

    /// Convert content encoding to string
    pub fn as_str(self) -> (r: &'static str)
        ensures
            r@ == self.name(),
    {
        match self {
            ContentEncoding::Br => "br",
            ContentEncoding::Gzip => "gzip",
            ContentEncoding::Deflate => "deflate",
            ContentEncoding::Identity | ContentEncoding::Auto => "identity",
        }
    }
}

/// White space in the sense of Unicode.
pub open spec fn is_white(c: char) -> bool {
    let n = c as int;
    9 <= n <= 13 || n == 32 || n == 0x85 || n == 0xa0 || n == 0x1680 || 0x2000 <= n <= 0x200a || n
        == 0x2028 || n == 0x2029 || n == 0x202f || n == 0x205f || n == 0x3000
}

/// The text without leading white space.
pub open spec fn without_leading(s: Seq<char>) -> Seq<char>
    decreases s.len(),
{
    if s.len() > 0 && is_white(s[0]) {
        without_leading(s.skip(1))
    } else {
        s
    }
}

/// The text without trailing white space.
pub open spec fn without_trailing(s: Seq<char>) -> Seq<char>
    decreases s.len(),
{
    if s.len() > 0 && is_white(s.last()) {
        without_trailing(s.drop_last())
    } else {
        s
    }
}

/// `str::trim`: the text without white space at its ends.
#[verifier::external_body]
fn trim_text(s: &str) -> (r: &str)
    ensures
        r@ == without_trailing(without_leading(s@)),
{
    s.trim()
}

/// The encoding that a text names, whatever its case. Any other text stands for
/// none.
pub open spec fn encoding_named(s: Seq<char>) -> ContentEncoding {
    let bytes = encode_utf8(without_trailing(without_leading(s)));
    if eq_ignore_case(bytes, ascii("br"@)) {
        ContentEncoding::Br
    } else if eq_ignore_case(bytes, ascii("gzip"@)) {
        ContentEncoding::Gzip
    } else if eq_ignore_case(bytes, ascii("deflate"@)) {
        ContentEncoding::Deflate
    } else {
        ContentEncoding::Identity
    }
}

impl<'a> From<&'a str> for ContentEncoding {
    fn from(s: &'a str) -> (r: ContentEncoding) {
        let s = trim_text(s).as_bytes();
        proof {
            reveal_strlit("br");
            reveal_strlit("gzip");
            reveal_strlit("deflate");
        }
        if eq_ignore_ascii_case(s, ascii_bytes("br")) {
            ContentEncoding::Br
        } else if eq_ignore_ascii_case(s, ascii_bytes("gzip")) {
            ContentEncoding::Gzip
        } else if eq_ignore_ascii_case(s, ascii_bytes("deflate")) {
            ContentEncoding::Deflate
        } else {
            ContentEncoding::Identity
        }
    }
}

impl<'a> vstd::std_specs::convert::FromSpecImpl<&'a str> for ContentEncoding {
    open spec fn obeys_from_spec() -> bool {
        true
    }

    open spec fn from_spec(s: &'a str) -> ContentEncoding {
        encoding_named(s@)
    }
}

} // verus!
