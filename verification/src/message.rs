//! Request and response heads, and the pool that reuses them.

use ntex_http::HeaderMap;
use vstd::prelude::*;

use crate::headers::{fields, map_clear, map_new, no_fields, Fields};
use crate::types::{Method, StatusCode, Uri, Version};

verus! {

/// Represents various types of connection
#[derive(Copy, Clone, PartialEq, Eq, Structural, Debug)]
pub enum ConnectionType {
    /// Close connection after response
    Close,
    /// Keep connection alive after response
    KeepAlive,
    /// Connection is upgraded to different type
    Upgrade,
}

/// Marks on a message head.
#[derive(Copy, Clone, PartialEq, Eq, Structural, Debug)]
pub struct Flags {
    pub close: bool,
    pub keep_alive: bool,
    pub upgrade: bool,
    pub expect: bool,
    pub no_chunking: bool,
}

/// No mark.
pub open spec fn no_flags() -> Flags {
    Flags { close: false, keep_alive: false, upgrade: false, expect: false, no_chunking: false }
}

/// The marks with that of a connection type added.
pub open spec fn flags_with(f: Flags, ctype: ConnectionType) -> Flags {
    match ctype {
        ConnectionType::Close => Flags { close: true, ..f },
        ConnectionType::KeepAlive => Flags { keep_alive: true, ..f },
        ConnectionType::Upgrade => Flags { upgrade: true, ..f },
    }
}

/// The connection type that the marks name: closing wins over keeping alive,
/// keeping alive over upgrading.
pub open spec fn marked_type(f: Flags) -> Option<ConnectionType> {
    if f.close {
        Some(ConnectionType::Close)
    } else if f.keep_alive {
        Some(ConnectionType::KeepAlive)
    } else if f.upgrade {
        Some(ConnectionType::Upgrade)
    } else {
        None
    }
}

/// The connection type of a message: the one that is marked, else the one that
/// its version implies.
pub open spec fn type_of(f: Flags, v: Version) -> ConnectionType {
    match marked_type(f) {
        Some(t) => t,
        None => if v.rank() < Version::HTTP_11.rank() {
            ConnectionType::Close
        } else {
            ConnectionType::KeepAlive
        },
    }
}

impl Flags {
    /// No mark.
    pub fn empty() -> (r: Flags)
        ensures
            r == no_flags(),
    {
        Flags { close: false, keep_alive: false, upgrade: false, expect: false, no_chunking: false }
    }

    fn mark(&mut self, ctype: ConnectionType)
        ensures
            *final(self) == flags_with(*old(self), ctype),
    {
        match ctype {
            ConnectionType::Close => {
                self.close = true;
            },
            ConnectionType::KeepAlive => {
                self.keep_alive = true;
            },
            ConnectionType::Upgrade => {
                self.upgrade = true;
            },
        }
    }

    fn marked(&self) -> (r: Option<ConnectionType>)
        ensures
            r == marked_type(*self),
    {
        if self.close {
            Some(ConnectionType::Close)
        } else if self.keep_alive {
            Some(ConnectionType::KeepAlive)
        } else if self.upgrade {
            Some(ConnectionType::Upgrade)
        } else {
            None
        }
    }

    fn connection_type(&self, version: Version) -> (r: ConnectionType)
        ensures
            r == type_of(*self, version),
    {
        match self.marked() {
            Some(t) => t,
            None => if version.before_http_11() {
                ConnectionType::Close
            } else {
                ConnectionType::KeepAlive
            },
        }
    }
}

/// A mark, once set, stays, and the first of closing, keeping alive and
/// upgrading that was ever set decides.
pub proof fn closing_wins(f: Flags, t: ConnectionType, v: Version)
    ensures
        type_of(flags_with(f, ConnectionType::Close), v) == ConnectionType::Close,
        f.close ==> type_of(flags_with(f, t), v) == ConnectionType::Close,
        f.keep_alive && !f.close && t != ConnectionType::Close ==> type_of(flags_with(f, t), v)
            == ConnectionType::KeepAlive,
{
}

/// A parsed header that preserves its original name and value.
#[derive(Clone, PartialEq, Eq, Debug)]
pub struct HeaderItem {
    /// Parsed header name.
    pub name: String,
    /// Header name as it appeared in the original message.
    pub origin: Vec<u8>,
    /// Parsed header value.
    pub value: Vec<u8>,
}

/// Contents of a header item.
#[verifier::ext_equal]
pub struct HeaderItemView {
    pub name: Seq<char>,
    pub origin: Seq<u8>,
    pub value: Seq<u8>,
}

impl View for HeaderItem {
    type V = HeaderItemView;

    open spec fn view(&self) -> HeaderItemView {
        HeaderItemView { name: self.name@, origin: self.origin@, value: self.value@ }
    }
}

/// Contents of a list of header items.
pub open spec fn item_views(v: Seq<HeaderItem>) -> Seq<HeaderItemView> {
    Seq::new(v.len(), |i: int| v[i]@)
}

/// A head that the pool can reuse.
pub trait Head: Sized {
    /// Nothing that a message carries is left from an earlier one.
    spec fn is_clear(self) -> bool;

    /// What clearing leaves as it was.
    spec fn keeps(self, other: Self) -> bool;

    /// A fresh head.
    spec fn is_fresh(self) -> bool;

    /// A fresh head.
    fn fresh() -> (r: Self)
        ensures
            r.is_fresh(),
            r.is_clear(),
    ;

    /// Drops what the message carried.
    fn clear(&mut self)
        ensures
            final(self).is_clear(),
            final(self).keeps(*old(self)),
    ;
}

/// Head of a request.
#[derive(Debug)]
pub struct RequestHead {
    /// Request target
    pub uri: Uri,
    /// Connection id
    pub id: usize,
    /// Request method
    pub method: Method,
    /// Protocol version
    pub version: Version,
    /// Header fields
    pub headers: HeaderMap,
    /// Headers in their original order and casing, where that was asked for
    pub headers_vec: Vec<HeaderItem>,
    /// Marks
    pub flags: Flags,
}

impl RequestHead {
    /// The header fields.
    pub open spec fn fields(self) -> Fields {
        fields(self.headers)
    }

    /// Headers in their original order and casing.
    pub open spec fn items(self) -> Seq<HeaderItemView> {
        item_views(self.headers_vec@)
    }

    /// The heads differ in the id of their connection at most.
    pub open spec fn same_but_id(self, other: RequestHead) -> bool {
        &&& self.uri == other.uri
        &&& self.method == other.method
        &&& self.version == other.version
        &&& self.headers == other.headers
        &&& self.headers_vec == other.headers_vec
        &&& self.flags == other.flags
    }

    /// The heads differ in their marks at most.
    pub open spec fn same_but_flags(self, other: RequestHead) -> bool {
        &&& self.id == other.id
        &&& self.uri == other.uri
        &&& self.method == other.method
        &&& self.version == other.version
        &&& self.headers == other.headers
        &&& self.headers_vec == other.headers_vec
    }
}

impl Default for RequestHead {
    fn default() -> (r: RequestHead)
        ensures
            r.is_fresh(),
            r.is_clear(),
    {
        RequestHead {
            id: 0,
            uri: Uri::default(),
            method: Method::GET,
            version: Version::HTTP_11,
            headers: map_new(),
            headers_vec: Vec::new(),
            flags: Flags::empty(),
        }
    }
}

impl Head for RequestHead {
    open spec fn is_clear(self) -> bool {
        &&& self.version == Version::HTTP_11
        &&& self.fields() == no_fields()
        &&& self.headers_vec@.len() == 0
        &&& self.flags == no_flags()
    }

    open spec fn keeps(self, other: RequestHead) -> bool {
        &&& self.id == other.id
        &&& self.uri == other.uri
        &&& self.method == other.method
    }

    open spec fn is_fresh(self) -> bool {
        &&& self.id == 0
        &&& self.uri@ == crate::types::root_uri()
        &&& self.method == Method::GET
    }

    fn fresh() -> (r: RequestHead) {
        RequestHead::default()
    }

    fn clear(&mut self) {
        self.flags = Flags::empty();
        self.version = Version::HTTP_11;
        map_clear(&mut self.headers);
        self.headers_vec.clear();
    }
}

impl RequestHead {
    /// Read the message headers.
    pub fn headers(&self) -> (r: &HeaderMap)
        ensures
            *r == self.headers,
    {
        &self.headers
    }

    /// Mutable reference to the message headers.
    pub fn headers_mut(&mut self) -> (r: &mut HeaderMap)
        ensures
            *r == old(self).headers,
            *final(self) == (RequestHead { headers: *final(r), ..*old(self) }),
    {
        &mut self.headers
    }

    /// Headers in their original order and casing.
    pub fn headers_vec(&self) -> (r: &[HeaderItem])
        ensures
            r@ == self.headers_vec@,
    {
        self.headers_vec.as_slice()
    }

    /// Set connection type of the message
    pub fn set_connection_type(&mut self, ctype: ConnectionType)
        ensures
            final(self).same_but_flags(*old(self)),
            final(self).flags == flags_with(old(self).flags, ctype),
    {
        self.flags.mark(ctype);
    }

    /// Connection type
    pub fn connection_type(&self) -> (r: ConnectionType)
        ensures
            r == type_of(self.flags, self.version),
    {
        self.flags.connection_type(self.version)
    }

    /// Connection upgrade status
    pub fn upgrade(&self) -> (r: bool)
        ensures
            r == self.flags.upgrade,
    {
        self.flags.upgrade
    }

    /// Returns whether the request contains `Expect: 100-continue`.
    pub fn expect(&self) -> (r: bool)
        ensures
            r == self.flags.expect,
    {
        self.flags.expect
    }

    /// Get response body chunking state
    pub fn chunked(&self) -> (r: bool)
        ensures
            r == !self.flags.no_chunking,
    {
        !self.flags.no_chunking
    }

    /// Set no chunking for payload
    pub fn no_chunking(&mut self, val: bool)
        ensures
            final(self).same_but_flags(*old(self)),
            final(self).flags == (Flags { no_chunking: val, ..old(self).flags }),
    {
        self.flags.no_chunking = val;
    }

    /// Marks that the client expects `100 Continue`.
    pub fn set_expect(&mut self)
        ensures
            final(self).same_but_flags(*old(self)),
            final(self).flags == (Flags { expect: true, ..old(self).flags }),
    {
        self.flags.expect = true;
    }

    /// Marks that the request asks for an upgrade.
    pub fn set_upgrade(&mut self)
        ensures
            final(self).same_but_flags(*old(self)),
            final(self).flags == (Flags { upgrade: true, ..old(self).flags }),
    {
        self.flags.upgrade = true;
    }
}

/// Head of a response.
#[derive(Debug)]
pub struct ResponseHead {
    /// Protocol version
    pub version: Version,
    /// Status code
    pub status: StatusCode,
    /// Header fields
    pub headers: HeaderMap,
    /// Headers in their original order and casing, where that was asked for
    pub headers_vec: Vec<HeaderItem>,
    /// Custom reason
    pub reason: Option<&'static str>,
    /// Marks
    pub flags: Flags,
}

/// The standard reason of a status code.
pub uninterp spec fn standard_reason(code: u16) -> Option<Seq<char>>;

/// Text in an option.
pub open spec fn opt_str(s: Option<&str>) -> Option<Seq<char>> {
    match s {
        Some(s) => Some(s@),
        None => None,
    }
}

/// `ntex_http::StatusCode::canonical_reason`: depends on the code alone.
#[verifier::external_body]
fn canonical_reason(code: u16) -> (r: Option<&'static str>)
    ensures
        opt_str(r) == standard_reason(code),
{
    match ntex_http::StatusCode::from_u16(code) {
        Ok(status) => status.canonical_reason(),
        Err(_) => None,
    }
}

/// The text that explains a status: the custom reason, the standard one, or a
/// placeholder.
pub open spec fn reason_of(custom: Option<&str>, standard: Option<Seq<char>>) -> Seq<char> {
    match custom {
        Some(r) => r@,
        None => match standard {
            Some(r) => r,
            None => "<unknown status code>"@,
        },
    }
}

/// The text that explains a status.
pub fn reason_text(
    custom: Option<&'static str>,
    standard: Option<&'static str>,
) -> (r: &'static str)
    ensures
        r@ == reason_of(custom, opt_str(standard)),
{
    match custom {
        Some(r) => r,
        None => match standard {
            Some(r) => r,
            None => "<unknown status code>",
        },
    }
}

impl ResponseHead {
    /// The header fields.
    pub open spec fn fields(self) -> Fields {
        fields(self.headers)
    }

    /// Headers in their original order and casing.
    pub open spec fn items(self) -> Seq<HeaderItemView> {
        item_views(self.headers_vec@)
    }

    /// The heads differ in their marks at most.
    pub open spec fn same_but_flags(self, other: ResponseHead) -> bool {
        &&& self.version == other.version
        &&& self.status == other.status
        &&& self.headers == other.headers
        &&& self.headers_vec == other.headers_vec
        &&& self.reason == other.reason
    }

    /// Create new instance of `ResponseHead` type
    pub fn new(status: StatusCode, version: Version) -> (r: ResponseHead)
        ensures
            r.status == status,
            r.version == version,
            r.is_clear(),
    {
        ResponseHead {
            status,
            version,
            headers: map_new(),
            headers_vec: Vec::new(),
            reason: None,
            flags: Flags::empty(),
        }
    }

    /// Read the message headers.
    pub fn headers(&self) -> (r: &HeaderMap)
        ensures
            *r == self.headers,
    {
        &self.headers
    }

    /// Mutable reference to the message headers.
    pub fn headers_mut(&mut self) -> (r: &mut HeaderMap)
        ensures
            *r == old(self).headers,
            *final(self) == (ResponseHead { headers: *final(r), ..*old(self) }),
    {
        &mut self.headers
    }

    /// Headers in their original order and casing.
    pub fn headers_vec(&self) -> (r: &[HeaderItem])
        ensures
            r@ == self.headers_vec@,
    {
        self.headers_vec.as_slice()
    }

    /// Set connection type of the message
    pub fn set_connection_type(&mut self, ctype: ConnectionType)
        ensures
            final(self).same_but_flags(*old(self)),
            final(self).flags == flags_with(old(self).flags, ctype),
    {
        self.flags.mark(ctype);
    }

    /// Connection type
    pub fn connection_type(&self) -> (r: ConnectionType)
        ensures
            r == type_of(self.flags, self.version),
    {
        self.flags.connection_type(self.version)
    }

    /// Check if keep-alive is enabled
    pub fn keep_alive(&self) -> (r: bool)
        ensures
            r == (type_of(self.flags, self.version) == ConnectionType::KeepAlive),
    {
        self.connection_type() == ConnectionType::KeepAlive
    }

    /// Check upgrade status of this message
    pub fn upgrade(&self) -> (r: bool)
        ensures
            r == (type_of(self.flags, self.version) == ConnectionType::Upgrade),
    {
        self.connection_type() == ConnectionType::Upgrade
    }

    /// Get custom reason for the response
    pub fn reason(&self) -> (r: &'static str)
        ensures
            r@ == reason_of(self.reason, standard_reason(self.status.0)),
    {
        reason_text(self.reason, canonical_reason(self.status.0))
    }

    /// The connection type that was set on the response, if any.
    pub fn ctype(&self) -> (r: Option<ConnectionType>)
        ensures
            r == marked_type(self.flags),
    {
        self.flags.marked()
    }

    /// Get response body chunking state
    pub fn chunked(&self) -> (r: bool)
        ensures
            r == !self.flags.no_chunking,
    {
        !self.flags.no_chunking
    }

    /// Set no chunking for payload
    pub fn no_chunking(&mut self, val: bool)
        ensures
            final(self).same_but_flags(*old(self)),
            final(self).flags == (Flags { no_chunking: val, ..old(self).flags }),
    {
        self.flags.no_chunking = val;
    }
}

impl Default for ResponseHead {
    fn default() -> (r: ResponseHead)
        ensures
            r.is_fresh(),
            r.is_clear(),
    {
        ResponseHead::new(StatusCode(200), Version::HTTP_11)
    }
}

impl Head for ResponseHead {
    open spec fn is_clear(self) -> bool {
        &&& self.fields() == no_fields()
        &&& self.headers_vec@.len() == 0
        &&& self.reason is None
        &&& self.flags == no_flags()
    }

    open spec fn keeps(self, other: ResponseHead) -> bool {
        &&& self.version == other.version
        &&& self.status == other.status
    }

    open spec fn is_fresh(self) -> bool {
        &&& self.version == Version::HTTP_11
        &&& self.status == StatusCode(200)
    }

    fn fresh() -> (r: ResponseHead) {
        ResponseHead::default()
    }

    fn clear(&mut self) {
        self.reason = None;
        map_clear(&mut self.headers);
        self.headers_vec.clear();
        self.flags = Flags::empty();
    }
}

/// Heads that wait to be used again, 128 at most.
#[derive(Debug)]
pub struct MessagePool<T> {
    pool: Vec<T>,
}

impl<T: Head> MessagePool<T> {
    /// The heads that wait.
    pub closed spec fn waiting(self) -> Seq<T> {
        self.pool@
    }

    /// No more heads wait than the pool keeps, and each was cleared.
    pub open spec fn wf(self) -> bool {
        &&& self.waiting().len() <= 128
        &&& forall|i: int| 0 <= i < self.waiting().len() ==> (#[trigger] self.waiting()[i]).is_clear()
    }

    /// An empty pool.
    pub fn new() -> (r: MessagePool<T>)
        ensures
            r.wf(),
            r.waiting().len() == 0,
    {
        MessagePool { pool: Vec::with_capacity(256) }
    }

    /// Get message from the pool: the one that was given back last, or a fresh
    /// one.
    pub fn get_message(&mut self) -> (r: T)
        requires
            old(self).wf(),
        ensures
            final(self).wf(),
            r.is_clear(),
            old(self).waiting().len() == 0 ==> r.is_fresh() && final(self).waiting() == old(
                self,
            ).waiting(),
            old(self).waiting().len() > 0 ==> r.keeps(old(self).waiting().last())
                && final(self).waiting() == old(self).waiting().drop_last(),
    {
        match self.pool.pop() {
            Some(mut msg) => {
                msg.clear();
                assert forall|i: int| 0 <= i < self.waiting().len() implies (
                #[trigger] self.waiting()[i]).is_clear() by {
                    assert(self.waiting()[i] == old(self).waiting()[i]);
                }
                msg
            },
            None => T::fresh(),
        }
    }

    /// Gives a head back. It is cleared and kept, unless the pool is full.
    pub fn release(&mut self, msg: T)
        requires
            old(self).wf(),
        ensures
            final(self).wf(),
            old(self).waiting().len() >= 128 ==> final(self).waiting() == old(self).waiting(),
            old(self).waiting().len() < 128 ==> final(self).waiting().len() == old(
                self,
            ).waiting().len() + 1 && final(self).waiting().drop_last() == old(self).waiting()
                && final(self).waiting().last().keeps(msg),
    {
        if self.pool.len() < 128 {
            let mut msg = msg;
            msg.clear();
            self.pool.push(msg);
            assert(self.waiting().drop_last() =~= old(self).waiting());
            assert forall|i: int| 0 <= i < self.waiting().len() implies (
            #[trigger] self.waiting()[i]).is_clear() by {
                if i < old(self).waiting().len() {
                    assert(self.waiting()[i] == old(self).waiting()[i]);
                }
            }
        }
    }
}

/// A request head as a client sends it: one of its own, or a shared one with
/// headers that are added to it.
#[derive(Debug)]
pub enum RequestHeadType {
    /// A head of this request.
    Owned(RequestHead),
    /// A head of several requests, and the headers of this one.
    Rc(RequestHead, Option<HeaderMap>),
}

impl RequestHeadType {
    /// The head.
    pub open spec fn head(self) -> RequestHead {
        match self {
            RequestHeadType::Owned(head) => head,
            RequestHeadType::Rc(head, _) => head,
        }
    }

    /// The headers that are added to the head.
    pub open spec fn extra(self) -> Option<HeaderMap> {
        match self {
            RequestHeadType::Owned(_) => None,
            RequestHeadType::Rc(_, extra) => extra,
        }
    }

    /// Returns the head.
    pub fn as_ref(&self) -> (r: &RequestHead)
        ensures
            *r == self.head(),
    {
        match self {
            RequestHeadType::Owned(head) => head,
            RequestHeadType::Rc(head, _) => head,
        }
    }

    /// Returns the headers that are added to the head.
    pub fn extra_headers(&self) -> (r: Option<&HeaderMap>)
        ensures
            r == match self.extra() {
                Some(m) => Some(&m),
                None => None,
            },
    {
        match self {
            RequestHeadType::Owned(_) => None,
            RequestHeadType::Rc(_, extra) => match extra {
                Some(m) => Some(m),
                None => None,
            },
        }
    }

    /// Takes the head and the headers that are added to it.
    pub fn into_parts(self) -> (r: (RequestHead, Option<HeaderMap>))
        ensures
            r == (self.head(), self.extra()),
    {
        match self {
            RequestHeadType::Owned(head) => (head, None),
            RequestHeadType::Rc(head, extra) => (head, extra),
        }
    }
}

} // verus!
