//! Requests of the client.

use vstd::prelude::*;
use vstd::utf8::encode_utf8;

use crate::headers::{fields, no_fields, Fields};
use crate::message::{no_flags, Head, RequestHead};
use crate::response::HttpError;
use crate::types::{parsed_uri, root_uri, Method, Uri, UriParts, Version};

verus! {

/// An HTTP Client request.
#[derive(Debug)]
pub struct ClientRequest {
    /// Head of the request.
    pub head: RequestHead,
    /// What is wrong with it.
    pub err: Option<HttpError>,
}

/// The target of a request, and what is wrong with it.
pub open spec fn target_of(url: Seq<char>) -> (UriParts, Option<HttpError>) {
    match parsed_uri(encode_utf8(url)) {
        Ok(uri) => (uri, None),
        Err(_) => (root_uri(), Some(HttpError::Uri)),
    }
}

/// A head without marks of the given target, method and fields.
pub open spec fn is_head_to(head: RequestHead, method: Method, uri: UriParts, f: Fields) -> bool {
    &&& head.uri@ == uri
    &&& head.method == method
    &&& head.version == Version::HTTP_11
    &&& head.fields() == f
    &&& head.headers_vec@.len() == 0
    &&& head.flags == no_flags()
    &&& head.id == 0
}

/// A request of the given target, method and fields.
pub open spec fn is_request_to(r: ClientRequest, method: Method, url: Seq<char>, f: Fields) -> bool {
    &&& r.err == target_of(url).1
    &&& is_head_to(r.head, method, target_of(url).0, f)
}

/// A head of the given target, and what is wrong with it.
pub fn head_to(method: Method, url: &str) -> (r: (RequestHead, Option<HttpError>))
    ensures
        r.1 == target_of(url@).1,
        is_head_to(r.0, method, target_of(url@).0, no_fields()),
{
    let mut head = RequestHead::default();
    head.method = method;
    match Uri::from_bytes(url.as_bytes()) {
        Ok(uri) => {
            head.uri = uri;
            (head, None)
        },
        Err(_) => (head, Some(HttpError::Uri)),
    }
}

impl ClientRequest {
    /// A request without headers.
    pub fn new(method: Method, url: &str) -> (r: ClientRequest)
        ensures
            is_request_to(r, method, url@, no_fields()),
    {
        let (head, err) = head_to(method, url);
        ClientRequest { head, err }
    }
}

} // verus!
