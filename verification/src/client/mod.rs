//! HTTP client.

use vstd::prelude::*;

use crate::client::builder::{ClientBuilder, ClientConfig};
use crate::client::request::{is_request_to, ClientRequest};
use crate::client::ws::WsRequest;
use crate::headers::{fields, fill_fields, filled, map_clone, map_new, no_fields};
use crate::message::RequestHead;
use crate::time::Millis;
use crate::types::{copy_method, Method};

pub mod builder;
pub mod connection;
pub mod connector;
pub mod error;
pub mod h1proto;
pub mod h2proto;
pub mod pool;
pub mod queues;
pub mod request;
pub mod response;
pub mod sender;
pub mod ws;

verus! {

/// An HTTP Client
#[derive(Debug)]
pub struct Client {
    pub config: ClientConfig,
}

impl Default for Client {
    fn default() -> (r: Client)
        ensures
            fields(r.config.headers) == no_fields(),
            r.config.timeout == Millis(5_000),
    {
        Client { config: ClientConfig { headers: map_new(), timeout: Millis(5_000) } }
    }
}

impl Client {
    /// Create new client instance with default settings.
    pub fn new() -> (r: Client)
        ensures
            fields(r.config.headers) == no_fields(),
            r.config.timeout == Millis(5_000),
    {
        Client::default()
    }

    /// Build client instance.
    pub fn build() -> (r: ClientBuilder)
        ensures
            r.default_headers,
            r.allow_redirects,
            r.max_redirects == 10,
            r.config.timeout == Millis(5_000),
            fields(r.config.headers) == no_fields(),
    {
        ClientBuilder::new()
    }

    /// Construct HTTP request. It has the headers that are added to every
    /// request.
    pub fn request(&self, method: Method, url: &str) -> (r: ClientRequest)
        ensures
            is_request_to(r, method, url@, fields(self.config.headers)),
    {
        let mut req = ClientRequest::new(method, url);
        req.head.headers = map_clone(&self.config.headers);
        req
    }

    /// Create `ClientRequest` from `RequestHead`
    ///
    /// It is useful for proxy requests. This implementation
    /// copies all headers and the method. Headers that are added to every
    /// request prevail.
    pub fn request_from(&self, url: &str, head: &RequestHead) -> (r: ClientRequest)
        ensures
            is_request_to(r, head.method, url@, fields(r.head.headers)),
            filled(fields(self.config.headers), head.fields(), fields(r.head.headers)),
    {
        let mut req = self.request(copy_method(&head.method), url);
        fill_fields(&mut req.head.headers, &head.headers);
        req
    }

    /// Construct HTTP *GET* request.
    pub fn get(&self, url: &str) -> (r: ClientRequest)
        ensures
            is_request_to(r, Method::GET, url@, fields(self.config.headers)),
    {
        self.request(Method::GET, url)
    }

    /// Construct HTTP *HEAD* request.
    pub fn head(&self, url: &str) -> (r: ClientRequest)
        ensures
            is_request_to(r, Method::HEAD, url@, fields(self.config.headers)),
    {
        self.request(Method::HEAD, url)
    }

    /// Construct HTTP *PUT* request.
    pub fn put(&self, url: &str) -> (r: ClientRequest)
        ensures
            is_request_to(r, Method::PUT, url@, fields(self.config.headers)),
    {
        self.request(Method::PUT, url)
    }

    /// Construct HTTP *POST* request.
    pub fn post(&self, url: &str) -> (r: ClientRequest)
        ensures
            is_request_to(r, Method::POST, url@, fields(self.config.headers)),
    {
        self.request(Method::POST, url)
    }

    /// Construct HTTP *PATCH* request.
    pub fn patch(&self, url: &str) -> (r: ClientRequest)
        ensures
            is_request_to(r, Method::PATCH, url@, fields(self.config.headers)),
    {
        self.request(Method::PATCH, url)
    }

    /// Construct HTTP *DELETE* request.
    pub fn delete(&self, url: &str) -> (r: ClientRequest)
        ensures
            is_request_to(r, Method::DELETE, url@, fields(self.config.headers)),
    {
        self.request(Method::DELETE, url)
    }

    /// Construct HTTP *OPTIONS* request.
    pub fn options(&self, url: &str) -> (r: ClientRequest)
        ensures
            is_request_to(r, Method::OPTIONS, url@, fields(self.config.headers)),
    {
        self.request(Method::OPTIONS, url)
    }

    /// Construct WebSockets request. It has the headers that are added to every
    /// request, and the time limit of the client.
    pub fn ws(&self, url: &str) -> (r: WsRequest)
        ensures
            crate::client::ws::is_ws_request(
                r,
                url@,
                fields(self.config.headers),
                self.config.timeout,
            ),
    {
        let mut req = WsRequest::new(url, self.config.timeout);
        req.head.headers = map_clone(&self.config.headers);
        req
    }
}

} // verus!
