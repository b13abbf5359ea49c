use ntex::config::KeepAlive;
use ntex::encoding::ContentEncoding;
use ntex::h1::timer::read_timeout;
use ntex::payload::Payload;
use ntex::request::Request;
use ntex::time::Seconds;
use ntex::types::Uri;
use ntex_http::header::{HeaderValue, CONTENT_LENGTH, CONTENT_TYPE};

#[test]
fn keep_alive() {
    assert_eq!(KeepAlive::Disabled, Option::<usize>::None.into());
    assert_eq!(
        KeepAlive::Timeout(Seconds(10)),
        Option::<usize>::Some(10).into()
    );
}

#[test]
fn test_read_timeout_is_bounded_by_maximum() {
    let (timeout, remaining) = read_timeout(Seconds(10), Seconds(15));
    assert_eq!(timeout, Seconds(10));
    assert_eq!(remaining, Seconds(5));

    let (timeout, remaining) = read_timeout(Seconds(10), remaining);
    assert_eq!(timeout, Seconds(5));
    assert_eq!(remaining, Seconds(0));

    let (timeout, remaining) = read_timeout(Seconds(10), Seconds(3));
    assert_eq!(timeout, Seconds(3));
    assert_eq!(remaining, Seconds(0));

    let (timeout, remaining) = read_timeout(Seconds(10), Seconds(0));
    assert_eq!(timeout, Seconds(10));
    assert_eq!(remaining, Seconds(0));
}

#[test]
fn header_encoding() {
    assert!(ContentEncoding::Br.is_compressed());
    assert!(!ContentEncoding::Identity.is_compressed());
    assert!(!ContentEncoding::Auto.is_compressed());
    assert_eq!(format!("{:?}", ContentEncoding::Identity), "Identity");
}

#[test]
fn mod_encoding() {
    assert!(ContentEncoding::Br.is_compressed());
    assert!(!ContentEncoding::Identity.is_compressed());
    assert!(!ContentEncoding::Auto.is_compressed());
    assert_eq!(format!("{:?}", ContentEncoding::Identity), "Identity");
}

#[test]
fn test_basics() {
    let mut req = Request::new();

    req.headers_mut()
        .insert(CONTENT_TYPE, HeaderValue::from_static("text/plain"));
    assert!(req.headers().contains_key(CONTENT_TYPE));

    req.head_mut()
        .headers_mut()
        .insert(CONTENT_LENGTH, HeaderValue::from_static("100"));
    assert!(req.headers().contains_key(CONTENT_LENGTH));

    req.head_mut().no_chunking(true);
    assert!(!req.head().chunked());
    req.head_mut().no_chunking(false);
    assert!(req.head().chunked());

    *req.uri_mut() = Uri::from_bytes(b"/index.html?q=1").unwrap();
    assert_eq!(req.uri().path(), "/index.html");
    assert_eq!(req.uri().query(), Some("q=1"));

    let s = req.title();
    assert!(s.contains("Request HTTP/1.1 GET:/index.html"));

    let s = format!("{:?}", req.head());
    assert!(s.contains("RequestHead { uri:"));
}

#[test]
fn payload_debug() {
    assert!(Payload::NoPayload.label().contains("Payload::None"));
    assert!(Payload::H1.label().contains("Payload::H1"));
    assert!(Payload::Stream.label().contains("Payload::Stream"));

    assert_eq!(std::mem::size_of::<Payload>(), std::mem::size_of::<Option<Payload>>());
}
