use ntex::body::BodySize;
use ntex::config::DateService;
use ntex::h1::encoder::{write_content_length, MessageType, TransferEncoding};
use ntex::message::{ConnectionType, RequestHead};
use ntex::types::Version;
use ntex_http::header::{HeaderValue, AUTHORIZATION, DATE};
use ntex_http::HeaderMap;

fn taken(b: &mut Vec<u8>) -> Vec<u8> {
    std::mem::take(b)
}

#[test]
fn test_chunked_te() {
    let mut bytes = Vec::new();
    let mut enc = TransferEncoding::chunked();
    assert!(!enc.encode(b"test".to_vec(), &mut bytes).ok().unwrap());
    assert!(enc.encode(b"".to_vec(), &mut bytes).ok().unwrap());
    assert_eq!(taken(&mut bytes), b"4\r\ntest\r\n0\r\n\r\n");
}

#[test]
fn test_extra_headers() {
    let mut bytes = Vec::new();

    let mut head = RequestHead::default();
    head.headers
        .insert(AUTHORIZATION, HeaderValue::from_static("some authorization"));

    let mut extra_headers = HeaderMap::new();
    extra_headers.insert(AUTHORIZATION, HeaderValue::from_static("another authorization"));
    extra_headers.insert(DATE, HeaderValue::from_static("date"));

    let mut date = DateService::new();
    let _ = head.encode_headers(
        &mut bytes,
        Version::HTTP_11,
        BodySize::Empty,
        ConnectionType::Close,
        Some(extra_headers),
        &mut date,
        0,
    );
    let data = String::from_utf8(taken(&mut bytes)).unwrap();
    assert!(data.contains("content-length: 0\r\n"));
    assert!(data.contains("connection: close\r\n"));
    assert!(data.contains("authorization: another authorization\r\n"));
    assert!(data.contains("date: date\r\n"));
}

#[test]
fn test_write_content_length() {
    let mut b = Vec::new();

    write_content_length(0, &mut b);
    assert_eq!(taken(&mut b), b"\r\ncontent-length: 0\r\n");
    write_content_length(9, &mut b);
    assert_eq!(taken(&mut b), b"\r\ncontent-length: 9\r\n");
    write_content_length(10, &mut b);
    assert_eq!(taken(&mut b), b"\r\ncontent-length: 10\r\n");
    write_content_length(99, &mut b);
    assert_eq!(taken(&mut b), b"\r\ncontent-length: 99\r\n");
    write_content_length(100, &mut b);
    assert_eq!(taken(&mut b), b"\r\ncontent-length: 100\r\n");
    write_content_length(101, &mut b);
    assert_eq!(taken(&mut b), b"\r\ncontent-length: 101\r\n");
    write_content_length(998, &mut b);
    assert_eq!(taken(&mut b), b"\r\ncontent-length: 998\r\n");
    write_content_length(1000, &mut b);
    assert_eq!(taken(&mut b), b"\r\ncontent-length: 1000\r\n");
    write_content_length(1001, &mut b);
    assert_eq!(taken(&mut b), b"\r\ncontent-length: 1001\r\n");
    write_content_length(5909, &mut b);
    assert_eq!(taken(&mut b), b"\r\ncontent-length: 5909\r\n");
    write_content_length(25999, &mut b);
    assert_eq!(taken(&mut b), b"\r\ncontent-length: 25999\r\n");
}
