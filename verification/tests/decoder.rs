use ntex::config::HttpServiceConfig;
use ntex::error::DecodeError;
use ntex::h1::decoder::{
    connection_type, HeadState, MessageDecoder, PayloadDecoder, PayloadItem, PayloadType,
};
use ntex::message::{ConnectionType, ResponseHead};
use ntex::request::Request;
use ntex::types::{Method, Version};

fn bytes(s: &str) -> Vec<u8> {
    s.as_bytes().to_vec()
}

fn payload(pl: PayloadType) -> PayloadDecoder {
    match pl {
        PayloadType::Payload(pl) => pl,
        _ => panic!("no payload"),
    }
}

fn is_unhandled(pl: &PayloadType) -> bool {
    matches!(pl, PayloadType::Stream(_))
}

fn chunk(item: PayloadItem) -> Vec<u8> {
    match item {
        PayloadItem::Chunk(chunk) => chunk,
        PayloadItem::Eof => panic!("error"),
    }
}

fn eof(item: &PayloadItem) -> bool {
    matches!(item, PayloadItem::Eof)
}

fn parse_ready(buf: &mut Vec<u8>) -> Request {
    match MessageDecoder::<Request>::new(HttpServiceConfig::new()).decode(buf) {
        Ok(Some((msg, _))) => msg,
        Ok(_) => unreachable!("Eof during parsing http request"),
        Err(err) => unreachable!("Error during parsing http request: {:?}", err),
    }
}

fn expect_parse_err(buf: &mut Vec<u8>) {
    match MessageDecoder::<Request>::new(HttpServiceConfig::new()).decode(buf) {
        Err(_) => (),
        _ => unreachable!("Error expected"),
    }
}

#[test]
fn test_parse() {
    let mut buf = bytes("GET /test HTTP/1.1\r\n\r\n");

    let mut reader = MessageDecoder::<Request>::new(HttpServiceConfig::new());
    match reader.decode(&mut buf) {
        Ok(Some((req, _))) => {
            assert_eq!(req.version(), Version::HTTP_11);
            assert_eq!(*req.method(), Method::GET);
            assert_eq!(req.path(), "/test");
        }
        Ok(_) | Err(_) => unreachable!("Error during parsing http request"),
    }

    let mut buf = bytes("GET /test HTTP/1.1\r\ncontent-length:512\r\n\r\n");
    let mut reader = MessageDecoder::<Request>::new(HttpServiceConfig::new());
    let req = reader.decode(&mut buf).unwrap().unwrap().0;
    assert_eq!(req.version(), Version::HTTP_11);
    assert_eq!(*req.method(), Method::GET);
    assert_eq!(req.path(), "/test");
}

#[test]
fn test_connection_type() {
    for s in &["Close", "Close\r\n", "close,", "close "] {
        assert_eq!(connection_type(s.as_bytes()), Some(ConnectionType::Close));
    }
    for s in &["upgrade", "upGrade\r\n", "upgrade,", "upgrade "] {
        assert_eq!(connection_type(s.as_bytes()), Some(ConnectionType::Upgrade));
    }
    for s in &["keep-alive", "keep-Alive\r\n", "keep-alive,", "Keep-alive "] {
        assert_eq!(connection_type(s.as_bytes()), Some(ConnectionType::KeepAlive));
    }
    for s in &["keep-aliv", "clos\r\n", "clos", "upgrad"] {
        assert_eq!(connection_type(s.as_bytes()), None);
    }
}

#[test]
fn test_parse_partial() {
    let mut buf = bytes("PUT /test HTTP/1");

    let mut reader = MessageDecoder::<Request>::new(HttpServiceConfig::new());
    assert!(reader.decode(&mut buf).unwrap().is_none());

    buf.extend_from_slice(b".1\r\n\r\n");
    let (req, _) = reader.decode(&mut buf).unwrap().unwrap();
    assert_eq!(req.version(), Version::HTTP_11);
    assert_eq!(*req.method(), Method::PUT);
    assert_eq!(req.path(), "/test");
}

#[test]
fn parse_h10_get() {
    let mut buf = bytes(
        "GET /test1 HTTP/1.0\r\n\
        \r\n\
        abc",
    );

    let mut reader = MessageDecoder::<Request>::new(HttpServiceConfig::new());
    let (req, _) = reader.decode(&mut buf).unwrap().unwrap();
    assert_eq!(req.version(), Version::HTTP_10);
    assert_eq!(*req.method(), Method::GET);
    assert_eq!(req.path(), "/test1");

    let mut buf = bytes(
        "GET /test2 HTTP/1.0\r\n\
        Test: 123\r\n\
        Content-Length: 0\r\n\
        \r\n",
    );

    let mut reader = MessageDecoder::<Request>::new(HttpServiceConfig::new());
    let (req, _) = reader.decode(&mut buf).unwrap().unwrap();
    assert_eq!(req.version(), Version::HTTP_10);
    assert_eq!(*req.method(), Method::GET);
    assert_eq!(req.path(), "/test2");

    let mut buf = bytes(
        "GET /test3?test=1 HTTP/1.0\r\n\
        Content-Length: 3\r\n\
        \r\n
        abc",
    );

    let mut reader = MessageDecoder::<Request>::new(HttpServiceConfig::new());
    let (req, _) = reader.decode(&mut buf).unwrap().unwrap();
    assert_eq!(req.version(), Version::HTTP_10);
    assert_eq!(*req.method(), Method::GET);
    assert_eq!(req.path(), "/test3");
    assert_eq!(req.uri().query(), Some("test=1"));

    // transfer-encoding is not supported for http1.0
    let mut buf = bytes(
        "GET /test3?test=1 HTTP/1.0\r\nTransfer-Encoding: chunked\r\n\r\n",
    );
    expect_parse_err(&mut buf);
}

#[test]
fn parse_h10_post() {
    let mut buf = bytes(
        "POST /test1 HTTP/1.0\r\n\
        Content-Length: 3\r\n\
        \r\n\
        abc",
    );

    let mut reader = MessageDecoder::<Request>::new(HttpServiceConfig::new());
    let (req, _) = reader.decode(&mut buf).unwrap().unwrap();
    assert_eq!(req.version(), Version::HTTP_10);
    assert_eq!(*req.method(), Method::POST);
    assert_eq!(req.path(), "/test1");

    let mut buf = bytes(
        "POST /test2 HTTP/1.0\r\n\
        Content-Length: 0\r\n\
        \r\n",
    );

    let mut reader = MessageDecoder::<Request>::new(HttpServiceConfig::new());
    let (req, _) = reader.decode(&mut buf).unwrap().unwrap();
    assert_eq!(req.version(), Version::HTTP_10);
    assert_eq!(*req.method(), Method::POST);
    assert_eq!(req.path(), "/test2");

    let mut buf = bytes(
        "POST /test3 HTTP/1.0\r\n\
        \r\n",
    );
    let mut reader = MessageDecoder::<Request>::new(HttpServiceConfig::new());
    let err = reader.decode(&mut buf).unwrap_err();
    assert!(err.message().contains("Header"));
}

#[test]
fn test_parse_body() {
    let mut buf = bytes("GET /test HTTP/1.1\r\nContent-Length: 4\r\n\r\nbody");

    let mut reader = MessageDecoder::<Request>::new(HttpServiceConfig::new());
    let (req, pl) = reader.decode(&mut buf).unwrap().unwrap();
    let mut pl = payload(pl);
    assert_eq!(req.version(), Version::HTTP_11);
    assert_eq!(*req.method(), Method::GET);
    assert_eq!(req.path(), "/test");
    assert_eq!(
        chunk(pl.decode(&mut buf).unwrap().unwrap()),
        b"body"
    );
}

#[test]
fn test_parse_body_crlf() {
    let mut buf =
        bytes("\r\nGET /test HTTP/1.1\r\nContent-Length: 4\r\n\r\nbody");

    let mut reader = MessageDecoder::<Request>::new(HttpServiceConfig::new());
    let (req, pl) = reader.decode(&mut buf).unwrap().unwrap();
    let mut pl = payload(pl);
    assert_eq!(req.version(), Version::HTTP_11);
    assert_eq!(*req.method(), Method::GET);
    assert_eq!(req.path(), "/test");
    assert_eq!(
        chunk(pl.decode(&mut buf).unwrap().unwrap()),
        b"body"
    );
}

#[test]
fn test_parse_partial_eof() {
    let mut buf = bytes("GET /test HTTP/1.1\r\n");
    let mut reader = MessageDecoder::<Request>::new(HttpServiceConfig::new());
    assert!(reader.decode(&mut buf).unwrap().is_none());

    buf.extend_from_slice(b"\r\n");
    let (req, _) = reader.decode(&mut buf).unwrap().unwrap();
    assert_eq!(req.version(), Version::HTTP_11);
    assert_eq!(*req.method(), Method::GET);
    assert_eq!(req.path(), "/test");
}

#[test]
fn test_headers_split_field() {
    let mut buf = bytes("GET /test HTTP/1.1\r\n");

    let mut reader = MessageDecoder::<Request>::new(HttpServiceConfig::new());
    assert!(reader.decode(&mut buf).unwrap().is_none());

    buf.extend_from_slice(b"t");
    assert!(reader.decode(&mut buf).unwrap().is_none());

    buf.extend_from_slice(b"es");
    assert!(reader.decode(&mut buf).unwrap().is_none());

    buf.extend_from_slice(b"t: value\r\n\r\n");
    let (req, _) = reader.decode(&mut buf).unwrap().unwrap();
    assert_eq!(req.version(), Version::HTTP_11);
    assert_eq!(*req.method(), Method::GET);
    assert_eq!(req.path(), "/test");
    assert_eq!(
        req.headers()
            .get("test")
            .unwrap()
            .as_bytes(),
        b"value"
    );
}

#[test]
fn test_headers_multi_value() {
    let mut buf = bytes(
        "GET /test HTTP/1.1\r\n\
         Set-Cookie: c1=cookie1\r\n\
         Set-Cookie: c2=cookie2\r\n\r\n",
    );
    let mut reader = MessageDecoder::<Request>::new(HttpServiceConfig::new());
    let (req, _) = reader.decode(&mut buf).unwrap().unwrap();

    let val: Vec<_> = req
        .headers()
        .get_all("set-cookie")
        .map(|v| v.to_str().unwrap().to_owned())
        .collect();
    assert_eq!(val[0], "c1=cookie1");
    assert_eq!(val[1], "c2=cookie2");
}

#[test]
fn test_conn_default_1_0() {
    let mut buf = bytes("GET /test HTTP/1.0\r\n\r\n");
    let req = parse_ready(&mut buf);

    assert_eq!(req.head().connection_type(), ConnectionType::Close);
}

#[test]
fn test_conn_default_1_1() {
    let mut buf = bytes("GET /test HTTP/1.1\r\n\r\n");
    let req = parse_ready(&mut buf);

    assert_eq!(req.head().connection_type(), ConnectionType::KeepAlive);
}

#[test]
fn test_conn_close() {
    let mut buf = bytes(
        "GET /test HTTP/1.1\r\n\
         connection: close\r\n\r\n",
    );
    let req = parse_ready(&mut buf);

    assert_eq!(req.head().connection_type(), ConnectionType::Close);

    let mut buf = bytes(
        "GET /test HTTP/1.1\r\n\
         connection: Close\r\n\r\n",
    );
    let req = parse_ready(&mut buf);

    assert_eq!(req.head().connection_type(), ConnectionType::Close);
}

#[test]
fn test_conn_close_1_0() {
    let mut buf = bytes(
        "GET /test HTTP/1.0\r\n\
         connection: close\r\n\r\n",
    );

    let req = parse_ready(&mut buf);

    assert_eq!(req.head().connection_type(), ConnectionType::Close);
}

#[test]
fn test_conn_keep_alive_1_0() {
    let mut buf = bytes(
        "GET /test HTTP/1.0\r\n\
         connection: keep-alive\r\n\r\n",
    );
    let req = parse_ready(&mut buf);

    assert_eq!(req.head().connection_type(), ConnectionType::KeepAlive);

    let mut buf = bytes(
        "GET /test HTTP/1.0\r\n\
         connection: Keep-Alive\r\n\r\n",
    );
    let req = parse_ready(&mut buf);

    assert_eq!(req.head().connection_type(), ConnectionType::KeepAlive);
}

#[test]
fn test_conn_keep_alive_1_1() {
    let mut buf = bytes(
        "GET /test HTTP/1.1\r\n\
         connection: keep-alive\r\n\r\n",
    );
    let req = parse_ready(&mut buf);

    assert_eq!(req.head().connection_type(), ConnectionType::KeepAlive);
}

#[test]
fn test_conn_other_1_0() {
    let mut buf = bytes(
        "GET /test HTTP/1.0\r\n\
         connection: other\r\n\r\n",
    );
    let req = parse_ready(&mut buf);

    assert_eq!(req.head().connection_type(), ConnectionType::Close);
}

#[test]
fn test_conn_other_1_1() {
    let mut buf = bytes(
        "GET /test HTTP/1.1\r\n\
         connection: other\r\n\r\n",
    );
    let req = parse_ready(&mut buf);

    assert_eq!(req.head().connection_type(), ConnectionType::KeepAlive);
}

#[test]
fn test_conn_upgrade() {
    let mut buf = bytes(
        "GET /test HTTP/1.1\r\n\
         upgrade: websockets\r\n\
         connection: upgrade\r\n\r\n",
    );
    let req = parse_ready(&mut buf);

    assert!(req.upgrade());
    assert_eq!(req.head().connection_type(), ConnectionType::Upgrade);

    let mut buf = bytes(
        "GET /test HTTP/1.1\r\n\
         upgrade: Websockets\r\n\
         connection: Upgrade\r\n\r\n",
    );
    let req = parse_ready(&mut buf);

    assert!(req.upgrade());
    assert_eq!(req.head().connection_type(), ConnectionType::Upgrade);
}

#[test]
fn test_conn_upgrade_connect_method() {
    let mut buf = bytes(
        "CONNECT /test HTTP/1.1\r\n\
         content-type: text/plain\r\n\r\n",
    );
    let req = parse_ready(&mut buf);

    assert!(req.upgrade());
}

#[test]
fn test_request_chunked() {
    let mut buf = bytes(
        "GET /test HTTP/1.1\r\n\
         transfer-encoding: chunked\r\n\r\n",
    );
    let req = parse_ready(&mut buf);

    if let Ok(val) = req.chunked() {
        assert!(val);
    } else {
        unreachable!("Error");
    }

    // typo in chunked
    let mut buf = bytes(
        "GET /test HTTP/1.1\r\n\
         transfer-encoding: chnked\r\n\r\n",
    );
    expect_parse_err(&mut buf);
}

#[test]
fn test_headers_content_length_err_1() {
    let mut buf = bytes(
        "GET /test HTTP/1.1\r\n\
         content-length: line\r\n\r\n",
    );

    expect_parse_err(&mut buf);
}

#[test]
fn test_headers_content_length_err_2() {
    let mut buf = bytes(
        "GET /test HTTP/1.1\r\n\
         content-length: -1\r\n\r\n",
    );

    expect_parse_err(&mut buf);
}

#[test]
fn test_invalid_header() {
    let mut buf = bytes(
        "GET /test HTTP/1.1\r\n\
         test line\r\n\r\n",
    );

    expect_parse_err(&mut buf);
}

#[test]
fn test_invalid_name() {
    let mut buf = bytes(
        "GET /test HTTP/1.1\r\n\
         test[]: line\r\n\r\n",
    );

    expect_parse_err(&mut buf);
}

#[test]
fn test_http_request_bad_status_line() {
    let mut buf = bytes("getpath \r\n\r\n");
    expect_parse_err(&mut buf);
}

#[test]
fn test_http_request_upgrade() {
    let mut buf = bytes(
        "GET /test HTTP/1.1\r\n\
         connection: upgrade\r\n\
         upgrade: websocket\r\n\r\n\
         some raw data",
    );
    let mut reader = MessageDecoder::<Request>::new(HttpServiceConfig::new());
    let (req, pl) = reader.decode(&mut buf).unwrap().unwrap();
    assert_eq!(req.head().connection_type(), ConnectionType::Upgrade);
    assert!(req.upgrade());
    assert!(is_unhandled(&pl));
}

#[test]
fn test_http_request_parser_utf8() {
    let mut buf = bytes(
        "GET /test HTTP/1.1\r\n\
         x-test: тест\r\n\r\n",
    );
    let req = parse_ready(&mut buf);

    assert_eq!(
        req.headers().get("x-test").unwrap().as_bytes(),
        "тест".as_bytes()
    );
}

#[test]
fn test_http_request_parser_two_slashes() {
    let mut buf = bytes("GET //path HTTP/1.1\r\n\r\n");
    let req = parse_ready(&mut buf);

    assert_eq!(req.path(), "//path");
}

#[test]
fn test_http_request_parser_bad_method() {
    let mut buf = bytes("!12%()+=~$ /get HTTP/1.1\r\n\r\n");

    expect_parse_err(&mut buf);
}

#[test]
fn test_http_request_parser_bad_version() {
    let mut buf = bytes("GET //get HT/11\r\n\r\n");

    expect_parse_err(&mut buf);
}

#[test]
fn test_http_request_chunked_payload() {
    let mut buf = bytes(
        "GET /test HTTP/1.1\r\n\
         transfer-encoding: chunked\r\n\r\n",
    );
    let mut reader = MessageDecoder::<Request>::new(HttpServiceConfig::new());
    let (req, pl) = reader.decode(&mut buf).unwrap().unwrap();
    let mut pl = payload(pl);
    assert!(req.chunked().unwrap());

    buf.extend_from_slice(b"4\r\ndata\r\n4\r\nline\r\n0\r\n\r\n");
    assert_eq!(
        chunk(pl.decode(&mut buf).unwrap().unwrap()),
        b"data"
    );
    assert_eq!(
        chunk(pl.decode(&mut buf).unwrap().unwrap()),
        b"line"
    );
    assert!(eof(&pl.decode(&mut buf).unwrap().unwrap()));
}

#[test]
fn decoder_test_http_request_chunked_payload_and_next_message() {
    let mut buf = bytes(
        "GET /test HTTP/1.1\r\n\
         transfer-encoding: chunked\r\n\r\n",
    );
    let mut reader = MessageDecoder::<Request>::new(HttpServiceConfig::new());
    let (req, pl) = reader.decode(&mut buf).unwrap().unwrap();
    let mut pl = payload(pl);
    assert!(req.chunked().unwrap());

    buf.extend_from_slice(b"4\r\ndata\r\n4\r\nline\r\n0\r\n\r\n\
          POST /test2 HTTP/1.1\r\n\
          transfer-encoding: chunked\r\n\r\n");
    let msg = pl.decode(&mut buf).unwrap().unwrap();
    assert_eq!(chunk(msg), b"data");
    let msg = pl.decode(&mut buf).unwrap().unwrap();
    assert_eq!(chunk(msg), b"line");
    let msg = pl.decode(&mut buf).unwrap().unwrap();
    assert!(eof(&msg));

    let (req, _) = reader.decode(&mut buf).unwrap().unwrap();
    assert!(req.chunked().unwrap());
    assert_eq!(*req.method(), Method::POST);
    assert!(req.chunked().unwrap());
}

#[test]
fn test_http_request_chunked_payload_chunks() {
    let mut buf = bytes(
        "GET /test HTTP/1.1\r\n\
         transfer-encoding: chunked\r\n\r\n",
    );

    let mut reader = MessageDecoder::<Request>::new(HttpServiceConfig::new());
    let (req, pl) = reader.decode(&mut buf).unwrap().unwrap();
    let mut pl = payload(pl);
    assert!(req.chunked().unwrap());

    buf.extend_from_slice(b"4\r\n1111\r\n");
    let msg = pl.decode(&mut buf).unwrap().unwrap();
    assert_eq!(chunk(msg), b"1111");

    buf.extend_from_slice(b"4\r\ndata\r");
    let msg = pl.decode(&mut buf).unwrap().unwrap();
    assert_eq!(chunk(msg), b"data");

    buf.extend_from_slice(b"\n4");
    assert!(pl.decode(&mut buf).unwrap().is_none());

    buf.extend_from_slice(b"\r");
    assert!(pl.decode(&mut buf).unwrap().is_none());
    buf.extend_from_slice(b"\n");
    assert!(pl.decode(&mut buf).unwrap().is_none());

    buf.extend_from_slice(b"li");
    let msg = pl.decode(&mut buf).unwrap().unwrap();
    assert_eq!(chunk(msg), b"li");

    //trailers
    //buf.feed_data("test: test\r\n");
    //not_ready!(reader.parse(&mut buf, &mut readbuf));

    buf.extend_from_slice(b"ne\r\n0\r\n");
    let msg = pl.decode(&mut buf).unwrap().unwrap();
    assert_eq!(chunk(msg), b"ne");
    assert!(pl.decode(&mut buf).unwrap().is_none());

    buf.extend_from_slice(b"\r\n");
    assert!(eof(&pl.decode(&mut buf).unwrap().unwrap()));
}

#[test]
fn test_parse_chunked_payload_chunk_extension() {
    let mut buf = bytes(
        "GET /test HTTP/1.1\r\n\
          transfer-encoding: chunked\r\n\r\n",
    );

    let mut reader = MessageDecoder::<Request>::new(HttpServiceConfig::new());
    let (msg, pl) = reader.decode(&mut buf).unwrap().unwrap();
    let mut pl = payload(pl);
    assert!(msg.chunked().unwrap());

    buf.extend_from_slice(b"4;test\r\ndata\r\n4\r\nline\r\n0\r\n\r\n"); // test: test\r\n\r\n")
    let data = chunk(pl.decode(&mut buf).unwrap().unwrap());
    assert_eq!(data, b"data".to_vec());
    let data = chunk(pl.decode(&mut buf).unwrap().unwrap());
    assert_eq!(data, b"line".to_vec());
    let msg = pl.decode(&mut buf).unwrap().unwrap();
    assert!(eof(&msg));
}

#[test]
fn test_response_http10_read_until_eof() {
    let mut buf = bytes("HTTP/1.0 200 Ok\r\n\r\ntest data");

    let mut reader = MessageDecoder::<ResponseHead>::new(HttpServiceConfig::new());
    let res = reader.decode(&mut buf);
    let (_msg, pl) = res.unwrap().unwrap();
    let mut pl = payload(pl);

    let chunk = pl.decode(&mut buf).unwrap().unwrap();
    assert_eq!(chunk, PayloadItem::Chunk(b"test data".to_vec()));
}

#[test]
fn test_multiple_content_length() {
    let mut buf = bytes(
        "GET / HTTP/1.1\r\n\
         Host: example.com\r\n\
         Content-Length: 4\r\n\
         Content-Length: 2\r\n\
         \r\n\
         abcd",
    );
    expect_parse_err(&mut buf);

    let mut buf = bytes(
        "GET / HTTP/1.1\r\n\
         Host: example.com\r\n\
         Content-Length: 0\r\n\
         Content-Length: 2\r\n\
         \r\n\
         ab",
    );
    expect_parse_err(&mut buf);
}

#[test]
fn test_transfer_encoding_http10() {
    // in HTTP/1.0 transfer encoding is not supported

    let mut buf = bytes(
        "POST / HTTP/1.0\r\n\
        Host: example.com\r\n\
        Transfer-Encoding: chunked\r\n\
        \r\n\
        3\r\n\
        aaa\r\n\
        0\r\n\
        ",
    );

    expect_parse_err(&mut buf);
}

#[test]
fn test_content_length_and_te_http10() {
    // in HTTP/1.0 transfer encoding is not supported

    let mut buf = bytes(
        "GET / HTTP/1.0\r\n\
        Host: example.com\r\n\
        Content-Length: 3\r\n\
        Transfer-Encoding: chunked\r\n\
        \r\n\
        000",
    );

    expect_parse_err(&mut buf);
}

#[test]
fn test_content_length_plus() {
    let mut buf = bytes(
        "GET / HTTP/1.1\r\n\
         Host: example.com\r\n\
         Content-Length: +3\r\n\
         \r\n\
         000",
    );
    expect_parse_err(&mut buf);
}

#[test]
fn test_unknown_transfer_encoding() {
    let mut buf = bytes(
        "GET / HTTP/1.1\r\n\
         Host: example.com\r\n\
         Transfer-Encoding: JUNK\r\n\
         Transfer-Encoding: chunked\r\n\
         \r\n\
         5\r\n\
         hello\r\n\
         0",
    );

    expect_parse_err(&mut buf);
}

#[test]
fn test_multiple_transfer_encoding() {
    let mut buf = bytes(
        "GET / HTTP/1.1\r\n\
         Host: example.com\r\n\
         Content-Length: 51\r\n\
         Transfer-Encoding: identity\r\n\
         Transfer-Encoding: chunked\r\n\
         \r\n\
         0\r\n\
         \r\n\
         GET /forbidden HTTP/1.1\r\n\
         Host: example.com\r\n\r\n",
    );
    expect_parse_err(&mut buf);
}

#[test]
fn test_transfer_encoding_content_length_combination() {
    let mut buf = bytes(
        "GET /test HTTP/1.1\r\n\
         Host: example.com\r\n\
         Content-Length: 3\r\n\
         Transfer-Encoding: chunked\r\n\
         \r\n\
         0\r\n",
    );
    expect_parse_err(&mut buf);

    let mut buf = bytes(
        "GET /test HTTP/1.1\r\n\
         Host: example.com\r\n\
         Transfer-Encoding: chunked\r\n\
         Content-Length: 3\r\n\
         \r\n\
         0\r\n",
    );
    expect_parse_err(&mut buf);
}

#[test]
fn test_transfer_encoding_content_length() {
    let mut buf = bytes(
        "GET /test HTTP/1.1\r\n\
         Host: example.com\r\n\
         Content-Length: 3\r\n\
         Transfer-Encoding: identity\r\n\
         \r\n\
         0\r\n",
    );

    let mut reader = MessageDecoder::<Request>::new(HttpServiceConfig::new());
    let (_msg, pl) = reader.decode(&mut buf).unwrap().unwrap();
    let mut pl = payload(pl);

    let chunk = pl.decode(&mut buf).unwrap().unwrap();
    assert_eq!(chunk, PayloadItem::Chunk(b"0\r\n".to_vec()));
}

#[test]
fn test_max_headers() {
    let text: &str = "GET /test HTTP/1.1\r\n\
         Host: example.com\r\n\
         Content-Length: 3\r\n\
         Test-header: ****\r\n";

    let second: &str = "GET /test HTTP/1.1\r\n\
         Host: example.com\r\n\
         Content-Length: 3\r\n\
         Test-header: ****\r\n\
         \r\n";

    let mut buf = bytes(text);
    let cfg = HttpServiceConfig::new().set_max_buf_size(10);
    let mut reader = MessageDecoder::<Request>::new(cfg);
    let err = reader.decode(&mut buf).err().unwrap();
    assert_eq!(err, DecodeError::TooLarge(77));

    let cfg = HttpServiceConfig::new().set_max_buf_size(100);
    let mut reader = MessageDecoder::<Request>::new(cfg);
    // decode one message
    let mut buf = bytes(second);
    let res = reader.decode(&mut buf);
    assert!(res.is_ok());

    // decode second message, same decoder
    let mut buf = bytes(text);
    let res = reader.decode(&mut buf);
    assert!(res.is_ok());

    // MAX HEADERS
    let cfg = HttpServiceConfig::new().set_max_headers(1);
    let mut reader = MessageDecoder::<Request>::new(cfg);
    let mut buf = bytes(text);
    let err = reader.decode(&mut buf).err().unwrap();
    assert_eq!(err, DecodeError::MaxHeaders);
}

#[test]
fn only_100_continue_is_an_expectation() {
    let head = |value: &str| {
        let mut buf = bytes("PUT /test HTTP/1.1\r\nexpect: ");
        buf.extend_from_slice(value.as_bytes());
        buf.extend_from_slice(b"\r\ncontent-length: 3\r\n\r\n");
        parse_ready(&mut buf)
    };
    assert!(!head("100-other").head.expect());
    assert!(!head("100-").head.expect());
    assert!(!head("100-continued").head.expect());
    assert!(head("100-continue").head.expect());
    assert!(head("100-Continue").head.expect());
}

#[test]
fn a_refused_header_leaves_the_state() {
    let mut st = HeadState::new(Version::HTTP_11);
    assert!(st.set_header("content-length", b"+1").is_err());
    assert_eq!(st, HeadState::new(Version::HTTP_11));
    assert!(st.set_header("content-length", b"1").is_ok());
    let before = st;
    assert!(st.set_header("content-length", b"1").is_err());
    assert_eq!(st, before);
    let mut st = HeadState::new(Version::HTTP_11);
    assert!(st.set_header("transfer-encoding", b"unknown").is_err());
    assert_eq!(st, HeadState { seen_te: true, ..HeadState::new(Version::HTTP_11) });
}

/// The data of a body that comes in the given pieces, how it ended, and what was
/// left of them.
fn delivered(mut d: PayloadDecoder, pieces: &[&[u8]]) -> (Vec<u8>, &'static str, Vec<u8>) {
    let mut data = Vec::new();
    let mut src = Vec::new();
    let mut end = "waiting";
    for piece in pieces {
        src.extend_from_slice(piece);
        while end == "waiting" {
            match d.decode(&mut src) {
                Ok(Some(PayloadItem::Chunk(c))) => data.extend_from_slice(&c),
                Ok(Some(PayloadItem::Eof)) => end = "eof",
                Ok(None) => break,
                Err(_) => end = "failed",
            }
        }
    }
    (data, end, src)
}

#[test]
fn a_body_is_the_same_however_it_is_cut() {
    let chunked: &[u8] = b"4\r\ndata\r\n6\r\nmorely\r\n0\r\n\r\nGET";
    let broken: &[u8] = b"4\r\ndata\rX6\r\nmorely";
    for i in 0..=chunked.len() {
        let cut = delivered(PayloadDecoder::chunked(), &[&chunked[..i], &chunked[i..]]);
        assert_eq!(cut, (b"datamorely".to_vec(), "eof", b"GET".to_vec()));
    }
    for i in 0..=broken.len() {
        let cut = delivered(PayloadDecoder::chunked(), &[&broken[..i], &broken[i..]]);
        assert_eq!(cut, (b"data".to_vec(), "failed", b"6\r\nmorely".to_vec()));
    }
    let ones: Vec<&[u8]> = chunked.chunks(1).collect();
    assert_eq!(
        delivered(PayloadDecoder::chunked(), &ones),
        (b"datamorely".to_vec(), "eof", b"GET".to_vec())
    );
    for i in 0..=9 {
        let s: &[u8] = b"123456789";
        let pieces = [&s[..i], &s[i..]];
        assert_eq!(
            delivered(PayloadDecoder::length(5), &pieces),
            (b"12345".to_vec(), "eof", b"6789".to_vec())
        );
        assert_eq!(
            delivered(PayloadDecoder::length(12), &pieces),
            (s.to_vec(), "waiting", Vec::new())
        );
        assert_eq!(delivered(PayloadDecoder::eof(), &pieces), (s.to_vec(), "waiting", Vec::new()));
    }
}

#[test]
fn a_head_is_the_same_in_two_parts() {
    let s: &[u8] = b"PUT /test HTTP/1.1\r\nhost: x\r\ncontent-length: 3\r\n\r\nabc";
    let head = s.len() - 3;
    for i in 0..head {
        let mut d = MessageDecoder::<Request>::new(HttpServiceConfig::new());
        let mut src = s[..i].to_vec();
        assert!(matches!(d.decode(&mut src), Ok(None)));
        src.extend_from_slice(&s[i..]);
        let (req, pl) = d.decode(&mut src).unwrap().unwrap();
        assert_eq!((req.path(), req.method()), ("/test", &Method::PUT));
        assert_eq!(req.head.headers.len(), 2);
        assert_eq!(pl, PayloadType::Payload(PayloadDecoder::length(3)));
        assert_eq!(src, b"abc");
    }
}
