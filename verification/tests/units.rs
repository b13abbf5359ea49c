use std::collections::VecDeque;

use ntex::body::{
    Body, BodySize, BodyStream, BoxedBodyStream, MessageBody, NextChunk, ResponseBody, SizedStream,
    StreamPoll,
};
use ntex::builder::{H2Config, HttpServiceBuilder};
use ntex::config::{DateService, DispatcherConfig, FrameReadRate, HttpServiceConfig, KeepAlive};
use ntex::error::{DecodeError, DispatchError, EncodeError, PayloadError};
use ntex::h1::client::ClientCodec;
use ntex::h1::codec::Codec;
use ntex::h1::control::{Control, ControlResult, ServiceDisconnectReason};
use ntex::h1::decoder::{MessageDecoder, PayloadDecoder, PayloadItem};
use ntex::h1::encoder::{MessageEncoder, TransferEncoding};
use ntex::h1::payload::{Payload, PayloadStatus, MAX_BUFFER_SIZE};
use ntex::h1::{Message, MessageType, ProtocolError};
use ntex::headers::is_header_value;
use ntex::helpers::percent_encode;
use ntex::message::{ConnectionType, MessagePool, RequestHead, ResponseHead};
use ntex::payload::PayloadPoll;
use ntex::request::Request;
use ntex::response::{HttpError, Response, ResponseError};
use ntex::service::HttpService;
use ntex::testing::{TestRequest, TestServer};
use ntex::time::{Millis, Seconds};
use ntex::types::{Method, StatusCode, Uri, Version};
use ntex_http::header::{HeaderValue, COOKIE, DATE};

// ---------------------------------------------------------------------------
// Configuration
// ---------------------------------------------------------------------------

#[test]
fn dates_are_written_once_per_second() {
    let mut date = DateService::new();
    assert_eq!(date.set_date(784_111_777), b"Sun, 06 Nov 1994 08:49:37 GMT");
    // cached until it expires
    assert_eq!(date.set_date(784_111_778), b"Sun, 06 Nov 1994 08:49:37 GMT");
    date.expire();
    assert_eq!(date.set_date(784_111_778), b"Sun, 06 Nov 1994 08:49:38 GMT");
    let mut buf = Vec::new();
    date.set_date_header(784_111_778, &mut buf);
    assert_eq!(buf, b"date: Sun, 06 Nov 1994 08:49:38 GMT\r\n\r\n");
}

#[test]
fn keep_alive_conversions() {
    assert_eq!(KeepAlive::from(10usize), KeepAlive::Timeout(Seconds(10)));
    assert_eq!(KeepAlive::from(Seconds(0)), KeepAlive::Timeout(Seconds(0)));
    assert_eq!(KeepAlive::from(Seconds(3)), KeepAlive::Timeout(Seconds(3)));
    let cfg = HttpServiceConfig::new().set_keepalive(KeepAlive::Os);
    assert!(cfg.ka_enabled);
    assert_eq!(cfg.keep_alive, Seconds(0));
    let cfg = cfg.set_keepalive(KeepAlive::Disabled);
    assert!(!cfg.ka_enabled);
    let cfg = cfg.set_client_timeout(Seconds(4));
    assert_eq!(
        cfg.headers_read_rate,
        Some(FrameReadRate { timeout: Seconds(4), max_timeout: Seconds(16), rate: 256 })
    );
    let cfg = cfg.set_client_timeout(Seconds(0));
    assert_eq!(cfg.headers_read_rate, None);
    assert_eq!(
        cfg.set_client_timeout(Seconds(4)).headers_read_rate,
        Some(FrameReadRate { timeout: Seconds(4), max_timeout: Seconds(19), rate: 256 })
    );
    assert_eq!(Millis::from_seconds(Seconds(2)), Millis(2000));
}

#[test]
fn connections_are_counted_until_shutdown() {
    let mut cfg = DispatcherConfig::new();
    assert_eq!(cfg.next_id(), 0);
    assert_eq!(cfg.next_id(), 1);
    assert_eq!(cfg.insert_io(7), 1);
    assert_eq!(cfg.insert_io(8), 2);
    assert_eq!(cfg.remove_io(7), 1);
    assert!(!cfg.is_shutdown());
    assert_eq!(cfg.shutdown(), vec![8]);
    assert!(cfg.is_shutdown());
    assert!(cfg.connection_done(8));
}

#[test]
fn builders_set_what_they_are_told() {
    let b = HttpServiceBuilder::new()
        .keep_alive(KeepAlive::Timeout(Seconds(9)))
        .client_timeout(Seconds(3))
        .ssl_handshake_timeout(Seconds(7))
        .headers_read_rate(Seconds(1), Seconds(2), 3)
        .payload_read_rate(Seconds(4), Seconds(5), 6)
        .h2_configure(|c: &mut H2Config| {
            c.max_concurrent_streams = Some(c.max_concurrent_streams.unwrap_or(6) + 1);
            "dropped"
        });
    assert_eq!(b.config.keep_alive, Seconds(9));
    assert_eq!(
        b.h2config,
        H2Config { max_concurrent_streams: Some(7), initial_window_size: None }
    );
    assert_eq!(b.ssl_handshake_timeout, Seconds(7));
    assert_eq!(
        b.config.headers_read_rate,
        Some(FrameReadRate { timeout: Seconds(1), max_timeout: Seconds(2), rate: 3 })
    );
    assert_eq!(
        b.config.payload_read_rate,
        Some(FrameReadRate { timeout: Seconds(4), max_timeout: Seconds(5), rate: 6 })
    );
    let mut svc = HttpService::new();
    let a = svc.call(1, None);
    assert!(!a.h2);
    assert_eq!((a.id, a.inflight), (0, 1));
    svc.finished(1);
}

// ---------------------------------------------------------------------------
// Messages
// ---------------------------------------------------------------------------

#[test]
fn messages_are_recycled_clean() {
    let mut pool: MessagePool<RequestHead> = MessagePool::new();
    let mut head = pool.get_message();
    head.headers.insert(DATE, HeaderValue::from_static("x"));
    head.set_upgrade();
    pool.release(head);
    let head = pool.get_message();
    assert!(!head.headers.contains_key(DATE));
    assert!(!head.upgrade());
}

#[test]
fn a_response_has_a_reason() {
    let head = ResponseHead::new(StatusCode(404), Version::HTTP_11);
    assert_eq!(head.reason(), "Not Found");
    let mut head = ResponseHead::new(StatusCode(599), Version::HTTP_11);
    assert_eq!(head.reason(), "<unknown status code>");
    head.reason = Some("custom");
    assert_eq!(head.reason(), "custom");
}

#[test]
fn connection_types_follow_version_and_marks() {
    let mut head = ResponseHead::new(StatusCode(200), Version::HTTP_11);
    assert_eq!(head.connection_type(), ConnectionType::KeepAlive);
    head.set_connection_type(ConnectionType::Close);
    assert_eq!(head.connection_type(), ConnectionType::Close);
    assert_eq!(head.ctype(), Some(ConnectionType::Close));
    let head = ResponseHead::new(StatusCode(200), Version::HTTP_10);
    assert_eq!(head.connection_type(), ConnectionType::Close);
    assert_eq!(head.ctype(), None);
}

#[test]
fn targets_are_taken_apart() {
    let uri = Uri::from_bytes(b"https://user@example.com:8080/a/b?c=d").unwrap();
    assert_eq!(uri.scheme.as_deref(), Some("https"));
    assert_eq!(uri.host.as_deref(), Some("example.com"));
    assert_eq!(uri.port, Some(8080));
    assert_eq!(uri.path(), "/a/b");
    assert_eq!(uri.query(), Some("c=d"));
    assert_eq!(uri.path_and_query.as_deref(), Some("/a/b?c=d"));
    assert!(Uri::from_bytes(b"http://[x/").is_err());
    assert_eq!(Uri::default().path(), "/");
}

#[test]
fn methods_and_statuses_are_checked() {
    assert_eq!(Method::from_bytes(b"GET"), Some(Method::GET));
    assert_eq!(Method::from_bytes(b"WEIRD"), Some(Method::Extension("WEIRD".to_string())));
    assert_eq!(Method::from_bytes(b"not a method"), None);
    assert_eq!(Method::from_bytes(b"WEIRD").unwrap().as_str(), "WEIRD");
    assert_eq!(StatusCode::from_u16(99), None);
    assert_eq!(StatusCode::from_u16(1000), None);
    assert_eq!(StatusCode::from_u16(100), Some(StatusCode(100)));
    assert!(is_header_value(b"text\tmore"));
    assert!(!is_header_value(b"line\r\nbreak"));
    assert!(!is_header_value(&[127]));
}

// ---------------------------------------------------------------------------
// Bodies
// ---------------------------------------------------------------------------

#[test]
fn bodies_know_their_size() {
    assert_eq!(Body::NoBody.size(), BodySize::NoBody);
    assert_eq!(Body::Empty.size(), BodySize::Empty);
    assert_eq!(Body::from_text("test").size(), BodySize::Sized(4));
    assert_eq!(Body::from_slice(b"test").size(), BodySize::Sized(4));
    assert_eq!(Body::from_message(BodySize::Stream).size(), BodySize::Stream);
    assert_eq!(().size(), BodySize::Empty);
    assert_eq!(b"test".to_vec().size(), BodySize::Sized(4));
    assert_eq!(BodyStream::new(()).size(), BodySize::Stream);
    assert_eq!(BoxedBodyStream::new(()).size(), BodySize::Stream);
    assert_eq!(SizedStream::new(9, ()).size(), BodySize::Sized(9));
    assert!(BodySize::Sized(0).is_eof() && BodySize::Empty.is_eof() && BodySize::NoBody.is_eof());
    assert!(!BodySize::Stream.is_eof() && !BodySize::Sized(1).is_eof());
}

#[test]
fn bodies_are_given_out_once() {
    let mut body = b"test".to_vec();
    assert_eq!(body.next_chunk(), NextChunk::Chunk(b"test".to_vec()));
    assert_eq!(body.next_chunk(), NextChunk::Done);
    let mut body = Body::from_text("test");
    assert_eq!(body.next_chunk(), NextChunk::Chunk(b"test".to_vec()));
    assert_eq!(body.next_chunk(), NextChunk::Done);
    assert_eq!(().next_chunk(), NextChunk::Done);
    assert_eq!(Body::Empty.next_chunk(), NextChunk::Done);
    assert_eq!(Body::Message(BodySize::Stream).next_chunk(), NextChunk::AskStream);
    let mut body = ResponseBody::new(Body::from_text("x"));
    let taken = body.take_body();
    assert_eq!(taken.size(), BodySize::Sized(1));
    assert_eq!(body.size(), BodySize::NoBody);
}

#[test]
fn a_payload_gives_back_what_was_put_back() {
    let (_, mut pl) = Payload::create(false);
    pl.unread_data(b"data".to_vec());
    assert_eq!(pl.len, 4);
    assert!(matches!(pl.readany(), PayloadPoll::Data(d) if d == b"data"));

    let (mut tx, mut pl) = Payload::create(false);
    assert_eq!(tx.poll_data_required(&pl), PayloadStatus::Read);
    tx.feed_data(&mut pl, vec![1; MAX_BUFFER_SIZE]);
    assert_eq!(tx.poll_data_required(&pl), PayloadStatus::Pause);
    pl.unread_data(b"first".to_vec());
    assert!(matches!(pl.readany(), PayloadPoll::Data(d) if d == b"first"));
    assert!(matches!(pl.readany(), PayloadPoll::Data(d) if d.len() == MAX_BUFFER_SIZE));
    assert_eq!(tx.poll_data_required(&pl), PayloadStatus::Read);
    tx.feed_eof(&mut pl);
    assert!(matches!(pl.readany(), PayloadPoll::Done));

    let (mut tx, mut pl) = Payload::create(false);
    tx.set_error(&mut pl, PayloadError::Overflow);
    assert!(matches!(pl.readany(), PayloadPoll::Failed(PayloadError::Overflow)));
    pl.close();
    assert_eq!(tx.poll_data_required(&pl), PayloadStatus::Dropped);
}

// ---------------------------------------------------------------------------
// Coding
// ---------------------------------------------------------------------------

#[test]
fn what_is_encoded_in_chunks_decodes() {
    let mut out = Vec::new();
    let mut enc = TransferEncoding::chunked();
    for piece in [b"one".as_ref(), b"three".as_ref(), &[0u8; 300]] {
        assert!(!enc.encode(piece.to_vec(), &mut out).unwrap());
    }
    enc.encode_eof(&mut out).unwrap();
    let mut dec = PayloadDecoder::chunked();
    let mut all = Vec::new();
    loop {
        match dec.decode(&mut out).unwrap().unwrap() {
            PayloadItem::Chunk(c) => all.extend_from_slice(&c),
            PayloadItem::Eof => break,
        }
    }
    assert_eq!(all.len(), 308);
    assert!(all.starts_with(b"onethree"));
    assert!(out.is_empty());
}

#[test]
fn a_length_is_never_exceeded() {
    let mut out = Vec::new();
    let mut enc = TransferEncoding::length(4);
    assert!(!enc.encode(b"ab".to_vec(), &mut out).unwrap());
    assert!(matches!(
        enc.encode_eof(&mut out),
        Err(EncodeError::UnexpectedEof)
    ));
    assert!(enc.encode(b"cdef".to_vec(), &mut out).unwrap());
    assert_eq!(out, b"abcd");
    assert!(enc.encode_eof(&mut out).is_ok());
    let mut out = Vec::new();
    let mut enc = TransferEncoding::eof();
    assert!(!enc.encode(b"abc".to_vec(), &mut out).unwrap());
    assert_eq!(out, b"abc");
}

#[test]
fn what_one_side_encodes_the_other_decodes() {
    let mut date = DateService::new();
    let mut server = Codec::new(0, HttpServiceConfig::new());
    let mut wire = b"GET /x HTTP/1.1\r\n\r\n".to_vec();
    server.decode(&mut wire).unwrap().unwrap();
    let mut head = ResponseHead::new(StatusCode(200), Version::HTTP_11);
    head.headers.insert(COOKIE, HeaderValue::from_static("value"));
    let mut wire = Vec::new();
    server
        .encodev(Message::Item((head, BodySize::Sized(4))), &mut wire, &mut date, 0)
        .unwrap();
    server
        .encodev(Message::Chunk(Some(b"body".to_vec())), &mut wire, &mut date, 0)
        .unwrap();
    server.encodev(Message::Chunk(None), &mut wire, &mut date, 0).unwrap();

    let mut client = ClientCodec::new(true);
    let head = client.decode(&mut wire).unwrap().unwrap();
    assert_eq!(head.status, StatusCode(200));
    assert_eq!(head.headers.get(COOKIE).unwrap(), "value");
    assert_eq!(head.headers.get(DATE).unwrap(), "Thu, 01 Jan 1970 00:00:00 GMT");
    assert_eq!(client.message_type(), MessageType::Payload);
    let mut codec = client.into_payload_codec();
    assert_eq!(codec.decode(&mut wire).unwrap(), Some(Some(b"body".to_vec())));
    assert_eq!(codec.decode(&mut wire).unwrap(), Some(None));
    assert!(!codec.into_message_codec().keepalive());
}

#[test]
fn status_lines_without_a_body() {
    let mut date = DateService::new();
    let mut wire = Vec::new();
    let mut enc = MessageEncoder::new();
    let head = ResponseHead::new(StatusCode(204), Version::HTTP_11);
    enc.encode(
        &mut wire,
        &head,
        false,
        false,
        Version::HTTP_11,
        BodySize::Empty,
        ConnectionType::KeepAlive,
        None,
        &mut date,
        0,
    )
    .unwrap();
    let text = String::from_utf8(wire).unwrap();
    assert!(text.starts_with("HTTP/1.1 204 No Content\r\n"));
    assert!(!text.contains("content-length"));
}

#[test]
fn headers_keep_their_order_and_casing_where_asked() {
    let cfg = HttpServiceConfig::new().set_headers_vec(true);
    let mut reader = MessageDecoder::<Request>::new(cfg);
    let mut buf = b"GET / HTTP/1.1\r\nX-Second: 2\r\nx-FIRST: 1\r\n\r\n".to_vec();
    let (req, _) = reader.decode(&mut buf).unwrap().unwrap();
    let items = req.head().headers_vec();
    assert_eq!(items.len(), 2);
    assert_eq!((items[0].name.as_str(), &items[0].origin[..]), ("x-second", b"X-Second".as_ref()));
    assert_eq!((items[1].name.as_str(), &items[1].value[..]), ("x-first", b"1".as_ref()));
}

#[test]
fn a_complete_head_over_the_limit_is_refused() {
    let cfg = HttpServiceConfig::new().set_max_buf_size(20);
    let mut reader = MessageDecoder::<Request>::new(cfg);
    let mut buf = b"GET /a-long-path HTTP/1.1\r\n\r\n".to_vec();
    assert!(matches!(reader.decode(&mut buf), Err(DecodeError::TooLarge(_))));
}

#[test]
fn decode_errors_have_their_input() {
    let err = |s: &str| {
        let mut buf = s.as_bytes().to_vec();
        MessageDecoder::<Request>::new(HttpServiceConfig::new()).decode(&mut buf).unwrap_err()
    };
    assert_eq!(err("GET / HTTP/1.1\r\ncontent-length: x\r\n\r\n"), DecodeError::Header);
    assert_eq!(err("GET / HTTP/2.0\r\n\r\n"), DecodeError::Version);
    assert!(matches!(err("GET http://[x/ HTTP/1.1\r\n\r\n"), DecodeError::Uri(_)));
    let mut dec = PayloadDecoder::chunked();
    let mut buf = b"zz\r\n".to_vec();
    assert!(matches!(dec.decode(&mut buf), Err(DecodeError::InvalidInput(_))));
    let mut dec = MessageDecoder::<ResponseHead>::new(HttpServiceConfig::new());
    let mut buf = b"HTTP/1.1 2x0 OK\r\n\r\n".to_vec();
    assert_eq!(dec.decode(&mut buf).err(), Some(DecodeError::Status));
}

// ---------------------------------------------------------------------------
// Control
// ---------------------------------------------------------------------------

#[test]
fn control_messages_have_default_answers() {
    let req = || Request::new();
    assert!(matches!(
        Control::<HttpError>::request(req()).ack().result,
        ControlResult::Publish(_)
    ));
    let mut expecting = req();
    expecting.head_mut().set_expect();
    assert!(matches!(
        Control::<HttpError>::request(expecting).ack().result,
        ControlResult::Expect(_)
    ));
    let mut upgrading = req();
    upgrading.head_mut().set_upgrade();
    assert!(matches!(
        Control::<HttpError>::request(upgrading).ack().result,
        ControlResult::Upgrade(_)
    ));
    assert!(matches!(
        Control::<HttpError>::expect(req()).ack().result,
        ControlResult::Continue(_)
    ));
    assert!(matches!(
        Control::<HttpError>::peer_gone(None).ack().result,
        ControlResult::Stop
    ));
    assert!(matches!(
        Control::<HttpError>::svc_disconnect(ServiceDisconnectReason::Shutdown).ack().result,
        ControlResult::Stop
    ));
    match Control::<HttpError>::err(HttpError::Uri).ack().result {
        ControlResult::Error(res, body) => {
            assert_eq!(res.status(), StatusCode(500));
            assert!(matches!(body, Body::Bytes(_)));
        }
        other => panic!("{:?}", other),
    }
    match Control::<HttpError>::proto_err(ProtocolError::SlowRequestTimeout).ack().result {
        ControlResult::ProtocolError(res, _) => assert_eq!(res.status(), StatusCode(408)),
        other => panic!("{:?}", other),
    }
}

#[test]
fn protocol_errors_have_their_status() {
    let status = |e: ProtocolError| e.status();
    assert_eq!(status(ProtocolError::Decode(DecodeError::Header)), StatusCode(400));
    assert_eq!(status(ProtocolError::Decode(DecodeError::TooLarge(1))), StatusCode(431));
    assert_eq!(status(ProtocolError::SlowRequestTimeout), StatusCode(408));
    assert_eq!(status(ProtocolError::SlowPayloadTimeout), StatusCode(408));
    assert_eq!(status(ProtocolError::Encode(EncodeError::UnexpectedEof)), StatusCode(500));
    let resp = ProtocolError::SlowRequestTimeout.error_response();
    assert_eq!(resp.status(), StatusCode(408));
    assert_eq!(DispatchError::Service("x".to_string()).message(), "Service error");
}

// ---------------------------------------------------------------------------
// Helpers
// ---------------------------------------------------------------------------

#[test]
fn percent_encoding_agrees_with_the_userinfo_set() {
    let set = percent_encoding::CONTROLS
        .add(b' ').add(b'"').add(b'#').add(b'<').add(b'>').add(b'`')
        .add(b'?').add(b'{').add(b'}')
        .add(b'/').add(b':').add(b';').add(b'=').add(b'@').add(b'[').add(b'\\').add(b']')
        .add(b'^').add(b'|');
    let all: Vec<u8> = (0..=255).collect();
    let mut out = Vec::new();
    percent_encode(&all, &mut out);
    let expected = percent_encoding::percent_encode(&all, Box::leak(Box::new(set))).to_string();
    assert_eq!(String::from_utf8(out).unwrap(), expected);
}

#[test]
fn test_requests_are_put_together() {
    let (req, payload) = TestRequest::default()
        .method(Method::POST)
        .version(Version::HTTP_10)
        .header("x-test", b"1")
        .cookie(&cookie::Cookie::new("name", "value"))
        .set_payload(b"data".to_vec())
        .finish();
    assert_eq!(*req.method(), Method::POST);
    assert_eq!(req.version(), Version::HTTP_10);
    assert_eq!(req.headers().get("x-test").unwrap(), "1");
    assert_eq!(req.headers().get(COOKIE).unwrap(), "name=value");
    assert_eq!(payload, Some(b"data".to_vec()));
}

#[test]
fn test_servers_have_urls() {
    let srv = TestServer { port: 8080, client: ntex::client::Client::new() };
    assert_eq!(srv.url("/test"), "http://localhost:8080/test");
    assert_eq!(srv.url("test"), "http://localhost:8080/test");
    assert_eq!(srv.surl("/test"), "https://localhost:8080/test");
    let req = srv.request(Method::GET, "/x");
    assert_eq!(req.head.uri.port, Some(8080));
}

#[test]
fn an_error_in_a_builder_is_answered() {
    let resp = Response::build(StatusCode(200)).header("bad name", b"x").finish();
    assert_eq!(resp.status(), StatusCode(500));
    let resp = Response::build(StatusCode(200)).header("name", b"\r\n").finish();
    assert_eq!(resp.status(), StatusCode(500));
    assert_eq!(HttpError::HeaderName.error_text().len() > 0, true);
    let res: Result<Response<Body>, HttpError> = Err(HttpError::Uri);
    assert_eq!(Response::from_result(res).status(), StatusCode(500));
}

fn chunk(s: &str) -> StreamPoll {
    StreamPoll::Chunk(s.as_bytes().to_vec())
}

#[test]
fn body_skips_empty_chunks() {
    let mut body = BodyStream::new(());
    let mut ready = VecDeque::from(vec![chunk("1"), chunk(""), chunk("2")]);
    assert_eq!(body.poll_next_chunk(&mut ready), chunk("1"));
    assert_eq!(body.poll_next_chunk(&mut ready), chunk("2"));
}

#[test]
fn sized_skips_empty_chunks() {
    let mut body = SizedStream::new(2, ());
    let mut ready = VecDeque::from(vec![chunk("1"), chunk(""), chunk("2")]);
    assert_eq!(body.poll_next_chunk(&mut ready), chunk("1"));
    assert_eq!(body.poll_next_chunk(&mut ready), chunk("2"));
}

#[test]
fn a_stream_is_handed_on_in_its_order() {
    let failed = StreamPoll::Failed("bad".to_string());
    let mut body = BoxedBodyStream::new(());
    assert_eq!(body.size(), BodySize::Stream);
    let mut ready = VecDeque::from(vec![
        chunk(""),
        chunk(""),
        chunk("a"),
        failed.clone(),
        chunk(""),
        StreamPoll::Pending,
        chunk("b"),
        chunk(""),
        StreamPoll::Done,
    ]);
    for expected in [chunk("a"), failed, StreamPoll::Pending, chunk("b"), StreamPoll::Done] {
        assert_eq!(body.poll_next_chunk(&mut ready), expected);
    }
    let mut ready = VecDeque::from(vec![chunk("")]);
    assert_eq!(body.poll_next_chunk(&mut ready), StreamPoll::Pending);
    assert!(ready.is_empty());
}
