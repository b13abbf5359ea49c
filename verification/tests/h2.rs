use ntex::body::{BodySize, StreamPoll};
use ntex::config::DateService;
use ntex::error::{H2Error, PayloadError};
use ntex::h2::dispatcher::{Dispatcher, SendStep, ServiceResponse, CHUNK_SIZE};
use ntex::h2::payload::Payload;
use ntex::h2::{dispatcher, service};
use ntex::response::{HttpError, Response};
use ntex::h2::service::{
    build_request, head_is_all, on_body, prepare_response, Handled, MessageKind, PseudoHeaders,
    PublishService, SendBody, StreamEof, StreamOp,
};
use ntex::message::ResponseHead;
use ntex::payload::PayloadPoll;
use ntex::types::{Method, StatusCode, Version};
use ntex_http::header::{HeaderValue, CONNECTION, CONTENT_LENGTH, DATE, TRANSFER_ENCODING};
use ntex_http::HeaderMap;

fn pseudo(method: Option<Method>, path: Option<&str>) -> PseudoHeaders {
    PseudoHeaders {
        method,
        scheme: Some("https".to_string()),
        authority: Some("localhost".to_string()),
        path: path.map(|s| s.to_string()),
        status: None,
    }
}

#[test]
fn a_request_is_built_from_pseudo_headers() {
    let req = build_request(3, pseudo(Some(Method::GET), Some("/test?q=1")), HeaderMap::new(), true)
        .unwrap();
    assert_eq!(*req.method(), Method::GET);
    assert_eq!(req.version(), Version::HTTP_2);
    assert_eq!(req.path(), "/test");
    assert_eq!(req.uri().query(), Some("q=1"));
    assert_eq!(req.head().id, 3);

    assert!(matches!(
        build_request(3, pseudo(None, Some("/")), HeaderMap::new(), true),
        Err(H2Error::MissingPseudo(_))
    ));
    assert!(matches!(
        build_request(3, pseudo(Some(Method::GET), None), HeaderMap::new(), true),
        Err(H2Error::MissingPseudo(_))
    ));
}

#[test]
fn messages_go_to_their_streams() {
    let mut svc = PublishService::new(0);
    let msg = MessageKind::Headers {
        pseudo: pseudo(Some(Method::POST), Some("/")),
        headers: HeaderMap::new(),
        eof: false,
    };
    assert!(matches!(svc.on_message(1, msg), Handled::Request(_, false)));
    assert!(matches!(
        svc.on_message(1, MessageKind::Data(b"x".to_vec(), 3)),
        Handled::Feed(StreamOp::Data(d, 3)) if d == b"x"
    ));
    assert!(matches!(
        svc.on_message(2, MessageKind::Data(b"x".to_vec(), 3)),
        Handled::Ignored
    ));
    assert!(matches!(
        svc.on_message(1, MessageKind::Eof(StreamEof::Data(b"y".to_vec()))),
        Handled::Feed(StreamOp::Eof(d)) if d == b"y"
    ));
    assert!(matches!(
        svc.on_message(1, MessageKind::Data(b"x".to_vec(), 3)),
        Handled::Ignored
    ));
}

#[test]
fn a_response_head_fits_http2() {
    let mut head = ResponseHead::new(StatusCode(200), Version::HTTP_11);
    head.headers.insert(CONNECTION, HeaderValue::from_static("close"));
    head.headers.insert(TRANSFER_ENCODING, HeaderValue::from_static("chunked"));
    let mut size = BodySize::Sized(25);
    let mut date = DateService::new();
    prepare_response(&mut head, &mut size, &mut date, 0);
    assert!(!head.headers.contains_key(CONNECTION));
    assert!(!head.headers.contains_key(TRANSFER_ENCODING));
    assert_eq!(head.headers.get(CONTENT_LENGTH).unwrap(), "25");
    assert_eq!(head.headers.get(DATE).unwrap(), "Thu, 01 Jan 1970 00:00:00 GMT");
    assert!(head_is_all(BodySize::Empty, false));
    assert!(head_is_all(BodySize::Stream, true));
    assert!(!head_is_all(BodySize::Stream, false));
}

#[test]
fn bodies_are_sent_in_pieces() {
    assert!(matches!(on_body(StreamPoll::Chunk(b"x".to_vec())), SendBody::Send(d) if d == b"x"));
    assert!(matches!(on_body(StreamPoll::Chunk(Vec::new())), SendBody::Skip));
    assert!(matches!(on_body(StreamPoll::Done), SendBody::Finish));
    assert!(matches!(on_body(StreamPoll::Pending), SendBody::Pending));
    assert!(matches!(
        on_body(StreamPoll::Failed("bad".to_string())),
        SendBody::Failed(H2Error::Stream(e)) if e == "bad"
    ));

    let mut res = ServiceResponse::new();
    let data: Vec<u8> = vec![7; 2 * CHUNK_SIZE];
    assert!(matches!(
        res.on_body(StreamPoll::Chunk(data.clone())),
        SendStep::Reserve(n) if n == CHUNK_SIZE
    ));
    match res.on_capacity(10) {
        SendStep::SendAndReserve(piece, next) => {
            assert_eq!(piece, vec![7; 10]);
            assert_eq!(next, CHUNK_SIZE);
        }
        other => panic!("{:?}", other),
    }
    match res.on_capacity(4 * CHUNK_SIZE) {
        SendStep::Send(piece) => assert_eq!(piece.len(), 2 * CHUNK_SIZE - 10),
        other => panic!("{:?}", other),
    }
    assert!(matches!(res.on_body(StreamPoll::Done), SendStep::Finish));
}

#[test]
fn an_accepted_request_extends_keep_alive() {
    let mut d = Dispatcher::new(true, 5, 100);
    assert_eq!(d.ka_expire, 105);
    let req = d.accept(
        Method::GET,
        ntex::types::Uri::from_bytes(b"/x").unwrap(),
        Version::HTTP_2,
        HeaderMap::new(),
        5,
        200,
    );
    assert_eq!(req.path(), "/x");
    assert_eq!(d.ka_expire, 205);
}

#[test]
fn a_payload_stream_gives_back_what_was_fed() {
    let (tx, mut pl) = Payload::create(4);
    assert!(matches!(pl.poll_read().0, PayloadPoll::Pending));
    tx.feed_data(&mut pl, b"one".to_vec(), 3);
    tx.feed_data(&mut pl, b"two".to_vec(), 3);
    assert!(matches!(pl.poll_read().0, PayloadPoll::Data(d) if d == b"one"));
    tx.feed_eof(&mut pl, b"end".to_vec());
    assert!(matches!(pl.poll_read().0, PayloadPoll::Data(d) if d == b"two"));
    assert!(matches!(pl.poll_read().0, PayloadPoll::Data(d) if d == b"end"));
    tx.close(&mut pl);
    assert!(matches!(pl.poll_read().0, PayloadPoll::Done));

    // a sender that goes away before the end leaves the payload incomplete
    let (tx, mut pl) = Payload::create(4);
    tx.feed_data(&mut pl, b"one".to_vec(), 3);
    tx.close(&mut pl);
    assert!(matches!(pl.poll_read().0, PayloadPoll::Data(d) if d == b"one"));
    assert!(matches!(pl.poll_read().0, PayloadPoll::Failed(PayloadError::Incomplete(None))));
    let (tx, mut pl) = Payload::create(4);
    tx.set_error(&mut pl, PayloadError::Overflow);
    tx.close(&mut pl);
    assert!(matches!(pl.poll_read().0, PayloadPoll::Failed(PayloadError::Overflow)));

    let (tx, mut pl) = Payload::create(4);
    tx.set_error(&mut pl, PayloadError::Overflow);
    assert!(matches!(pl.poll_read().0, PayloadPoll::Failed(PayloadError::Overflow)));
    assert!(!tx.on_cancel(&pl));
    pl.close();
    assert!(tx.on_cancel(&pl));
}

#[test]
fn outcomes_become_answers() {
    let mut date = DateService::new();
    let res = Response::from_text("hello");
    let a = service::answer::<HttpError>(Ok(res), false, &mut date, 0);
    assert_eq!(a.status, StatusCode(200));
    assert!(!a.eof);
    assert_eq!(a.headers.get(CONTENT_LENGTH).unwrap(), "5");
    let a = service::answer::<HttpError>(Err(HttpError::Uri), true, &mut date, 0);
    assert_eq!(a.status, StatusCode(500));
    assert!(a.eof);

    let res = Response::from_text("hello");
    let a = dispatcher::answer::<HttpError>(Ok(res), &mut date, 0);
    assert_eq!(a.headers.get(CONTENT_LENGTH).unwrap(), "5");
    assert!(!a.eof);
    let a = dispatcher::answer::<HttpError>(Ok(Response::new(StatusCode(204))), &mut date, 0);
    assert!(a.eof);
    assert!(!a.headers.contains_key(CONTENT_LENGTH));
}
