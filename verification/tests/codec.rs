use ntex::config::{HttpServiceConfig, KeepAlive};
use ntex::h1::codec::Codec;
use ntex::h1::decoder::{PayloadItem, PayloadType};
use ntex::types::Method;

#[test]
fn codec_test_http_request_chunked_payload_and_next_message() {
    let cfg = HttpServiceConfig::new();

    let mut codec = Codec::new(0, cfg);
    assert!(codec.label().contains("h1::Codec"));

    let mut buf = "GET /test HTTP/1.1\r\n\
         transfer-encoding: chunked\r\n\r\n"
        .as_bytes()
        .to_vec();
    let (req, pl) = codec.decode(&mut buf).unwrap().unwrap();
    let PayloadType::Payload(mut pl) = pl else { panic!() };

    assert_eq!(*req.method(), Method::GET);
    assert!(req.chunked().unwrap());

    buf.extend_from_slice(
        b"4\r\ndata\r\n4\r\nline\r\n0\r\n\r\n\
           POST /test2 HTTP/1.1\r\n\
           transfer-encoding: chunked\r\n\r\n",
    );

    let msg = pl.decode(&mut buf).unwrap().unwrap();
    assert_eq!(msg, PayloadItem::Chunk(b"data".to_vec()));

    let msg = pl.decode(&mut buf).unwrap().unwrap();
    assert_eq!(msg, PayloadItem::Chunk(b"line".to_vec()));

    let msg = pl.decode(&mut buf).unwrap().unwrap();
    assert_eq!(msg, PayloadItem::Eof);

    // decode next message
    let (req, _pl) = codec.decode(&mut buf).unwrap().unwrap();
    assert_eq!(*req.method(), Method::POST);
    assert!(req.chunked().unwrap());

    let mut codec = Codec::new(0, cfg);
    let mut buf = "GET /test HTTP/1.1\r\n\
         connection: upgrade\r\n\r\n"
        .as_bytes()
        .to_vec();
    let _item = codec.decode(&mut buf).unwrap().unwrap();
    assert!(codec.upgrade());
    assert!(!codec.keepalive());
    codec.reset_upgrade();
    assert!(codec.upgrade());
    assert!(!codec.keepalive());

    let cfg = HttpServiceConfig::new().set_keepalive(KeepAlive::Disabled);
    let codec = Codec::new(0, cfg);
    assert!(!codec.upgrade());
    assert!(!codec.keepalive());
}
