use std::io::{Read, Write};

use brotli2::write::BrotliDecoder;
use flate2::read::{GzDecoder, ZlibDecoder};
use ntex::body::{Body, BodySize, ResponseBody, StreamPoll};
use ntex::encoding::coders::{decompress, ContentEncoder};
use ntex::encoding::encoder::{EncodeStep, Encoder, WriterPoll};
use ntex::encoding::ContentEncoding;
use ntex::message::ResponseHead;
use ntex::types::{StatusCode, Version};

fn plain(encoding: ContentEncoding, data: &[u8]) -> Vec<u8> {
    let mut out = Vec::new();
    match encoding {
        ContentEncoding::Deflate => {
            ZlibDecoder::new(data).read_to_end(&mut out).unwrap();
        }
        ContentEncoding::Gzip => {
            GzDecoder::new(data).read_to_end(&mut out).unwrap();
        }
        _ => {
            let mut dec = BrotliDecoder::new(Vec::new());
            dec.write_all(data).unwrap();
            out = dec.finish().unwrap();
        }
    }
    out
}

fn coded() -> [ContentEncoding; 3] {
    [ContentEncoding::Deflate, ContentEncoding::Gzip, ContentEncoding::Br]
}

#[test]
fn content_encodings_have_names() {
    assert_eq!(ContentEncoding::from(" gzip "), ContentEncoding::Gzip);
    assert_eq!(ContentEncoding::from("BR"), ContentEncoding::Br);
    assert_eq!(ContentEncoding::from("Deflate"), ContentEncoding::Deflate);
    assert_eq!(ContentEncoding::from("other"), ContentEncoding::Identity);
    assert_eq!(ContentEncoding::Br.as_str(), "br");
    assert_eq!(ContentEncoding::Gzip.as_str(), "gzip");
    assert_eq!(ContentEncoding::Deflate.as_str(), "deflate");
    assert_eq!(ContentEncoding::Identity.as_str(), "identity");
    assert_eq!(ContentEncoding::Auto.as_str(), "identity");
}

#[test]
fn what_is_encoded_decodes_to_what_was_written() {
    for encoding in coded() {
        assert!(ContentEncoder::can_encode(encoding));
        let mut enc = ContentEncoder::encoder(encoding).unwrap();
        let mut out = Vec::new();
        for piece in [b"hello ".as_ref(), b"".as_ref(), b"world".as_ref()] {
            enc.write(piece).unwrap();
            out.extend_from_slice(&enc.take());
        }
        out.extend_from_slice(&enc.finish().unwrap());
        assert_eq!(plain(encoding, &out), b"hello world");
        assert_ne!(out, b"hello world");
    }
    assert!(!ContentEncoder::can_encode(ContentEncoding::Identity));
    assert!(ContentEncoder::encoder(ContentEncoding::Auto).is_none());
}

fn head() -> ResponseHead {
    ResponseHead::new(StatusCode(200), Version::HTTP_11)
}

fn run(enc: &mut Encoder<Body>, chunks: Vec<Vec<u8>>) -> Vec<u8> {
    let mut chunks = chunks.into_iter();
    let mut out = Vec::new();
    let mut step = enc.next();
    loop {
        step = match step {
            EncodeStep::AskBody => enc.on_body(match chunks.next() {
                Some(c) => StreamPoll::Chunk(c),
                None => StreamPoll::Done,
            }),
            EncodeStep::Offload(mut coder, data) => match coder.write(&data) {
                Ok(()) => enc.on_writer(WriterPoll::Written(coder)),
                Err(e) => enc.on_writer(WriterPoll::Failed(e)),
            },
            EncodeStep::Output(b) => {
                out.extend_from_slice(&b);
                enc.next()
            }
            EncodeStep::Again => enc.next(),
            EncodeStep::Done => return out,
            EncodeStep::AskWriter | EncodeStep::Pending => panic!("stuck"),
            EncodeStep::Failed(e) => panic!("{}", e),
        };
    }
}

#[test]
fn a_response_body_is_encoded_as_it_streams() {
    for encoding in coded() {
        let mut h = head();
        let body = ResponseBody::Body(Body::Message(BodySize::Stream));
        let (body, enc) = Encoder::response(encoding, &mut h, body);
        assert_eq!(
            h.headers.get("content-encoding").unwrap().to_str().unwrap(),
            encoding.as_str()
        );
        let _ = body;
        let mut enc = enc.unwrap();
        assert_eq!(enc.size(), BodySize::Stream);
        // small and large pieces take different ways
        let large: Vec<u8> = (0..5000u32).map(|n| (n * 31 % 251) as u8).collect();
        let out = run(&mut enc, vec![b"small".to_vec(), large.clone(), b"end".to_vec()]);
        let mut expected = b"small".to_vec();
        expected.extend_from_slice(&large);
        expected.extend_from_slice(b"end");
        assert_eq!(plain(encoding, &out), expected);
    }
}

#[test]
fn a_body_is_left_alone_where_it_must_be() {
    // encoded already
    let mut h = head();
    h.headers.insert(
        ntex_http::header::CONTENT_ENCODING,
        ntex_http::HeaderValue::from_static("identity"),
    );
    let body = ResponseBody::Body(Body::Bytes(b"data".to_vec()));
    let (body, _) = Encoder::response(ContentEncoding::Gzip, &mut h, body);
    assert!(matches!(body.as_ref(), Some(Body::Bytes(b)) if b == b"data"));

    // switching protocols
    let mut h = ResponseHead::new(StatusCode(101), Version::HTTP_11);
    let body = ResponseBody::Body(Body::Message(BodySize::Stream));
    let (_, enc) = Encoder::response(ContentEncoding::Gzip, &mut h, body);
    assert!(!h.headers.contains_key("content-encoding"));
    assert!(enc.is_none() || enc.unwrap().encoder.is_none());

    // no content
    let mut h = ResponseHead::new(StatusCode(204), Version::HTTP_11);
    let body = ResponseBody::Body(Body::Message(BodySize::Stream));
    let _ = Encoder::response(ContentEncoding::Gzip, &mut h, body);
    assert!(!h.headers.contains_key("content-encoding"));
}

#[test]
fn a_failing_body_fails_the_encoded_one() {
    let mut h = head();
    let body = ResponseBody::Body(Body::Message(BodySize::Stream));
    let (_, enc) = Encoder::response(ContentEncoding::Gzip, &mut h, body);
    let mut enc = enc.unwrap();
    assert!(matches!(enc.next(), EncodeStep::AskBody));
    assert!(matches!(
        enc.on_body(StreamPoll::Failed("bad".to_string())),
        EncodeStep::Failed(e) if e == "bad"
    ));
}

#[test]
fn what_is_ready_is_taken_out_once() {
    for encoding in coded() {
        let mut enc = ContentEncoder::encoder(encoding).unwrap();
        assert!(enc.take().is_empty());
        let mut state: u64 = 1;
        let mut data: Vec<u8> = Vec::new();
        for _ in 0..1_000_000 {
            state = state.wrapping_mul(6_364_136_223_846_793_005).wrapping_add(1_442_695_040_888_963_407);
            data.push((state >> 56) as u8);
        }
        let mut out = Vec::new();
        for piece in data.chunks(250_000) {
            enc.write(piece).unwrap();
            let ready = enc.take();
            out.extend_from_slice(&ready);
            assert!(enc.take().is_empty());
        }
        // brotli holds this much back
        assert_eq!(out.is_empty(), encoding == ContentEncoding::Br);
        out.extend_from_slice(&enc.finish().unwrap());
        assert_eq!(plain(encoding, &out), data);
    }
}

#[test]
fn decompressing_gives_back_what_was_compressed() {
    let long = vec![b'x'; 100_000];
    let pieces: [&[u8]; 4] = [b"one", b"", b"two", &long];
    for encoding in [ContentEncoding::Gzip, ContentEncoding::Deflate, ContentEncoding::Br] {
        let mut enc = ContentEncoder::encoder(encoding).unwrap();
        let mut stream = Vec::new();
        for piece in pieces {
            enc.write(piece).unwrap();
            stream.extend(enc.take());
        }
        stream.extend(enc.finish().unwrap());
        assert_ne!(stream, pieces.concat());
        assert_eq!(decompress(encoding, &stream), Some(pieces.concat()));
        // bytes that are no such stream
        assert_eq!(decompress(encoding, b"one two"), None);
        assert_eq!(decompress(encoding, &[0xff; 64]), None);
        // nothing at all
        let stream = ContentEncoder::encoder(encoding).unwrap().finish().unwrap();
        assert_eq!(decompress(encoding, &stream), Some(Vec::new()));
    }
    assert_eq!(decompress(ContentEncoding::Identity, b"one"), Some(b"one".to_vec()));
}

#[test]
fn large_content_is_given_back() {
    // some that repeats itself and some that does not
    let mut data = vec![0u8; 6_000_000];
    let mut x: u32 = 1;
    for b in &mut data[1_000_000..2_000_000] {
        x = x.wrapping_mul(1_664_525).wrapping_add(1_013_904_223);
        *b = (x >> 24) as u8;
    }
    for encoding in [ContentEncoding::Gzip, ContentEncoding::Deflate, ContentEncoding::Br] {
        let mut enc = ContentEncoder::encoder(encoding).unwrap();
        let mut stream = Vec::new();
        for piece in data.chunks(70_000) {
            enc.write(piece).unwrap();
            stream.extend(enc.take());
        }
        stream.extend(enc.finish().unwrap());
        assert!(decompress(encoding, &stream) == Some(data.clone()));
    }
}
