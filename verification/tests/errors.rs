use ntex::error::{BlockingError, DecodeError, IoError, IoErrorKind, ParseError, PayloadError};
use ntex::response::{HttpError, Response, ResponseError};
use ntex::types::StatusCode;

fn other(text: &str) -> IoError {
    IoError { kind: IoErrorKind::Other, text: text.to_string() }
}

#[test]
fn error_test_into_response() {
    assert!(StatusCode::from_u16(10000).is_none());
    let err = HttpError::StatusCode;
    let resp = err.error_response();
    assert_eq!(resp.status(), StatusCode(500));
}

#[test]
fn test_error_http_response() {
    let orig = other("other");
    let resp = Response::from_error(&orig);
    assert_eq!(resp.status(), StatusCode(500));
}

#[test]
fn test_payload_error() {
    let err: PayloadError = other("DecodeError").into();
    assert!(err.message().contains("DecodeError"));

    let err = PayloadError::from_blocking(BlockingError::Canceled);
    assert!(err.message().contains("Operation is canceled"));

    let err = PayloadError::from_blocking(BlockingError::Error(other("DecodeError")));
    assert!(err.message().contains("DecodeError"));

    let err = PayloadError::Incomplete(None);
    assert_eq!(
        err.message(),
        "A payload reached EOF, but is not complete. With error: None"
    );
}

fn from(from: ParseError, error: DecodeError) {
    let e = DecodeError::from(from);
    assert_eq!(e, error);
    assert!(e.message().len() >= 5);
}

#[test]
fn test_from() {
    from(ParseError::HeaderName, DecodeError::Header);
    from(ParseError::HeaderName, DecodeError::Header);
    from(ParseError::HeaderValue, DecodeError::Header);
    from(ParseError::NewLine, DecodeError::Header);
    from(ParseError::Status, DecodeError::Status);
    from(ParseError::Token, DecodeError::Header);
    from(ParseError::TooManyHeaders, DecodeError::TooLarge(0));
    from(ParseError::Version, DecodeError::Version);
}

#[test]
fn an_incomplete_payload_tells_why() {
    let err = PayloadError::Incomplete(Some(other("a\"b")));
    assert_eq!(
        err.message(),
        "A payload reached EOF, but is not complete. \
         With error: Some(Custom { kind: Other, error: \"a\\\"b\" })"
    );
}
