use cookie::time::{Date, Month, OffsetDateTime, UtcOffset};
use cookie::Cookie;
use ntex::body::Body;
use ntex::response::{HttpError, Response, ResponseBuilder};
use ntex::types::StatusCode;
use ntex_http::header::{HeaderValue, CONTENT_TYPE, SET_COOKIE, UPGRADE};

fn ok() -> ResponseBuilder {
    Response::build(StatusCode(200))
}

fn bytes_of(resp: &Response<Body>) -> &[u8] {
    match resp.body().as_ref() {
        Some(Body::Bytes(b)) => b,
        _ => panic!("no bytes"),
    }
}

#[test]
fn test_debug() {
    let resp = ok()
        .header("cookie", b"cookie1=value1; ")
        .header("cookie", b"cookie2=value2; ")
        .finish();
    let dbg = format!("{:?}", resp);
    assert!(dbg.contains("Response"));

    let mut resp = ok();
    resp.header("cookie", b"cookie1=value1; ");
    resp.header("cookie", b"cookie2=value2; ");
    let dbg = format!("{:?}", resp);
    assert!(dbg.contains("ResponseBuilder"));
}

#[test]
fn test_response_cookies() {
    let removed = Cookie::new("cookie1", "value1");
    let resp = ok()
        .cookie(
            &Cookie::build(("name", "value"))
                .domain("www.rust-lang.org")
                .path("/test")
                .http_only(true)
                .max_age(cookie::time::Duration::days(1))
                .build(),
        )
        .del_cookie(&removed)
        .finish();

    let mut val: Vec<String> = resp
        .headers()
        .get_all(SET_COOKIE)
        .map(|v| v.to_str().unwrap().to_owned())
        .collect();
    val.sort();
    assert!(val[0].starts_with("cookie1=; Max-Age=0;"));
    assert_eq!(
        val[1],
        "name=value; HttpOnly; Path=/test; Domain=www.rust-lang.org; Max-Age=86400"
    );
}

#[test]
fn test_update_response_cookies() {
    let mut r = ok().cookie(&Cookie::new("original", "val100")).finish();

    r.add_cookie(&Cookie::new("cookie2", "val200")).unwrap();
    r.add_cookie(&Cookie::new("cookie2", "val250")).unwrap();
    r.add_cookie(&Cookie::new("cookie3", "val300")).unwrap();

    let mut count = 0;
    let mut iter = r.cookies();
    while iter.next().is_some() {
        count += 1;
    }
    assert_eq!(count, 4);
    r.del_cookie("cookie2");

    let mut iter = r.cookies();
    let v = iter.next().unwrap();
    assert_eq!((v.name(), v.value()), ("cookie3", "val300"));
    let v = iter.next().unwrap();
    assert_eq!((v.name(), v.value()), ("original", "val100"));
}

#[test]
fn removed_cookies_are_counted() {
    let mut r = ok().cookie(&Cookie::new("a", "1")).finish();
    r.add_cookie(&Cookie::new("b", "2")).unwrap();
    r.add_cookie(&Cookie::new("a", "3")).unwrap();
    assert_eq!(r.del_cookie("c"), 0);
    assert_eq!(r.del_cookie("a"), 2);
    assert_eq!(r.cookies().next().unwrap().name(), "b");
    assert_eq!(r.del_cookie("b"), 1);
    assert!(r.cookies().next().is_none());
    assert!(!r.headers().contains_key(SET_COOKIE));
}

#[test]
fn test_basic_builder() {
    let resp = ok().header("X-TEST", b"value").finish();
    assert_eq!(resp.status(), StatusCode(200));
}

#[test]
fn test_upgrade() {
    let resp = Response::build(StatusCode(200)).upgrade(b"websocket").finish();
    assert!(resp.upgrade());
    assert_eq!(
        resp.headers().get(UPGRADE).unwrap(),
        HeaderValue::from_static("websocket")
    );
}

#[test]
fn test_force_close() {
    let resp = Response::build(StatusCode(200)).force_close().finish();
    assert!(!resp.keep_alive())
}

#[test]
fn test_content_type() {
    let resp = Response::build(StatusCode(200))
        .content_type(b"text/plain")
        .body(Body::Empty);
    assert_eq!(resp.headers().get(CONTENT_TYPE).unwrap(), "text/plain")
}

fn list_text() -> Result<String, String> {
    serde_json::to_string(&vec!["v1", "v2", "v3"]).map_err(|e| e.to_string())
}

#[test]
fn test_json() {
    let resp = Response::build(StatusCode(200)).json(list_text());
    let ct = resp.headers().get(CONTENT_TYPE).unwrap();
    assert_eq!(ct, HeaderValue::from_static("application/json"));
    assert_eq!(bytes_of(&resp), b"[\"v1\",\"v2\",\"v3\"]");
}

#[test]
fn test_json_ct() {
    let resp = Response::build(StatusCode(200))
        .header("content-type", b"text/json")
        .json(list_text());
    let ct = resp.headers().get(CONTENT_TYPE).unwrap();
    assert_eq!(ct, HeaderValue::from_static("text/json"));
    assert_eq!(bytes_of(&resp), b"[\"v1\",\"v2\",\"v3\"]");
}

#[test]
fn test_serde_json_in_body() {
    let mut object = serde_json::Map::new();
    object.insert(
        "test-key".to_string(),
        serde_json::Value::String("test-value".to_string()),
    );
    let value = serde_json::Value::Object(object);
    let resp = Response::build(StatusCode(200)).body(Body::from_text(&value.to_string()));
    assert_eq!(bytes_of(&resp), br#"{"test-key":"test-value"}"#);
}

fn is_answer(resp: &Response<Body>, content_type: &'static str) {
    assert_eq!(resp.status(), StatusCode(200));
    assert_eq!(
        resp.headers().get(CONTENT_TYPE).unwrap(),
        HeaderValue::from_static(content_type)
    );
    assert_eq!(resp.status(), StatusCode(200));
    assert_eq!(bytes_of(resp), b"test");
}

#[test]
fn response_test_into_response() {
    let resp = Response::from_text("test");
    is_answer(&resp, "text/plain; charset=utf-8");

    let resp = Response::from_bytes(b"test".as_ref());
    is_answer(&resp, "application/octet-stream");

    let resp = Response::from_text(&"test".to_owned());
    is_answer(&resp, "text/plain; charset=utf-8");

    let owned = "test".to_owned();
    let resp = Response::from_text(&owned);
    is_answer(&resp, "text/plain; charset=utf-8");

    let b = b"test".to_vec();
    let resp = Response::from_bytes(&b);
    is_answer(&resp, "application/octet-stream");

    let b = b"test".to_vec();
    let resp = Response::from_bytes(&b);
    is_answer(&resp, "application/octet-stream");

    let b = "test".to_string().into_bytes();
    let resp = Response::from_bytes(&b);
    is_answer(&resp, "application/octet-stream");
}

#[test]
fn test_into_builder() {
    let mut resp = Response::from_text("test");
    assert_eq!(resp.status(), StatusCode(200));

    resp.add_cookie(&Cookie::new("cookie1", "val100")).unwrap();
    let (resp, _) = resp.into_parts();

    let mut builder = ResponseBuilder::from_head(resp.head());
    let resp = builder.status(StatusCode(400)).finish();
    assert_eq!(resp.status(), StatusCode(400));

    let cookie = resp.cookies().next().unwrap();
    assert_eq!((cookie.name(), cookie.value()), ("cookie1", "val100"));

    let mut builder = ResponseBuilder::from_response(resp);
    let resp = builder.status(StatusCode(400)).finish();
    assert_eq!(resp.status(), StatusCode(400));

    let cookie = resp.cookies().next().unwrap();
    assert_eq!((cookie.name(), cookie.value()), ("cookie1", "val100"));
}

#[test]
fn closures_see_the_builder() {
    let resp = ok()
        .if_true(true, |b| {
            b.header("x-yes", b"1");
        })
        .if_true(false, |b| {
            b.header("x-no", b"1");
        })
        .if_some(Some(404u16), |code, b| {
            b.status(StatusCode(code));
        })
        .if_some(None::<u16>, |code, b| {
            b.status(StatusCode(code));
        })
        .finish();
    assert_eq!(resp.status(), StatusCode(404));
    assert!(resp.headers().contains_key("x-yes"));
    assert!(!resp.headers().contains_key("x-no"));
}

#[test]
fn a_body_is_made_of_head_and_body() {
    let resp = Response::from_text("abc").map_body(|head, body| {
        head.status = StatusCode(201);
        match body.as_ref() {
            Some(Body::Bytes(b)) => ntex::body::ResponseBody::Body(b.len()),
            _ => panic!("no bytes"),
        }
    });
    assert_eq!(resp.status(), StatusCode(201));
    assert_eq!(resp.body().as_ref(), Some(&3));
}

/// Midnight of the first day that a date can name, an hour east of Greenwich.
fn before_all_dates() -> OffsetDateTime {
    let day = Date::from_calendar_date(-9999, Month::January, 1).unwrap();
    day.midnight().assume_offset(UtcOffset::from_hms(1, 0, 0).unwrap())
}

#[test]
fn a_cookie_whose_expiry_has_no_date_is_refused() {
    let mut cookie = Cookie::new("a", "1");
    cookie.set_expires(before_all_dates());
    let mut r = Response::new(StatusCode(200));
    assert_eq!(r.add_cookie(&cookie), Err(HttpError::HeaderValue));
    assert!(r.headers().get(SET_COOKIE).is_none());

    let r = ResponseBuilder::new(StatusCode(200)).cookie(&cookie).finish();
    assert_eq!(r.status(), StatusCode(500));

    let mut cookie = Cookie::new("a", "1");
    cookie.set_expires(OffsetDateTime::UNIX_EPOCH);
    let mut r = Response::new(StatusCode(200));
    assert_eq!(r.add_cookie(&cookie), Ok(()));
    assert_eq!(
        r.headers().get(SET_COOKIE).unwrap(),
        "a=1; Expires=Thu, 01 Jan 1970 00:00:00 GMT"
    );
}
