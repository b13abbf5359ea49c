//! Websockets of the client.

use cookie::Cookie;
use vstd::prelude::*;
use vstd::utf8::encode_utf8;

use crate::client::builder::base64_text;
use crate::client::error::InvalidUrl;
use crate::client::ws::{
    cookie_line, cookie_pair, is_answer_error, is_handshake, is_ws_request, time_limit, url_error,
    with_commas, WsClientError, WsRequest,
};
use crate::cookies::{jar_changes, lists_changes};
use crate::headers::{key, values_of, Fields};
use crate::message::{type_of, ConnectionType, RequestHead, ResponseHead};
use crate::request::contains_ignore_case;
use crate::text::{ascii, eq_ignore_case, is_text};
use crate::time::Millis;
use crate::types::{Method, UriParts, Version};

verus! {

/// A websocket can be opened to every target with a host whose scheme is `http`,
/// `https`, `ws` or `wss`, and to no other: without a host, without a scheme and with
/// any other scheme there is an error of its own.
pub proof fn schemes_of_websockets(uri: UriParts)
    ensures
        uri.host is Some && uri.scheme == Some("http"@) ==> url_error(uri) is None,
        uri.host is Some && uri.scheme == Some("https"@) ==> url_error(uri) is None,
        uri.host is Some && uri.scheme == Some("ws"@) ==> url_error(uri) is None,
        uri.host is Some && uri.scheme == Some("wss"@) ==> url_error(uri) is None,
        uri.host is None <==> url_error(uri) == Some(InvalidUrl::MissingHost),
        uri.host is Some && uri.scheme is None <==> url_error(uri) == Some(
            InvalidUrl::MissingScheme,
        ),
        url_error(uri) is None ==> (uri.scheme matches Some(s) && (s == "http"@ || s == "https"@
            || s == "ws"@ || s == "wss"@)),
        url_error(uri) matches Some(e) ==> e == InvalidUrl::MissingHost || e
            == InvalidUrl::MissingScheme || e == InvalidUrl::UnknownScheme,
{
}

proof fn names_are_keys()
    ensures
        key("host"@) == "host"@,
        key("cookie"@) == "cookie"@,
        key("origin"@) == "origin"@,
        key("upgrade"@) == "upgrade"@,
        key("connection"@) == "connection"@,
        key("sec-websocket-version"@) == "sec-websocket-version"@,
        key("sec-websocket-protocol"@) == "sec-websocket-protocol"@,
        key("sec-websocket-key"@) == "sec-websocket-key"@,
        key("sec-websocket-accept"@) == "sec-websocket-accept"@,
        "host"@.len() == 4,
        "cookie"@.len() == 6 && "cookie"@[0] == 'c',
        "origin"@.len() == 6 && "origin"@[0] == 'o',
        "upgrade"@.len() == 7,
        "sec-websocket-version"@.len() == 21,
        "sec-websocket-protocol"@.len() == 22,
        "sec-websocket-key"@.len() == 17,
{
    reveal_strlit("host");
    reveal_strlit("cookie");
    reveal_strlit("origin");
    reveal_strlit("upgrade");
    reveal_strlit("connection");
    reveal_strlit("sec-websocket-version");
    reveal_strlit("sec-websocket-protocol");
    reveal_strlit("sec-websocket-key");
    reveal_strlit("sec-websocket-accept");
    assert(key("host"@) =~= "host"@);
    assert(key("cookie"@) =~= "cookie"@);
    assert(key("origin"@) =~= "origin"@);
    assert(key("upgrade"@) =~= "upgrade"@);
    assert(key("connection"@) =~= "connection"@);
    assert(key("sec-websocket-version"@) =~= "sec-websocket-version"@);
    assert(key("sec-websocket-protocol"@) =~= "sec-websocket-protocol"@);
    assert(key("sec-websocket-key"@) =~= "sec-websocket-key"@);
    assert(key("sec-websocket-accept"@) =~= "sec-websocket-accept"@);
}

/// The name is one that a handshake sets.
pub open spec fn set_by_handshake(name: Seq<char>) -> bool {
    ||| name == "host"@
    ||| name == "cookie"@
    ||| name == "origin"@
    ||| name == "upgrade"@
    ||| name == "sec-websocket-version"@
    ||| name == "sec-websocket-protocol"@
    ||| name == "sec-websocket-key"@
}

/// A handshake asks for a websocket of version 13 under its key, with the host of
/// the target unless the request names one, and with the origin, the protocols and
/// the cookies of the request where it has some. All other headers and the method,
/// the target and the version are those of the request. Unless the request was
/// marked otherwise, the connection is to be upgraded.
pub proof fn handshake_asks_for_a_websocket(r: WsRequest, sec_key: Seq<u8>, head: RequestHead)
    requires
        is_handshake(r, sec_key, head),
    ensures
        ({
            let f = head.fields();
            let g = r.head.fields();
            &&& values_of(f, "upgrade"@) == seq![ascii("websocket"@)]
            &&& values_of(f, "sec-websocket-version"@) == seq![ascii("13"@)]
            &&& values_of(f, "sec-websocket-key"@) == seq![encode_utf8(base64_text(sec_key))]
            &&& g.contains_key("host"@) ==> values_of(f, "host"@) == values_of(g, "host"@)
            &&& !g.contains_key("host"@) ==> values_of(f, "host"@) == seq![
                encode_utf8(r.head.uri@.host->0),
            ]
            &&& r.origin matches Some(o) ==> values_of(f, "origin"@) == seq![o@]
            &&& r.origin is None ==> values_of(f, "origin"@) == values_of(g, "origin"@)
            &&& r.protocols matches Some(p) ==> values_of(f, "sec-websocket-protocol"@) == seq![
                encode_utf8(p@),
            ]
            &&& r.protocols is None ==> values_of(f, "sec-websocket-protocol"@) == values_of(
                g,
                "sec-websocket-protocol"@,
            )
            &&& r.cookies is None ==> values_of(f, "cookie"@) == values_of(g, "cookie"@)
            &&& r.cookies matches Some(jar) ==> exists|l: Seq<Cookie<'static>>| #[trigger]
                lists_changes(l, jar_changes(jar)) && values_of(f, "cookie"@) == seq![
                    cookie_line(l),
                ]
            &&& forall|name: Seq<char>|
                !set_by_handshake(name) ==> #[trigger] values_of(f, name) == values_of(g, name)
            &&& head.method == r.head.method
            &&& head.uri == r.head.uri
            &&& head.version == r.head.version
            &&& head.flags.upgrade
            &&& !r.head.flags.close && !r.head.flags.keep_alive ==> type_of(
                head.flags,
                head.version,
            ) == ConnectionType::Upgrade
        }),
{
    names_are_keys();
    let f = head.fields();
    let g = r.head.fields();
    if let Some(jar) = r.cookies {
        let l = choose|l: Seq<Cookie<'static>>| #[trigger]
            lists_changes(l, jar_changes(jar)) && f == crate::client::ws::handshake_fields(
                r,
                sec_key,
                crate::headers::replaced(
                    if g.contains_key("host"@) {
                        g
                    } else {
                        crate::headers::replaced(g, "host"@, encode_utf8(r.head.uri@.host->0))
                    },
                    "cookie"@,
                    cookie_line(l),
                ),
            );
        assert(values_of(f, "cookie"@) == seq![cookie_line(l)]);
    }
    assert forall|name: Seq<char>| !set_by_handshake(name) implies #[trigger] values_of(f, name)
        == values_of(g, name) by {}
}

/// A websocket is open where the answer is 101, upgrades the connection to a
/// websocket and accepts the key, and nowhere else: each way in which it can be
/// wrong has an error of its own, and the first one is told.
pub proof fn answers_that_open(head: ResponseHead, expected: Seq<u8>, r: Option<WsClientError>)
    requires
        is_answer_error(head, expected, r),
    ensures
        ({
            let f = head.fields();
            let up = values_of(f, "upgrade"@);
            let con = values_of(f, "connection"@);
            let acc = values_of(f, "sec-websocket-accept"@);
            let switches = f.contains_key("upgrade"@) && is_text(up[0]) && contains_ignore_case(
                up[0],
                ascii("websocket"@),
            );
            let upgrades = f.contains_key("connection"@) && is_text(con[0])
                && contains_ignore_case(con[0], ascii("upgrade"@));
            let accepts = f.contains_key("sec-websocket-accept"@) && acc[0] == expected;
            &&& r is None <==> head.status.0 == 101 && switches && upgrades && accepts
            &&& (r matches Some(WsClientError::InvalidResponseStatus(s)) && s == head.status)
                <==> head.status.0 != 101
            &&& (r matches Some(WsClientError::InvalidUpgradeHeader)) <==> head.status.0 == 101
                && !switches
            &&& r matches Some(WsClientError::MissingConnectionHeader) ==> con.len() == 0
            &&& r matches Some(WsClientError::InvalidConnectionHeader(v)) ==> v@ == con[0]
                && !upgrades
            &&& r matches Some(WsClientError::MissingWebSocketAcceptHeader) ==> acc.len() == 0
            &&& r matches Some(WsClientError::InvalidChallengeResponse(e, v)) ==> e@ == expected
                && v@ == acc[0] && acc[0] != expected
        }),
{
    names_are_keys();
}

/// A text is held by another, whatever their case, where it stands somewhere in it.
pub proof fn holding_means(s: Seq<u8>, text: Seq<u8>)
    ensures
        contains_ignore_case(s, text) <==> exists|i: int|
            0 <= i && i + text.len() <= s.len() && eq_ignore_case(
                #[trigger] s.subrange(i, i + text.len()),
                text,
            ),
{
}

/// A fresh request asks for its target with the method `GET` and version 1.1, has no
/// frame larger than 64 KiB, and masks its frames.
pub proof fn fresh_requests(r: WsRequest, url: Seq<char>, f: Fields, timeout: Millis)
    requires
        is_ws_request(r, url, f, timeout),
    ensures
        r.head.method == Method::GET,
        r.head.version == Version::HTTP_11,
        type_of(r.head.flags, r.head.version) == ConnectionType::KeepAlive,
        r.head.fields() == f,
        crate::types::parsed_uri(encode_utf8(url)) matches Ok(uri) ==> r.err is None && r.head.uri@
            == uri,
        crate::types::parsed_uri(encode_utf8(url)) is Err ==> r.err is Some,
        r.max_size == 64 * 1024,
        !r.server_mode,
        r.timeout == timeout,
        r.origin is None && r.protocols is None && r.cookies is None && r.addr is None,
{
}

/// Only a time limit of zero is none.
pub proof fn zero_is_no_limit(t: Millis)
    ensures
        time_limit(t) is None <==> t.0 == 0,
        time_limit(t) matches Some(limit) ==> limit == t,
{
}

/// A list of protocols that grows by one grows by a comma and its name.
pub proof fn protocols_are_listed(texts: Seq<&str>, text: &str)
    ensures
        texts.len() == 0 ==> with_commas(texts.push(text)) == text@,
        texts.len() > 0 ==> with_commas(texts.push(text)) == with_commas(texts) + seq![','] + text@,
{
    reveal_strlit(",");
    assert(","@ =~= seq![',']);
    assert(texts.push(text).drop_last() =~= texts);
}

/// A list of cookies that grows by one grows by a separator, its name and its value.
pub proof fn cookies_are_listed(l: Seq<Cookie<'static>>, c: Cookie<'static>)
    ensures
        l.len() == 0 ==> cookie_line(l.push(c)) == cookie_pair(c),
        l.len() > 0 ==> cookie_line(l.push(c)) == cookie_line(l) + seq![59u8, 32] + cookie_pair(c),
        cookie_pair(c) == crate::helpers::percent_encoded(
            encode_utf8(crate::cookies::cookie_name(c)),
        ) + seq![61u8] + crate::helpers::percent_encoded(
            encode_utf8(crate::cookies::cookie_value(c)),
        ),
{
    assert(l.push(c).drop_last() =~= l);
}

} // verus!
