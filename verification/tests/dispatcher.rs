use ntex::body::{Body, BodySize, MessageBody, NextChunk, StreamPoll};
use ntex::config::{DateService, HttpServiceConfig, KeepAlive};
use ntex::error::{IoError, IoErrorKind, PayloadError};
use ntex::h1::client::ClientCodec;
use ntex::h1::control::{Control, ControlResult, DefaultControlService, Reason, ServiceDisconnectReason};
use ntex::h1::decoder::PayloadDecoder;
use ntex::h1::dispatcher::{
    Disconnect, Effects, IoStatus, Next, PayloadFault, PayloadOp, Received, StreamStatus,
};
use ntex::h1::machine::{Ask, Event, IoView, Machine, Stage};
use ntex::h1::timer::{Timer, TimerOp};
use ntex::h1::ProtocolError;
use ntex::message::ResponseHead;
use ntex::payload::Payload;
use ntex::request::Request;
use ntex::response::Response;
use ntex::time::Seconds;
use ntex::types::StatusCode;

/// What the service does with a request.
#[derive(Clone, Copy, PartialEq)]
enum Svc {
    Fine,
    Text(&'static str),
    /// Reads the payload to its end first.
    ReadAll,
    /// Drops the payload.
    Drop(&'static str),
    Fail(&'static str),
    Hold,
}

/// A connection in memory.
struct Sim {
    m: Machine,
    fx: Effects,
    rd: Vec<u8>,
    wr: Vec<u8>,
    sent: Vec<u8>,
    date: DateService,
    closed: bool,
    err: Option<IoError>,
    fired: bool,
    timer: Option<u16>,
    blocked: bool,
    active: bool,
    shutdown: bool,
    stream_closed: bool,
    stream_full: bool,
    delivered: Vec<PayloadOp>,
    svc: Svc,
    hold_control: bool,
    refuse: bool,
    requests: Vec<String>,
    told: Vec<String>,
    request: Option<Request>,
    control: Option<Control<IoError>>,
    body: Option<Body>,
    detached: bool,
}

fn text_of(msg: &Control<IoError>) -> String {
    match msg {
        Control::Connect(_) => "connect".to_string(),
        Control::Request(_) => "request".to_string(),
        Control::Upgrade(_) => "upgrade".to_string(),
        Control::Expect(_) => "expect".to_string(),
        Control::Disconnect(reason) => match reason {
            Reason::Service(s) => format!("service {:?}", s.reason()),
            Reason::Error(_) => "error".to_string(),
            Reason::ProtocolError(e) => format!("protocol {}", e.get_ref().message()),
            Reason::PeerGone(e) => match e.get_ref() {
                Some(e) => format!("peer {}", e.text),
                None => "peer".to_string(),
            },
            Reason::KeepAlive(k) => format!("keep-alive {}", k.is_enabled()),
        },
    }
}

impl Sim {
    fn new(cfg: HttpServiceConfig, svc: Svc) -> Sim {
        let mut fx = Effects::new();
        let m = Machine::new(0, cfg, &mut fx);
        let mut sim = Sim {
            m,
            fx,
            rd: Vec::new(),
            wr: Vec::new(),
            sent: Vec::new(),
            date: DateService::new(),
            closed: false,
            err: None,
            fired: false,
            timer: None,
            blocked: false,
            active: true,
            shutdown: false,
            stream_closed: false,
            stream_full: false,
            delivered: Vec::new(),
            svc,
            hold_control: false,
            refuse: false,
            requests: Vec::new(),
            told: Vec::new(),
            request: None,
            control: None,
            body: None,
            detached: false,
        };
        sim.apply();
        sim
    }

    fn apply(&mut self) {
        for op in std::mem::take(&mut self.fx.timer) {
            match op {
                TimerOp::Start(s) => self.timer = Some(s.0),
                TimerOp::Stop => self.timer = None,
                TimerOp::Notify => self.fired = true,
            }
        }
        self.delivered.append(&mut self.fx.payload);
        if self.fx.close {
            self.fx.close = false;
        }
    }

    fn write(&mut self, data: &str) {
        self.rd.extend_from_slice(data.as_bytes());
    }

    fn backpressure(&self) -> bool {
        self.blocked && !self.wr.is_empty()
    }

    fn view(&self) -> IoView {
        IoView {
            shutdown: self.shutdown,
            active: self.active,
            backpressure: self.backpressure(),
            payload_closed: self.stream_closed,
            buffered: self.rd.len() as u32,
            unused: Seconds(self.timer.unwrap_or(0)),
            now: 0,
        }
    }

    fn status(&mut self) -> IoStatus {
        if self.closed {
            IoStatus::PeerGone(self.err.take())
        } else if self.fired {
            self.fired = false;
            IoStatus::KeepAlive
        } else if self.backpressure() {
            IoStatus::WriteBackpressure
        } else {
            IoStatus::Pending
        }
    }

    fn nothing<T>(&mut self, consumed: usize) -> Received<T> {
        if self.closed {
            Received::PeerGone(self.err.take())
        } else if self.fired {
            self.fired = false;
            Received::KeepAlive
        } else if self.backpressure() {
            Received::WriteBackpressure
        } else {
            Received::Decoded(None, consumed as u32, self.rd.len() as u32)
        }
    }

    fn recv_request(&mut self) -> Event<IoError> {
        let before = self.rd.len();
        Event::Request(match self.m.d.codec.decode(&mut self.rd) {
            Ok(Some(item)) => Received::Decoded(
                Some(item),
                (before - self.rd.len()) as u32,
                self.rd.len() as u32,
            ),
            Ok(None) => self.nothing(before - self.rd.len()),
            Err(e) => Received::Decoder(e),
        })
    }

    fn recv_payload(&mut self) -> Event<IoError> {
        let before = self.rd.len();
        Event::Payload(match self.m.d.payload.as_mut().unwrap().decode(&mut self.rd) {
            Ok(Some(item)) => Received::Decoded(
                Some(item),
                (before - self.rd.len()) as u32,
                self.rd.len() as u32,
            ),
            Ok(None) => self.nothing(before - self.rd.len()),
            Err(e) => Received::Decoder(e),
        })
    }

    fn poll_service(&mut self) -> Event<IoError> {
        let done = match self.svc {
            Svc::Hold => false,
            Svc::ReadAll => {
                self.request.as_ref().unwrap().payload == Payload::NoPayload
                    || self
                        .delivered
                        .iter()
                        .any(|op| matches!(op, PayloadOp::Eof | PayloadOp::Error(_)))
            }
            _ => true,
        };
        if !done {
            return Event::Service(None);
        }
        self.request = None;
        let body = match self.svc {
            Svc::Fail(text) => {
                return Event::Service(Some(Err(IoError {
                    kind: IoErrorKind::Other,
                    text: text.to_string(),
                })));
            }
            Svc::Text(text) => Body::from_text(text),
            Svc::Drop(text) => {
                self.stream_closed = true;
                Body::from_text(text)
            }
            _ => Body::Empty,
        };
        self.delivered.clear();
        let head = Response::new(StatusCode(200)).head;
        let size = body.size();
        self.body = Some(body);
        Event::Service(Some(Ok((head, size))))
    }

    fn poll_control(&mut self) -> Event<IoError> {
        if self.hold_control {
            return Event::Control(None);
        }
        let msg = self.control.take().unwrap();
        let result = match msg {
            Control::Request(req) if self.refuse => {
                req.fail_with(Response::new(StatusCode(403))).result
            }
            msg => DefaultControlService.call(msg).result,
        };
        Event::Control(Some(result))
    }

    /// Polls the connection; says whether it has ended.
    fn poll(&mut self) -> bool {
        let mut ev = Event::Wake;
        loop {
            let view = self.view();
            let step = self.m.resume(ev, &view, &mut self.wr, &mut self.date, &mut self.fx);
            self.apply();
            if step.body.is_some() {
                self.body = step.body;
            }
            if step.detach {
                self.detached = true;
            }
            ev = match step.ask {
                Ask::Wait => {
                    if !self.blocked {
                        self.sent.append(&mut self.wr);
                    }
                    return false;
                }
                Ask::Done => return true,
                Ask::CallService(req) => {
                    self.requests.push(req.path().to_string());
                    self.request = Some(req);
                    self.poll_service()
                }
                Ask::PollService => self.poll_service(),
                Ask::CallControl(msg) => {
                    self.told.push(text_of(&msg));
                    self.control = Some(msg);
                    self.poll_control()
                }
                Ask::PollControl => self.poll_control(),
                Ask::Continue(req) => {
                    self.wr.extend_from_slice(b"HTTP/1.1 100 Continue\r\n\r\n");
                    Event::Continue(req, None)
                }
                Ask::Status => Event::Status(self.status()),
                Ask::Request => self.recv_request(),
                Ask::Stream => Event::Stream(if self.stream_closed {
                    StreamStatus::Dropped
                } else if self.stream_full {
                    StreamStatus::Pending
                } else {
                    StreamStatus::Ready
                }),
                Ask::Payload => self.recv_payload(),
                Ask::Flush => {
                    if self.backpressure() {
                        Event::Flush(None)
                    } else {
                        self.sent.append(&mut self.wr);
                        Event::Flush(Some(Ok(())))
                    }
                }
                Ask::Body => Event::Body(match self.body.as_mut().unwrap().next_chunk() {
                    NextChunk::Done => StreamPoll::Done,
                    NextChunk::Chunk(b) => StreamPoll::Chunk(b),
                    NextChunk::AskStream => StreamPoll::Pending,
                }),
                Ask::Shutdown => {
                    if !self.blocked {
                        self.sent.append(&mut self.wr);
                    }
                    self.active = false;
                    Event::Shutdown(true)
                }
            };
        }
    }

    fn output(&mut self) -> Vec<u8> {
        std::mem::take(&mut self.sent)
    }

    fn disconnects(&self) -> usize {
        self.told
            .iter()
            .filter(|t| !matches!(t.as_str(), "request" | "expect" | "upgrade"))
            .count()
    }
}

fn usual() -> HttpServiceConfig {
    HttpServiceConfig::new()
        .set_keepalive(KeepAlive::Timeout(Seconds(5)))
        .set_client_timeout(Seconds(1))
}

fn load(decoder: &mut ClientCodec, buf: &mut Vec<u8>) -> ResponseHead {
    decoder.decode(buf).unwrap().unwrap()
}

#[test]
fn an_http10_request_is_answered_in_its_version() {
    let mut h1 = Sim::new(usual(), Svc::Fine);
    h1.write("GET /test HTTP/1.0\r\n\r\n");
    assert!(h1.poll());
    assert_eq!(&h1.output()[..15], b"HTTP/1.0 200 OK");
    assert_eq!(h1.told, vec!["request", "keep-alive false"]);
}

#[test]
fn a_malformed_request_is_answered_and_ends_the_connection() {
    let mut h1 = Sim::new(usual(), Svc::Fine);
    h1.write("GET /test HTTP/1\r\n\r\n");
    assert!(h1.poll());
    assert!(!h1.active);
    assert_eq!(&h1.output()[..26], b"HTTP/1.1 400 Bad Request\r\n");
    assert!(h1.requests.is_empty());
}

#[test]
fn pipelined_requests_are_answered_in_order() {
    let mut h1 = Sim::new(usual(), Svc::Fine);
    let mut decoder = ClientCodec::new(true);
    h1.write("GET /test1 HTTP/1.1\r\n\r\n");
    assert!(!h1.poll());
    let mut buf = h1.output();
    assert_eq!(load(&mut decoder, &mut buf).status, StatusCode(200));

    h1.write("GET /test2 HTTP/1.1\r\n\r\n");
    h1.write("GET /test3 HTTP/1.1\r\n\r\n");
    assert!(!h1.poll());
    let mut buf = h1.output();
    assert_eq!(load(&mut decoder, &mut buf).status, StatusCode(200));
    assert_eq!(load(&mut decoder, &mut buf).status, StatusCode(200));
    assert!(decoder.decode(&mut buf).unwrap().is_none());
    assert_eq!(h1.requests, vec!["/test1", "/test2", "/test3"]);

    h1.closed = true;
    assert!(h1.poll());
    assert_eq!(h1.disconnects(), 1);
}

#[test]
fn a_payload_is_handed_on_before_the_next_request() {
    let mut h1 = Sim::new(usual(), Svc::ReadAll);
    let mut decoder = ClientCodec::new(true);
    h1.write("GET /test1 HTTP/1.1\r\ncontent-length: 5\r\n\r\n");
    assert!(!h1.poll());
    assert_eq!(h1.m.stage, Stage::Publish);
    h1.write("xxxxx");
    assert!(!h1.poll());
    assert!(matches!(&h1.delivered[..], [PayloadOp::Data(d), PayloadOp::Eof] if d == b"xxxxx"));
    assert!(!h1.poll());
    let mut buf = h1.output();
    assert_eq!(load(&mut decoder, &mut buf).status, StatusCode(200));

    h1.write("GET /test2 HTTP/1.1\r\n\r\n");
    assert!(!h1.poll());
    let mut buf = h1.output();
    assert_eq!(load(&mut decoder, &mut buf).status, StatusCode(200));
    assert!(decoder.decode(&mut buf).unwrap().is_none());
}

#[test]
fn buffered_requests_are_answered_after_the_peer_has_closed() {
    let mut h1 = Sim::new(usual(), Svc::Fine);
    for _ in 0..3 {
        h1.write("GET /test HTTP/1.1\r\n\r\n");
    }
    h1.closed = true;
    assert!(h1.poll());
    let mut decoder = ClientCodec::new(true);
    let mut buf = h1.output();
    for _ in 0..3 {
        assert_eq!(load(&mut decoder, &mut buf).status, StatusCode(200));
    }
    assert!(decoder.decode(&mut buf).unwrap().is_none());
    assert_eq!(h1.requests.len(), 3);
}

#[test]
fn a_head_that_is_too_large_is_refused() {
    let mut h1 = Sim::new(usual().set_max_buf_size(32 * 1024), Svc::Fine);
    h1.write("GET /test HTTP/1.1\r\nContent-Length: ");
    let data: String = "x".repeat(70_000);
    h1.write(&data);
    assert!(h1.poll());
    let mut decoder = ClientCodec::new(true);
    let mut buf = h1.output();
    assert_eq!(load(&mut decoder, &mut buf).status, StatusCode(431));
}

fn write_timeout(secs: u16) -> HttpServiceConfig {
    HttpServiceConfig::new().set_write_timeout(Seconds(secs))
}

#[test]
fn a_client_that_stops_reading_is_disconnected() {
    let mut h1 = Sim::new(write_timeout(1), Svc::Text("body"));
    h1.blocked = true;
    h1.write("GET / HTTP/1.1\r\n\r\n");
    assert!(!h1.poll());
    assert_eq!(h1.m.d.timers.active, Timer::Write);
    assert_eq!(h1.timer, Some(1));
    h1.fired = true;
    assert!(h1.poll());
    assert_eq!(h1.told, vec!["request", "peer Write backpressure timeout"]);
    assert!(h1.output().is_empty());
}

#[test]
fn a_write_timeout_fails_the_unfinished_payload() {
    let mut h1 = Sim::new(write_timeout(1), Svc::Text("body"));
    h1.blocked = true;
    h1.write("POST / HTTP/1.1\r\ncontent-length: 4\r\n\r\nb");
    assert!(!h1.poll());
    h1.fired = true;
    assert!(h1.poll());
    match h1.delivered.last() {
        Some(PayloadOp::Error(PayloadError::Io(e))) => assert_eq!(e.kind, IoErrorKind::TimedOut),
        other => panic!("{:?}", other),
    }
}

#[test]
fn without_a_write_timeout_nothing_bounds_a_response() {
    let mut h1 = Sim::new(HttpServiceConfig::new(), Svc::Text("body"));
    h1.blocked = true;
    h1.write("GET / HTTP/1.1\r\n\r\n");
    assert!(!h1.poll());
    assert_eq!(h1.m.d.timers.active, Timer::Stopped);
    assert!(!h1.poll());
    h1.blocked = false;
    assert!(!h1.poll());
    assert!(h1.output().ends_with(b"\r\n\r\nbody"));
}

#[test]
fn a_late_protocol_error_does_not_interrupt_a_response() {
    let mut h1 = Sim::new(HttpServiceConfig::new(), Svc::Text("body"));
    h1.m.d.pending_payload_error = Some(PayloadFault::Protocol(ProtocolError::SlowPayloadTimeout));
    h1.m.stage = Stage::SendPayload;
    let mut body = Vec::new();
    body.extend_from_slice(b"body");
    h1.body = Some(Body::Bytes(body));
    h1.m.d.codec.encoder.te = ntex::h1::encoder::TransferEncoding::length(4);
    assert!(h1.poll());
    assert_eq!(h1.output(), b"body");
    assert_eq!(h1.m.d.disconnect, Disconnect::Sent);
    assert!(h1.m.d.pending_payload_error.is_none());
    assert!(h1.told.is_empty());
}

#[test]
fn the_write_timer_restores_payload_timing() {
    let cfg = write_timeout(5).set_payload_read_rate(Seconds(10), Seconds(20), 1);
    let mut h1 = Sim::new(cfg, Svc::Text("body"));
    h1.blocked = true;
    h1.write("POST / HTTP/1.1\r\ncontent-length: 4\r\n\r\nb");
    assert!(!h1.poll());
    assert!(!h1.poll());
    assert_eq!(h1.m.d.timers.active, Timer::WriteWithPayload);
    assert_eq!(h1.m.d.timers.progress.period, Seconds(10));
    assert_eq!(h1.m.d.timers.progress.max_timeout, Seconds(10));

    h1.blocked = false;
    assert!(!h1.poll());
    assert_eq!(h1.m.d.timers.active, Timer::Payload);
    h1.closed = true;
    assert!(h1.poll());
}

#[test]
fn payload_timing_pauses_while_output_waits() {
    let cfg = HttpServiceConfig::new().set_payload_read_rate(Seconds(10), Seconds(20), 1);
    let mut h1 = Sim::new(cfg, Svc::Text("body"));
    h1.blocked = true;
    h1.write("POST / HTTP/1.1\r\ncontent-length: 4\r\n\r\nb");
    assert!(!h1.poll());
    assert!(!h1.poll());
    assert_eq!(h1.m.d.timers.active, Timer::PayloadPaused);
    assert_eq!(h1.timer, None);

    h1.blocked = false;
    assert!(!h1.poll());
    assert_eq!(h1.m.d.timers.active, Timer::Payload);
}

#[test]
fn a_partial_head_and_a_clean_end_is_told_once() {
    let mut h1 = Sim::new(HttpServiceConfig::new().set_client_timeout(Seconds(10)), Svc::Fine);
    h1.write("GET /test HTTP/1.1\r\nHost: example.com");
    assert!(!h1.poll());
    h1.closed = true;
    assert!(h1.poll());
    assert!(h1.requests.is_empty());
    assert_eq!(h1.told, vec!["peer"]);
    assert!(h1.output().is_empty());
}

#[test]
fn a_partial_head_and_a_failing_read_is_told_once() {
    let mut h1 = Sim::new(HttpServiceConfig::new().set_client_timeout(Seconds(10)), Svc::Fine);
    h1.write("GET /test HTTP/1.1\r\nHost: example.com");
    assert!(!h1.poll());
    h1.closed = true;
    h1.err = Some(IoError { kind: IoErrorKind::Other, text: "connection reset".to_string() });
    assert!(h1.poll());
    assert!(h1.requests.is_empty());
    assert_eq!(h1.told, vec!["peer connection reset"]);
    assert!(h1.output().is_empty());
}

#[test]
fn progress_of_a_head_counts_when_the_timer_fires() {
    let cfg = HttpServiceConfig::new().set_headers_read_rate(Seconds(1), Seconds(2), 4);
    let mut h1 = Sim::new(cfg, Svc::Fine);
    assert!(!h1.poll());
    h1.write("GET /");
    h1.fired = true;
    assert!(!h1.poll());
    assert!(h1.output().is_empty());
    assert!(h1.told.is_empty());
}

#[test]
fn progress_of_a_payload_counts_when_the_timer_fires() {
    let cfg = HttpServiceConfig::new().set_payload_read_rate(Seconds(1), Seconds(2), 2);
    let mut h1 = Sim::new(cfg, Svc::ReadAll);
    h1.write("POST / HTTP/1.1\r\ntransfer-encoding: chunked\r\n\r\n");
    assert!(!h1.poll());
    // chunk framing is taken without an item
    h1.write("4\r\n");
    h1.fired = true;
    assert!(!h1.poll());
    assert!(h1.output().is_empty());
    assert_eq!(h1.told, vec!["request"]);
}

#[test]
fn the_body_is_timed_from_continue_on() {
    let cfg = HttpServiceConfig::new()
        .set_payload_read_rate(Seconds(1), Seconds(2), 1)
        .set_keepalive(KeepAlive::Disabled);
    let mut h1 = Sim::new(cfg, Svc::ReadAll);
    h1.write("POST / HTTP/1.1\r\ncontent-length: 4\r\nexpect: 100-continue\r\n\r\n");
    assert!(!h1.poll());
    assert_eq!(h1.output(), b"HTTP/1.1 100 Continue\r\n\r\n");
    assert_eq!(h1.m.d.timers.active, Timer::Payload);
    assert_eq!(h1.told, vec!["request", "expect"]);

    h1.write("test");
    assert!(!h1.poll());
    assert!(h1.poll());
    assert!(h1.output().starts_with(b"HTTP/1.1 200 OK\r\n"));
}

#[test]
fn an_expectation_that_is_refused_starts_payload_timing() {
    let cfg = HttpServiceConfig::new().set_payload_read_rate(Seconds(1), Seconds(2), 1);
    let mut h1 = Sim::new(cfg, Svc::Fine);
    h1.refuse = true;
    h1.write("POST / HTTP/1.1\r\ncontent-length: 4\r\nexpect: 100-continue\r\n\r\n");
    assert!(!h1.poll());
    assert!(h1.output().starts_with(b"HTTP/1.1 403 Forbidden\r\n"));
    assert_eq!(h1.m.stage, Stage::ReadPayload);
    assert_eq!(h1.m.d.timers.active, Timer::Payload);

    h1.fired = true;
    assert!(h1.poll());
    assert!(matches!(h1.delivered.last(), Some(PayloadOp::Error(PayloadError::Io(_)))));
}

#[test]
fn the_rest_of_a_payload_is_no_request() {
    let mut h1 = Sim::new(usual(), Svc::Text("done"));
    h1.write("POST /first HTTP/1.1\r\ncontent-length: 10\r\n\r\n01234");
    assert!(!h1.poll());
    assert_eq!(h1.m.stage, Stage::ReadPayload);
    assert!(h1.output().ends_with(b"done"));
    h1.write("56789GET /second HTTP/1.1\r\n\r\n");
    assert!(!h1.poll());
    assert_eq!(h1.requests, vec!["/first", "/second"]);
    assert!(h1.output().starts_with(b"HTTP/1.1 200 OK\r\n"));
}

#[test]
fn a_peer_that_goes_during_control_is_told_once() {
    let mut h1 = Sim::new(HttpServiceConfig::new(), Svc::Fine);
    h1.hold_control = true;
    h1.write("POST / HTTP/1.1\r\ncontent-length: 10\r\n\r\nbody");
    assert!(!h1.poll());
    h1.closed = true;
    assert!(!h1.poll());
    h1.hold_control = false;
    assert!(h1.poll());
    assert!(h1.requests.is_empty());
    assert_eq!(h1.told, vec!["request", "peer"]);
}

#[test]
fn a_payload_that_does_not_decode_during_control_is_told_once() {
    let mut h1 = Sim::new(HttpServiceConfig::new(), Svc::Fine);
    h1.hold_control = true;
    h1.write("POST / HTTP/1.1\r\ntransfer-encoding: chunked\r\n\r\ninvalid\r\n");
    assert!(!h1.poll());
    h1.hold_control = false;
    assert!(h1.poll());
    assert!(h1.requests.is_empty());
    assert_eq!(h1.told.len(), 2);
    assert!(h1.told[1].starts_with("protocol "));
    assert!(h1.output().starts_with(b"HTTP/1.1 400 Bad Request\r\n"));
}

#[test]
fn the_end_is_not_told_twice() {
    let mut h1 = Sim::new(HttpServiceConfig::new(), Svc::Fail("service error"));
    h1.write("POST / HTTP/1.1\r\ncontent-length: 10\r\n\r\nbody");
    h1.hold_control = true;
    assert!(!h1.poll());
    h1.hold_control = false;
    h1.closed = true;
    assert!(h1.poll());
    assert_eq!(h1.disconnects(), 1);

    let mut h1 = Sim::new(HttpServiceConfig::new(), Svc::Fail("service error"));
    h1.write("POST / HTTP/1.1\r\ncontent-length: 10\r\n\r\nbody");
    assert!(h1.poll());
    assert_eq!(h1.told, vec!["request", "error"]);
}

#[test]
fn a_payload_cut_short_is_incomplete() {
    let mut h1 = Sim::new(usual(), Svc::ReadAll);
    h1.write("POST / HTTP/1.1\r\ncontent-length: 10\r\n\r\nbody");
    assert!(!h1.poll());
    h1.closed = true;
    assert!(h1.poll());
    assert!(h1.detached);
    assert!(matches!(
        h1.delivered.last(),
        Some(PayloadOp::Error(PayloadError::Incomplete(None)))
    ));
}

#[test]
fn a_payload_that_does_not_decode_keeps_its_error() {
    let mut h1 = Sim::new(usual(), Svc::ReadAll);
    h1.write("POST / HTTP/1.1\r\ntransfer-encoding: chunked\r\n\r\ninvalid\r\n");
    assert!(h1.poll());
    assert!(h1
        .delivered
        .iter()
        .any(|op| matches!(op, PayloadOp::Error(PayloadError::Decode(_)))));
}

#[test]
fn a_service_error_is_answered() {
    let mut h1 = Sim::new(usual(), Svc::Fail("error"));
    h1.write("GET /test HTTP/1.1\r\ncontent-length:512\r\n\r\n");
    assert!(h1.poll());
    assert!(!h1.active);
    let buf = h1.output();
    assert_eq!(&buf[..28], b"HTTP/1.1 500 Internal Server");
    assert_eq!(&buf[buf.len() - 5..], b"error");
}

#[test]
fn a_payload_nobody_reads_closes_the_connection() {
    let mut h1 = Sim::new(usual(), Svc::Drop("TEST"));
    h1.write("GET /test HTTP/1.1\r\ncontent-length:512\r\n\r\n");
    assert!(h1.poll());
    assert!(!h1.active);
    let buf = h1.output();
    assert_eq!(
        &buf[..55],
        b"HTTP/1.1 200 OK\r\ncontent-length: 4\r\nconnection: close\r\n"
    );
    assert_eq!(h1.told, vec!["request", "service PayloadDropped"]);
}

#[test]
fn a_payload_that_is_too_slow_is_given_up() {
    let cfg = usual().set_payload_read_rate(Seconds(1), Seconds(2), 512);
    let mut h1 = Sim::new(cfg, Svc::ReadAll);
    h1.write("GET /test HTTP/1.1\r\nContent-Length: 1048576\r\n\r\n");
    assert!(!h1.poll());
    let piece = "x".repeat(768);
    h1.write(&piece);
    assert!(!h1.poll());
    h1.fired = true;
    assert!(!h1.poll());
    assert_eq!(h1.m.d.timers.progress.max_timeout, Seconds(0));
    h1.write("xx");
    assert!(!h1.poll());
    h1.fired = true;
    assert!(h1.poll());
    assert_eq!(h1.disconnects(), 1);
    let mut data = 0;
    for op in &h1.delivered {
        if let PayloadOp::Data(d) = op {
            data += d.len();
        }
    }
    assert_eq!(data, 770);
}

fn client_timeout() -> Sim {
    let cfg = HttpServiceConfig::new()
        .set_headers_read_rate(Seconds(1), Seconds(5), 1024)
        .set_keepalive(KeepAlive::Disabled);
    Sim::new(cfg, Svc::Fine)
}

#[test]
fn a_silent_connection_is_bounded_by_the_client_timeout() {
    let mut h1 = client_timeout();
    assert_eq!(h1.m.d.timers.active, Timer::ClientTimeout);
    assert_eq!(h1.timer, Some(1));
    assert!(!h1.poll());
    assert_eq!(h1.m.d.timers.active, Timer::ClientTimeout);
    h1.fired = true;
    assert!(h1.poll());
    assert!(h1.output().starts_with(b"HTTP/1.1 408 Request Timeout\r\n"));
}

#[test]
fn the_read_rate_starts_with_the_first_byte() {
    let mut h1 = client_timeout();
    assert!(!h1.poll());
    let partial = "GET / HTTP/1.1\r\n";
    h1.write(partial);
    assert!(!h1.poll());
    assert_eq!(h1.m.d.timers.active, Timer::Headers);
    assert_eq!(h1.m.d.timers.progress.consumed, partial.len() as u32);
    assert_eq!(h1.m.d.timers.progress.max_timeout, Seconds(4));
    h1.write("\r\n");
    h1.poll();
    assert!(h1.output().starts_with(b"HTTP/1.1 200 OK\r\n"));
}

#[test]
fn the_first_byte_wins_over_the_client_timeout() {
    let mut h1 = client_timeout();
    assert!(!h1.poll());
    h1.write("GET / HTTP/1.1\r\n");
    h1.fired = true;
    assert!(!h1.poll());
    assert_eq!(h1.m.d.timers.active, Timer::Headers);
    assert!(h1.active);
    assert!(h1.output().is_empty());
}

#[test]
fn a_partial_next_request_wins_over_keep_alive() {
    let cfg = HttpServiceConfig::new()
        .set_headers_read_rate(Seconds(10), Seconds(20), 1)
        .set_keepalive(KeepAlive::Timeout(Seconds(10)));
    let mut h1 = Sim::new(cfg, Svc::Fine);
    h1.write("GET /first HTTP/1.1\r\n\r\n");
    assert!(!h1.poll());
    assert_eq!(h1.m.d.timers.active, Timer::KeepAlive);
    assert!(h1.output().starts_with(b"HTTP/1.1 200 OK\r\n"));

    let partial = "GET /next HTTP/1.1\r\nhost: example.com";
    h1.write(partial);
    h1.fired = true;
    assert!(!h1.poll());
    assert_eq!(h1.m.d.timers.active, Timer::Headers);
    assert_eq!(h1.m.d.timers.progress.consumed, partial.len() as u32);

    h1.write("\r\n\r\n");
    assert!(!h1.poll());
    assert!(h1.output().starts_with(b"HTTP/1.1 200 OK\r\n"));
}

#[test]
fn keep_alive_ends_an_idle_connection() {
    let cfg = HttpServiceConfig::new()
        .set_client_timeout(Seconds(0))
        .set_keepalive(KeepAlive::Timeout(Seconds(1)));
    let mut h1 = Sim::new(cfg, Svc::Fine);
    assert!(!h1.poll());
    assert_eq!(h1.m.d.timers.active, Timer::ClientTimeout);
    h1.write("GET /first HTTP/1.1\r\n\r\nGET /next HTTP/1.1\r\n");
    assert!(!h1.poll());
    assert!(h1.output().starts_with(b"HTTP/1.1 200 OK\r\n"));
    assert_eq!(h1.m.d.timers.active, Timer::KeepAlive);
    h1.write("host: example.com");
    assert!(!h1.poll());
    assert_eq!(h1.m.d.timers.active, Timer::KeepAlive);
    h1.fired = true;
    assert!(h1.poll());
    assert!(h1.output().is_empty());
    assert_eq!(h1.told, vec!["request", "keep-alive true"]);
}

#[test]
fn a_server_that_shuts_down_reads_no_further_request() {
    let mut h1 = Sim::new(usual(), Svc::Fine);
    h1.write("GET /first HTTP/1.1\r\n\r\n");
    assert!(!h1.poll());
    h1.shutdown = true;
    h1.write("GET /second HTTP/1.1\r\n\r\n");
    assert!(h1.poll());
    assert_eq!(h1.requests, vec!["/first"]);
    assert_eq!(h1.told, vec!["request", "service Shutdown"]);
}

#[test]
fn an_upgrade_reaches_the_service_and_ends_the_dispatcher() {
    let mut h1 = Sim::new(usual(), Svc::Fine);
    h1.write("GET /ws HTTP/1.1\r\nconnection: upgrade\r\nupgrade: websocket\r\n\r\n");
    assert!(h1.poll());
    assert_eq!(h1.told, vec!["request", "upgrade", "service UpgradeHandled"]);
    assert_eq!(h1.requests, vec!["/ws"]);
}

#[test]
fn a_failing_body_ends_the_connection() {
    let mut h1 = Sim::new(usual(), Svc::Hold);
    h1.write("GET / HTTP/1.1\r\n\r\n");
    assert!(!h1.poll());
    let mut head = Response::new(StatusCode(200)).head;
    head.no_chunking(false);
    let view = h1.view();
    let step = h1.m.resume::<IoError>(Event::Wake, &view, &mut h1.wr, &mut h1.date, &mut h1.fx);
    assert!(matches!(step.ask, Ask::PollService));
    let step = h1.m.resume::<IoError>(
        Event::Service(Some(Ok((head, BodySize::Stream)))),
        &view,
        &mut h1.wr,
        &mut h1.date,
        &mut h1.fx,
    );
    assert!(matches!(step.ask, Ask::Flush));
    let step = h1.m.resume::<IoError>(
        Event::Flush(Some(Ok(()))),
        &view,
        &mut h1.wr,
        &mut h1.date,
        &mut h1.fx,
    );
    assert!(matches!(step.ask, Ask::Body));
    let step = h1.m.resume::<IoError>(
        Event::Body(StreamPoll::Failed("no more".to_string())),
        &view,
        &mut h1.wr,
        &mut h1.date,
        &mut h1.fx,
    );
    match step.ask {
        Ask::CallControl(Control::Disconnect(Reason::ProtocolError(e))) => {
            assert_eq!(*e.get_ref(), ProtocolError::ResponsePayload("no more".to_string()));
        }
        other => panic!("{:?}", other),
    }
}

#[test]
fn a_sent_disconnect_absorbs_the_others() {
    let mut fx = Effects::new();
    let mut d = Machine::new(0, HttpServiceConfig::new(), &mut fx).d;
    assert!(d.check_disconnect::<IoError>(&mut fx).is_none());
    assert_eq!(d.disconnect, Disconnect::Open);

    d.set_disconnect(ServiceDisconnectReason::ExpectFailed);
    assert_eq!(d.disconnect, Disconnect::Pending(ServiceDisconnectReason::ExpectFailed));
    assert!(matches!(d.ctl_peer_gone::<IoError>(None, &mut fx), Next::Control(_)));
    assert_eq!(d.disconnect, Disconnect::Sent);

    d.set_disconnect(ServiceDisconnectReason::PayloadDropped);
    assert_eq!(d.disconnect, Disconnect::Sent);
    assert!(matches!(d.check_disconnect::<IoError>(&mut fx), Some(Next::Stop)));
    assert!(matches!(d.ctl_peer_gone::<IoError>(None, &mut fx), Next::Stop));
}

#[test]
fn resuming_a_payload_keeps_the_maximum() {
    let cfg = HttpServiceConfig::new().set_payload_read_rate(Seconds(10), Seconds(15), 1);
    let mut fx = Effects::new();
    let mut d = Machine::new(0, cfg, &mut fx).d;
    d.timers.stop(&mut fx.timer);
    d.payload = Some(PayloadDecoder::length(4));
    d.start_payload_timer(&mut fx);
    d.timers.payload_decoded(&mut fx.timer, 2);
    assert_eq!(d.timers.progress.max_timeout, Seconds(5));
    assert!(d.handle_timeout(&mut fx).is_ok());
    assert_eq!(d.timers.progress.max_timeout, Seconds(0));
    assert_eq!(fx.timer.last(), Some(&TimerOp::Start(Seconds(5))));

    d.pause_payload_timer(Seconds(5), &mut fx);
    assert_eq!(d.timers.active, Timer::PayloadPaused);
    assert_eq!(d.timers.progress.period, Seconds(5));
    assert_eq!(d.timers.progress.max_timeout, Seconds(0));

    d.timers.payload_decoded(&mut fx.timer, 2);
    assert_ne!(d.timers.active, Timer::PayloadPaused);
    assert_eq!(d.timers.progress.max_timeout, Seconds(0));
    assert_eq!(fx.timer.last(), Some(&TimerOp::Start(Seconds(5))));
}

fn exhausted(rate: u32, period: u16, max: u16) -> Sim {
    let cfg = HttpServiceConfig::new().set_payload_read_rate(Seconds(1), Seconds(5), rate);
    let mut h1 = Sim::new(cfg, Svc::Hold);
    h1.m.d.payload = Some(PayloadDecoder::length(4));
    h1.m.d.timers.active = Timer::PayloadPaused;
    h1.m.d.timers.progress.period = Seconds(period);
    h1.m.d.timers.progress.max_timeout = Seconds(max);
    h1.timer = None;
    h1.m.stage = Stage::Publish;
    h1.request = Some(Request::new());
    h1
}

#[test]
fn buffered_data_is_decoded_before_the_budget_is_looked_at() {
    let mut h1 = exhausted(1, 0, 0);
    h1.write("test");
    assert!(!h1.poll());
    assert!(h1.m.d.payload.is_none());
    assert!(matches!(&h1.delivered[..], [PayloadOp::Data(d), PayloadOp::Eof] if d == b"test"));

    let mut h1 = exhausted(1, 0, 0);
    h1.write("te");
    assert!(h1.poll());
    assert!(matches!(&h1.delivered[..], [PayloadOp::Data(d), PayloadOp::Error(_)] if d == b"te"));
    assert!(h1.told[0].starts_with("protocol "));
}

#[test]
fn resuming_continues_the_period() {
    let mut h1 = exhausted(1, 3, 2);
    h1.write("te");
    assert!(!h1.poll());
    assert!(h1.m.d.payload.is_some());
    assert_eq!(h1.m.d.timers.active, Timer::Payload);
    assert_eq!(h1.timer, Some(3));
    assert_eq!(h1.m.d.timers.progress.max_timeout, Seconds(2));
}

#[test]
fn a_period_that_expired_is_looked_at_on_resume() {
    let mut h1 = exhausted(1000, 0, 4);
    h1.write("te");
    assert!(h1.poll());
    assert!(matches!(&h1.delivered[..], [PayloadOp::Data(d), PayloadOp::Error(_)] if d == b"te"));

    // enough data was received, the next period starts
    let mut h1 = exhausted(1, 0, 4);
    h1.write("te");
    assert!(!h1.poll());
    assert!(h1.m.d.payload.is_some());
    assert_eq!(h1.m.d.timers.active, Timer::Payload);
    assert_eq!(h1.timer, Some(1));
    assert_eq!(h1.m.d.timers.progress.max_timeout, Seconds(3));
}

#[test]
fn a_control_service_that_stops_stops_the_connection() {
    let mut h1 = Sim::new(usual(), Svc::Fine);
    h1.write("GET / HTTP/1.1\r\n\r\n");
    h1.hold_control = true;
    assert!(!h1.poll());
    let view = h1.view();
    let step = h1.m.resume::<IoError>(Event::Wake, &view, &mut h1.wr, &mut h1.date, &mut h1.fx);
    assert!(matches!(step.ask, Ask::PollControl));
    let step = h1.m.resume::<IoError>(
        Event::Control(Some(ControlResult::Stop)),
        &view,
        &mut h1.wr,
        &mut h1.date,
        &mut h1.fx,
    );
    assert!(matches!(step.ask, Ask::Shutdown));
    assert_eq!(h1.m.stage, Stage::Stop);
}

#[test]
fn a_control_service_that_fails_ends_the_machine() {
    let mut h1 = Sim::new(usual(), Svc::Fine);
    h1.write("GET / HTTP/1.1\r\n\r\n");
    h1.hold_control = true;
    assert!(!h1.poll());
    let view = h1.view();
    let _ = h1.m.resume::<IoError>(Event::Wake, &view, &mut h1.wr, &mut h1.date, &mut h1.fx);
    let step =
        h1.m.resume::<IoError>(Event::ControlFailed, &view, &mut h1.wr, &mut h1.date, &mut h1.fx);
    assert!(matches!(step.ask, Ask::Done));
}
