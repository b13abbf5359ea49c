# ntex

HTTP/1 and HTTP/2 protocol logic, written in Verus: every function of the
library states what it does, and the statement is proved.

The library does no input or output. Where a connection has to be driven, the
library is a state machine: it asks for one thing at a time, and is told what
happened.

## Layout

- `src/h1` decodes and encodes HTTP/1 messages, keeps the timers of a connection
  and decides what the connection does next (`machine`).
- `src/h2` makes requests of HTTP/2 streams and responses fit for them.
- `src/client` is the client side: requests, exchanges, the connection pool,
  websocket handshakes, response bodies.
- `src/encoding` compresses response bodies.
- `src/io` is the state that a transport shares with its tasks.
- `src/headers`, `src/message`, `src/request`, `src/response`, `src/body`,
  `src/payload`, `src/cookies`, `src/types` are the messages themselves.
- `src/config`, `src/builder`, `src/service` configure services and count their
  connections.
- `tests` runs the library, with a connection in memory.
- `app` drives the library over TCP sockets, and holds what needs a clock, a
  socket or a serialiser.

## What is trusted

Header maps, cookies, compression, the parsing of request lines, header lines,
targets and media types, date formatting, base64 and random numbers come from
other crates. Each call stands in a small function marked
`#[verifier::external_body]`, whose contract says what is relied on.
