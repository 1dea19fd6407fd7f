# fastwebsockets_stream

A byte stream over a `fastwebsockets::WebSocket`, written and verified in Verus.

`WebSocketStream` presents the payloads of websocket data frames as one continuous byte stream,
and sends what is written as data frames of one `PayloadType`. It holds the state and takes every
decision. What touches the wire (reading, writing and flushing frames) is done by futures that
the stream's driver makes and polls; each owns the websocket while it runs.

* `src/` is the verified library: `stream` (the stream), `frame` (frames sent and received),
  `error` (what is reported), `buffers` (the byte containers of `bytes` and `tokio`), `model`
  (what each operation does, as a relation between states) and `laws` (what holds over any
  sequence of operations).
* `app/` drives the library's stream as a tokio `AsyncRead` and `AsyncWrite`.
* `tests/steps.rs` checks single steps; `tests/over_websocket.rs` runs streams over real
  websockets connected by an in-memory pipe.

Each call of `write` sends one data frame with exactly its bytes and reports their number. A call
is told from a repetition of the one in flight by its bytes: while a write is pending, repeat it
with the same buffer. Code that tops up its buffer between the polls of one write (as
`tokio::io::copy` does) makes a new call each time, and the bytes already in flight go out again
with it.

Where a read buffer is smaller than a payload, the remainder is kept for the next reads. A Close
frame is the end of the stream. A failure of the websocket loses it: from then on every
operation reports `Websocket not available`, except that reads first deliver what was received,
and that reads on a stream that was closed end as before, with no bytes.
