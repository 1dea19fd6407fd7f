//! Streams over real websockets, connected by an in-memory pipe.

use fastwebsockets::{CloseCode, Frame, Payload, Role, WebSocket};
use fastwebsockets_stream::{
    Action, Event, FutureResult, PayloadFrame, PayloadType, StreamError, WebSocketStream,
};
use futures::future::{join, BoxFuture};
use futures::{FutureExt, SinkExt, StreamExt};
use std::future::Future;
use std::io;
use std::io::ErrorKind;
use std::pin::Pin;
use std::task::{Context, Poll};
use std::time::Duration;
use tokio::io::{
    AsyncRead, AsyncReadExt, AsyncWrite, AsyncWriteExt, DuplexStream, ReadBuf,
};
use tokio_util::codec::{Framed, LinesCodec};

type Socket = WebSocket<DuplexStream>;
type ReadFuture = BoxFuture<'static, FutureResult<DuplexStream, PayloadFrame>>;
type WriteFuture = BoxFuture<'static, FutureResult<DuplexStream, ()>>;

fn read(mut websocket: Socket) -> ReadFuture {
    async move {
        let received = PayloadFrame::from_frame(websocket.read_frame().await?);
        Ok((websocket, received))
    }
    .boxed()
}

fn write(mut websocket: Socket, frame: Frame<'static>) -> WriteFuture {
    async move {
        websocket.write_frame(frame).await?;
        Ok((websocket, ()))
    }
    .boxed()
}

fn flush(mut websocket: Socket) -> WriteFuture {
    async move {
        websocket.flush().await?;
        Ok((websocket, ()))
    }
    .boxed()
}

fn poll_event<T>(future: Option<&mut BoxFuture<'static, T>>, cx: &mut Context<'_>) -> Event<T> {
    match future.unwrap().as_mut().poll(cx) {
        Poll::Pending => Event::Pending,
        Poll::Ready(output) => Event::Done(output),
    }
}

fn io_error(error: StreamError) -> io::Error {
    io::Error::other(error.message())
}

/// Drives a stream on behalf of tokio.
struct Driver(WebSocketStream<DuplexStream, ReadFuture, WriteFuture>);

impl Driver {
    fn new(websocket: Socket, payload_type: PayloadType) -> Self {
        Driver(WebSocketStream::new(websocket, payload_type))
    }
}

impl AsyncRead for Driver {
    fn poll_read(
        mut self: Pin<&mut Self>,
        cx: &mut Context<'_>,
        buf: &mut ReadBuf<'_>,
    ) -> Poll<io::Result<()>> {
        let mut event = Event::Called;
        loop {
            match self.0.poll_read(event, buf, read) {
                Action::Poll => event = poll_event(self.0.read_future(), cx),
                Action::Pending => return Poll::Pending,
                Action::Ready(result) => return Poll::Ready(result.map_err(io_error)),
            }
        }
    }
}

impl AsyncWrite for Driver {
    fn poll_write(
        mut self: Pin<&mut Self>,
        cx: &mut Context<'_>,
        buf: &[u8],
    ) -> Poll<io::Result<usize>> {
        let mut event = Event::Called;
        loop {
            match self.0.poll_write(event, buf, write) {
                Action::Poll => event = poll_event(self.0.write_future(), cx),
                Action::Pending => return Poll::Pending,
                Action::Ready(result) => return Poll::Ready(result.map_err(io_error)),
            }
        }
    }

    fn poll_flush(mut self: Pin<&mut Self>, cx: &mut Context<'_>) -> Poll<io::Result<()>> {
        let mut event = Event::Called;
        loop {
            match self.0.poll_flush(event, flush) {
                Action::Poll => event = poll_event(self.0.write_future(), cx),
                Action::Pending => return Poll::Pending,
                Action::Ready(result) => return Poll::Ready(result.map_err(io_error)),
            }
        }
    }

    fn poll_shutdown(mut self: Pin<&mut Self>, cx: &mut Context<'_>) -> Poll<io::Result<()>> {
        let mut event = Event::Called;
        loop {
            match self.0.poll_shutdown(event, write) {
                Action::Poll => event = poll_event(self.0.write_future(), cx),
                Action::Pending => return Poll::Pending,
                Action::Ready(result) => return Poll::Ready(result.map_err(io_error)),
            }
        }
    }
}

/// Creates a connected in-memory `(client, server)` WebSocket pair, already past the handshake,
/// without any real networking involved.
fn connected_pair() -> (Socket, Socket) {
    let (client_io, server_io) = tokio::io::duplex(64 * 1024);
    let client = WebSocket::after_handshake(client_io, Role::Client);
    let server = WebSocket::after_handshake(server_io, Role::Server);
    (client, server)
}

fn block_on<F: Future>(future: F) -> F::Output {
    tokio::runtime::Builder::new_current_thread()
        .enable_time()
        .build()
        .unwrap()
        .block_on(async { tokio::time::timeout(Duration::from_secs(5), future).await.unwrap() })
}

#[test]
fn close() {
    block_on(async {
        let (client, mut server) = connected_pair();
        let handle = async move {
            let message = server.read_frame().await.unwrap();
            assert_eq!(message.opcode, fastwebsockets::OpCode::Binary);
            server
                .write_frame(Frame::close(CloseCode::Normal.into(), &[]))
                .await
                .unwrap();
            server
        };
        let client = async move {
            let mut buf = [0u8; 6];
            let mut ws_stream = Driver::new(client, PayloadType::Binary);
            let mut bytes = ws_stream.write(b"Hello!").await.unwrap();
            assert_eq!(bytes, 6);
            bytes = ws_stream.read(&mut buf).await.unwrap();
            assert_eq!(bytes, 0);
            assert!(ws_stream.0.is_closed());
            // Every further read is an end of file too.
            bytes = ws_stream.read(&mut buf).await.unwrap();
            assert_eq!(bytes, 0);
        };
        join(handle, client).await;
    });
}

#[test]
fn payload_mismatch() {
    block_on(async {
        let (mut client, server) = connected_pair();
        client
            .write_frame(Frame::text(Payload::Borrowed(b"Hello!")))
            .await
            .unwrap();

        let mut buf = [0u8; 1024];
        let mut ws_stream = Driver::new(server, PayloadType::Binary);
        let result = ws_stream.read(&mut buf).await;
        assert!(result.is_err());
        let err = result.unwrap_err();
        assert_eq!(err.kind(), ErrorKind::Other);
        assert_eq!(
            err.to_string(),
            "The received data type is different from the stream data type".to_string()
        );

        // The stream stays usable.
        client
            .write_frame(Frame::binary(Payload::Borrowed(b"again")))
            .await
            .unwrap();
        let n = ws_stream.read(&mut buf).await.unwrap();
        assert_eq!(&buf[..n], b"again");
    });
}

#[test]
fn write_flush_shutdown_error_after_fatal_read_error() {
    block_on(async {
        let (mut client_io, server_io) = tokio::io::duplex(1024);
        let server = WebSocket::after_handshake(server_io, Role::Server);
        let mut server_stream = Driver::new(server, PayloadType::Binary);

        // A single byte starts a frame header; then the connection drops.
        client_io.write_all(&[0x82]).await.unwrap();
        drop(client_io);

        let mut buf = [0u8; 16];
        let read_err = tokio::time::timeout(Duration::from_secs(5), server_stream.read(&mut buf))
            .await
            .expect("timed out - a mid-frame disconnect should error, not hang")
            .unwrap_err();
        assert_eq!(read_err.to_string(), "Websocket error: Unexpected EOF");

        let write_err = server_stream.write(b"x").await.unwrap_err();
        assert_eq!(write_err.to_string(), "Websocket not available");

        let flush_err = server_stream.flush().await.unwrap_err();
        assert_eq!(flush_err.to_string(), "Websocket not available");

        let shutdown_err = server_stream.shutdown().await.unwrap_err();
        assert_eq!(shutdown_err.to_string(), "Websocket not available");

        let second_read_err = server_stream.read(&mut buf).await.unwrap_err();
        assert_eq!(second_read_err.to_string(), "Websocket not available");

        assert!(server_stream.0.into_inner().is_none());
    });
}

#[test]
fn fragmented_message_is_reassembled() {
    block_on(async {
        let (mut client, server) = connected_pair();
        let mut server_stream = Driver::new(server, PayloadType::Binary);

        client
            .write_frame(Frame::new(
                false,
                fastwebsockets::OpCode::Binary,
                None,
                Payload::Borrowed(b"Hello, "),
            ))
            .await
            .unwrap();
        client
            .write_frame(Frame::new(
                false,
                fastwebsockets::OpCode::Continuation,
                None,
                Payload::Borrowed(b"frag"),
            ))
            .await
            .unwrap();
        client
            .write_frame(Frame::new(
                true,
                fastwebsockets::OpCode::Ping,
                None,
                Payload::Owned(Vec::new()),
            ))
            .await
            .unwrap();
        client
            .write_frame(Frame::new(
                true,
                fastwebsockets::OpCode::Continuation,
                None,
                Payload::Borrowed(b"mented world!"),
            ))
            .await
            .unwrap();

        let mut buf = [0u8; 24];
        tokio::time::timeout(Duration::from_secs(5), server_stream.read_exact(&mut buf))
            .await
            .expect(
                "timed out reassembling a fragmented message - Continuation frames \
                 may be getting dropped again",
            )
            .unwrap();
        assert_eq!(&buf, b"Hello, fragmented world!");
    });
}

#[test]
fn framed() {
    block_on(async {
        let (mut client, server) = connected_pair();
        let handle = async move {
            let mut stream = Framed::new(
                Driver::new(server, PayloadType::Binary),
                LinesCodec::new(),
            );
            while let Some(Ok(message)) = stream.next().await {
                stream.send(message).await.unwrap();
            }
        };
        let client = async move {
            let messages = &["Hello\n", "World\n", "!\n", "\n"];
            for &message in messages {
                client
                    .write_frame(Frame::binary(Payload::Borrowed(message.as_bytes())))
                    .await
                    .unwrap();
                let response = client.read_frame().await.unwrap();
                assert_eq!(response.opcode, fastwebsockets::OpCode::Binary);
                assert!(response.payload.starts_with(message.as_bytes()));
            }
            client
                .write_frame(Frame::close_raw(Vec::new().into()))
                .await
                .unwrap();
            client
        };
        join(handle, client).await;
    });
}

#[test]
fn flush_after_write_succeeds() {
    block_on(async {
        let (client, server) = connected_pair();
        let mut client_stream = Driver::new(client, PayloadType::Binary);
        let mut server_stream = Driver::new(server, PayloadType::Binary);

        let n = client_stream.write(b"Hello!").await.unwrap();
        assert_eq!(n, 6);
        client_stream.flush().await.unwrap();

        let mut buf = [0u8; 6];
        server_stream.read_exact(&mut buf).await.unwrap();
        assert_eq!(&buf, b"Hello!");

        client_stream.flush().await.unwrap();
    });
}

#[test]
fn empty_frame_does_not_signal_eof() {
    block_on(async {
        let (client, server) = connected_pair();
        let mut client_stream = Driver::new(client, PayloadType::Binary);
        let mut server_stream = Driver::new(server, PayloadType::Binary);

        client_stream.write(b"").await.unwrap();
        client_stream.write(b"Hello!").await.unwrap();

        let mut buf = [0u8; 6];
        let n = tokio::time::timeout(Duration::from_secs(5), server_stream.read(&mut buf))
            .await
            .expect("timed out - an empty frame may be incorrectly signalling EOF")
            .unwrap();

        assert_eq!(n, 6);
        assert_eq!(&buf, b"Hello!");
        assert!(!server_stream.0.is_closed());
    });
}

#[test]
fn into_inner_returns_websocket_when_idle() {
    let (client, _server) = connected_pair();
    let stream = Driver::new(client, PayloadType::Binary);

    assert!(!stream.0.is_closed());
    assert!(stream.0.into_inner().is_some());
}

#[test]
fn ping() {
    block_on(async {
        let (client, mut server) = connected_pair();
        let handle = async move {
            let message = server.read_frame().await.unwrap();
            assert_eq!(message.opcode, fastwebsockets::OpCode::Binary);
            server
                .write_frame(Frame::new(
                    true,
                    fastwebsockets::OpCode::Ping,
                    None,
                    Payload::Owned(Vec::new()),
                ))
                .await
                .unwrap();
            let pong = server.read_frame().await.unwrap();
            assert_eq!(pong.opcode, fastwebsockets::OpCode::Pong);
            server.write_frame(message).await.unwrap();
            server
        };
        let client = async move {
            let mut buf = [0u8; 6];
            let mut ws_stream = Driver::new(client, PayloadType::Binary);
            let mut bytes = ws_stream.write(b"Hello!").await.unwrap();
            assert_eq!(bytes, 6);
            bytes = ws_stream.read(&mut buf).await.unwrap();
            assert_eq!(bytes, 6);
            assert_eq!(&buf, b"Hello!");
        };
        join(handle, client).await;
    });
}

#[test]
fn shutdown_text_stream() {
    block_on(async {
        let (mut client, server) = connected_pair();
        let handle = async move {
            let mut buf = [0u8; 6];
            let mut ws_stream = Driver::new(server, PayloadType::Binary);
            let _ = ws_stream.read(&mut buf).await.unwrap();
            ws_stream.shutdown().await.unwrap();
            ws_stream
        };
        let client = async move {
            let message = "Hello!";
            client
                .write_frame(Frame::binary(Payload::Borrowed(message.as_bytes())))
                .await
                .unwrap();
            let message = client.read_frame().await.unwrap();
            assert_eq!(message.opcode, fastwebsockets::OpCode::Close);
        };
        join(handle, client).await;
    });
}

#[test]
fn text_text_stream() {
    block_on(async {
        let (mut client, server) = connected_pair();
        let handle = async move {
            let mut buf = [0u8; 6];
            let mut ws_stream = Driver::new(server, PayloadType::Text);
            let mut bytes = ws_stream.write(b"Hello!").await.unwrap();
            assert_eq!(bytes, 6);
            bytes = ws_stream.read(&mut buf).await.unwrap();
            assert_eq!(bytes, 6);
            assert_eq!(&buf, b"Hello!");
        };
        let client = async move {
            let message = client.read_frame().await.unwrap();
            assert!(message.opcode == fastwebsockets::OpCode::Text);
            client
                .write_frame(Frame::text(message.payload))
                .await
                .unwrap();
            client
        };
        join(handle, client).await;
    });
}

#[test]
fn new_stream_answers_pings() {
    block_on(async {
        let (mut client, mut server) = connected_pair();
        server.set_auto_pong(false);
        let mut stream = Driver::new(server, PayloadType::Binary);
        client
            .write_frame(Frame::new(
                true,
                fastwebsockets::OpCode::Ping,
                None,
                Payload::Owned(b"beat".to_vec()),
            ))
            .await
            .unwrap();
        client
            .write_frame(Frame::binary(Payload::Borrowed(b"x")))
            .await
            .unwrap();
        let mut buf = [0u8; 4];
        assert_eq!(stream.read(&mut buf).await.unwrap(), 1);
        let pong = client.read_frame().await.unwrap();
        assert_eq!(pong.opcode, fastwebsockets::OpCode::Pong);
        assert_eq!(&pong.payload[..], b"beat");
    });
}

#[test]
fn new_stream_answers_a_close() {
    block_on(async {
        let (mut client, mut server) = connected_pair();
        server.set_auto_close(false);
        let mut stream = Driver::new(server, PayloadType::Binary);
        client
            .write_frame(Frame::close(1000, b"bye"))
            .await
            .unwrap();
        let mut buf = [0u8; 4];
        assert_eq!(stream.read(&mut buf).await.unwrap(), 0);
        assert!(stream.0.is_closed());
        let reply = client.read_frame().await.unwrap();
        assert_eq!(reply.opcode, fastwebsockets::OpCode::Close);
    });
}

#[test]
fn written_bytes_are_read_in_order() {
    block_on(async {
        let (client, server) = connected_pair();
        let mut writer = Driver::new(client, PayloadType::Text);
        let mut reader = Driver::new(server, PayloadType::Text);
        for part in [&b"one, "[..], &b""[..], &b"two, "[..], &b"three"[..]] {
            assert_eq!(writer.write(part).await.unwrap(), part.len());
        }
        writer.shutdown().await.unwrap();

        let mut all = Vec::new();
        let mut buf = [0u8; 3];
        loop {
            let n = reader.read(&mut buf).await.unwrap();
            if n == 0 {
                break;
            }
            all.extend_from_slice(&buf[..n]);
        }
        assert_eq!(&all, b"one, two, three");
        assert!(reader.0.is_closed());
    });
}

#[test]
fn recovered_websocket_still_works() {
    block_on(async {
        let (client, server) = connected_pair();
        let mut stream = Driver::new(client, PayloadType::Binary);
        stream.write(b"first").await.unwrap();
        let mut websocket = stream.0.into_inner().unwrap();
        websocket
            .write_frame(Frame::binary(Payload::Borrowed(b"second")))
            .await
            .unwrap();

        let mut reader = Driver::new(server, PayloadType::Binary);
        let mut buf = [0u8; 11];
        reader.read_exact(&mut buf).await.unwrap();
        assert_eq!(&buf, b"firstsecond");
    });
}

#[test]
fn abandoned_write_does_not_swallow_the_next() {
    block_on(async {
        // The pipe is too small for the first frame, so that its write stays in flight.
        let (client_io, server_io) = tokio::io::duplex(4);
        let client = WebSocket::after_handshake(client_io, Role::Client);
        let server = WebSocket::after_handshake(server_io, Role::Server);
        let mut writer = Driver::new(client, PayloadType::Binary);
        let mut reader = Driver::new(server, PayloadType::Binary);

        assert!(writer.write(b"abandoned").now_or_never().is_none());
        let writing = async move {
            assert_eq!(writer.write(b"next").await.unwrap(), 4);
            writer
        };
        let reading = async move {
            let mut buf = [0u8; 13];
            reader.read_exact(&mut buf).await.unwrap();
            assert_eq!(&buf, b"abandonednext");
        };
        join(writing, reading).await;
    });
}
