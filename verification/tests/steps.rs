//! Single steps of a stream, with stand-ins for the futures.

use bytes::{Bytes, BytesMut};
use fastwebsockets::{Frame, Payload, Role, WebSocket, WebSocketError};
use fastwebsockets_stream::error::make_io_err;
use fastwebsockets_stream::frame::{close_frame, data_frame};
use fastwebsockets_stream::stream::{pending_op_name, read_state_name, write_state_name};
use fastwebsockets_stream::{
    Action, Event, OpCode, PayloadFrame, PayloadType, PendingOp, ReadState, StreamError,
    WebSocketStream, WriteState,
};
use tokio::io::{DuplexStream, ReadBuf};

type Socket = WebSocket<DuplexStream>;

/// What a write, a flush or a close was started with.
type Started = (Socket, Option<Frame<'static>>);

type Stream = WebSocketStream<DuplexStream, Socket, Started>;

fn socket() -> Socket {
    let (io, _) = tokio::io::duplex(64);
    WebSocket::after_handshake(io, Role::Client)
}

fn stream(payload_type: PayloadType) -> Stream {
    WebSocketStream::new(socket(), payload_type)
}

fn read(websocket: Socket) -> Socket {
    websocket
}

fn write(websocket: Socket, frame: Frame<'static>) -> Started {
    (websocket, Some(frame))
}

fn flush(websocket: Socket) -> Started {
    (websocket, None)
}

fn frame(opcode: OpCode, payload: &[u8]) -> PayloadFrame {
    PayloadFrame {
        opcode,
        payload: Bytes::from(payload.to_vec()),
    }
}

/// Starts a read on an idle stream.
fn start_read(stream: &mut Stream) {
    let mut space = [0u8; 1];
    let mut buf = ReadBuf::new(&mut space);
    assert!(matches!(
        stream.poll_read(Event::Called, &mut buf, read),
        Action::Poll
    ));
    assert!(stream.read_future().is_some());
}

/// Starts a read if none is in flight, and hands it the frame. Returns what was delivered to a
/// buffer of the given size, and the action.
fn receive(stream: &mut Stream, size: usize, received: PayloadFrame) -> (Vec<u8>, Action<()>) {
    if stream.read_future().is_none() {
        start_read(stream);
    }
    let mut space = vec![0u8; size];
    let mut buf = ReadBuf::new(&mut space);
    let action = stream.poll_read(Event::Done(Ok((socket(), received))), &mut buf, read);
    (buf.filled().to_vec(), action)
}

/// Calls a read that is served without a frame.
fn call_read(stream: &mut Stream, size: usize) -> (Vec<u8>, Action<()>) {
    let mut space = vec![0u8; size];
    let mut buf = ReadBuf::new(&mut space);
    let action = stream.poll_read(Event::Called, &mut buf, read);
    (buf.filled().to_vec(), action)
}

fn frame_in_flight(stream: &mut Stream) -> (bool, fastwebsockets::OpCode, Vec<u8>) {
    let (_, frame) = stream.write_future().unwrap();
    let frame = frame.as_ref().unwrap();
    (frame.fin, frame.opcode, frame.payload.to_vec())
}

fn is_ok(action: &Action<()>) -> bool {
    matches!(action, Action::Ready(Ok(())))
}

#[test]
fn payload_type_gives_the_opcode() {
    assert_eq!(OpCode::from(PayloadType::Binary), OpCode::Binary);
    assert_eq!(OpCode::from(PayloadType::Text), OpCode::Text);
}

#[test]
fn data_frame_is_a_whole_message() {
    let frame = data_frame(BytesMut::from(&b"abc"[..]), PayloadType::Text);
    assert!(frame.fin);
    assert_eq!(frame.opcode, fastwebsockets::OpCode::Text);
    assert_eq!(&frame.payload[..], b"abc");

    let frame = data_frame(BytesMut::new(), PayloadType::Binary);
    assert!(frame.fin);
    assert_eq!(frame.opcode, fastwebsockets::OpCode::Binary);
    assert_eq!(&frame.payload[..], b"");
}

#[test]
fn close_frame_is_empty() {
    let frame = close_frame();
    assert!(frame.fin);
    assert_eq!(frame.opcode, fastwebsockets::OpCode::Close);
    assert_eq!(&frame.payload[..], b"");
}

#[test]
fn frames_are_made_without_a_mask() {
    // The second byte of the header holds the mask bit; a mask would also lengthen the header.
    let mut head = [0u8; 16];
    let mut frame = data_frame(BytesMut::from(&b"abc"[..]), PayloadType::Binary);
    assert_eq!(frame.fmt_head(&mut head), 2);
    assert_eq!(&head[..2], &[0x82, 3]);

    let mut head = [0u8; 16];
    let mut frame = close_frame();
    assert_eq!(frame.fmt_head(&mut head), 2);
    assert_eq!(&head[..2], &[0x88, 0]);
}

#[test]
fn owned_frame_keeps_opcode_and_payload() {
    let pairs = [
        (fastwebsockets::OpCode::Continuation, OpCode::Continuation),
        (fastwebsockets::OpCode::Text, OpCode::Text),
        (fastwebsockets::OpCode::Binary, OpCode::Binary),
        (fastwebsockets::OpCode::Close, OpCode::Close),
        (fastwebsockets::OpCode::Ping, OpCode::Ping),
        (fastwebsockets::OpCode::Pong, OpCode::Pong),
    ];
    for (outside, inside) in pairs {
        let owned = PayloadFrame::from_frame(Frame::new(
            true,
            outside,
            None,
            Payload::Borrowed(b"data"),
        ));
        assert_eq!(owned.opcode, inside);
        assert_eq!(&owned.payload[..], b"data");
    }

    let mut bytes = *b"mutable";
    let owned = PayloadFrame::from_frame(Frame::binary(Payload::BorrowedMut(&mut bytes)));
    assert_eq!(&owned.payload[..], b"mutable");
    let owned = PayloadFrame::from_frame(Frame::binary(Payload::Owned(b"owned".to_vec())));
    assert_eq!(&owned.payload[..], b"owned");
    let owned = PayloadFrame::from_frame(Frame::binary(Payload::Bytes(BytesMut::from(
        &b"bytes"[..],
    ))));
    assert_eq!(&owned.payload[..], b"bytes");
}

#[test]
fn error_messages() {
    assert_eq!(
        StreamError::NotAvailable.message(),
        "Websocket not available"
    );
    assert_eq!(
        StreamError::PayloadMismatch.message(),
        "The received data type is different from the stream data type"
    );
    assert_eq!(
        make_io_err(WebSocketError::InvalidUTF8).message(),
        "Websocket error: Invalid UTF-8"
    );
}

#[test]
fn new_stream_is_idle_and_open() {
    let stream = stream(PayloadType::Binary);
    assert!(!stream.is_closed());
    assert!(stream.into_inner().is_some());
}

#[test]
fn large_payload_is_served_in_parts() {
    let mut stream = stream(PayloadType::Binary);
    let (got, action) = receive(&mut stream, 4, frame(OpCode::Binary, b"0123456789"));
    assert!(is_ok(&action));
    assert_eq!(&got, b"0123");
    assert_eq!(stream.summary().read_buf_len, 6);
    let (got, action) = call_read(&mut stream, 4);
    assert!(is_ok(&action));
    assert_eq!(&got, b"4567");
    let (got, action) = call_read(&mut stream, 4);
    assert!(is_ok(&action));
    assert_eq!(&got, b"89");
    assert_eq!(stream.summary().read_buf_len, 0);
}

#[test]
fn delivery_is_appended_to_the_buffer() {
    let mut stream = stream(PayloadType::Binary);
    start_read(&mut stream);
    let mut space = [0u8; 6];
    let mut buf = ReadBuf::new(&mut space);
    buf.put_slice(b"ab");
    let received = frame(OpCode::Binary, b"cdefgh");
    let action = stream.poll_read(Event::Done(Ok((socket(), received))), &mut buf, read);
    assert!(is_ok(&action));
    assert_eq!(buf.filled(), b"abcdef");
    assert_eq!(stream.summary().read_buf_len, 2);
}

#[test]
fn buffer_without_room_takes_nothing() {
    let mut stream = stream(PayloadType::Binary);
    let (got, action) = receive(&mut stream, 0, frame(OpCode::Binary, b"abc"));
    assert!(is_ok(&action));
    assert_eq!(&got, b"");
    let (got, action) = call_read(&mut stream, 0);
    assert!(is_ok(&action));
    assert_eq!(&got, b"");
    assert!(!stream.is_closed());
    let (got, _) = call_read(&mut stream, 8);
    assert_eq!(&got, b"abc");
}

#[test]
fn continuations_belong_to_either_type() {
    for payload_type in [PayloadType::Binary, PayloadType::Text] {
        let mut stream = stream(payload_type);
        let (got, action) = receive(&mut stream, 8, frame(OpCode::Continuation, b"more"));
        assert!(is_ok(&action));
        assert_eq!(&got, b"more");
    }
}

#[test]
fn frames_without_data_are_passed_over() {
    let mut stream = stream(PayloadType::Text);
    for received in [
        frame(OpCode::Ping, b"beat"),
        frame(OpCode::Pong, b"beat"),
        frame(OpCode::Text, b""),
        frame(OpCode::Continuation, b""),
    ] {
        let (got, action) = receive(&mut stream, 8, received);
        assert!(matches!(action, Action::Poll));
        assert_eq!(&got, b"");
        assert!(stream.read_future().is_some());
    }
    assert!(!stream.is_closed());
}

#[test]
fn control_frames_between_data_frames_do_not_matter() {
    let mut stream = stream(PayloadType::Binary);
    let mut all = Vec::new();
    for received in [
        frame(OpCode::Pong, b"early"),
        frame(OpCode::Binary, b"one"),
        frame(OpCode::Ping, b"beat"),
        frame(OpCode::Continuation, b"two"),
        frame(OpCode::Pong, b"beat"),
        frame(OpCode::Binary, b"three"),
    ] {
        let (got, _) = receive(&mut stream, 16, received);
        all.extend_from_slice(&got);
        assert!(!stream.is_closed());
    }
    assert_eq!(&all, b"onetwothree");
    let (_, action) = receive(&mut stream, 16, frame(OpCode::Close, b""));
    assert!(is_ok(&action));
    assert!(stream.is_closed());
}

#[test]
fn mismatch_is_an_error_that_keeps_the_websocket() {
    for (payload_type, opcode) in [
        (PayloadType::Binary, OpCode::Text),
        (PayloadType::Text, OpCode::Binary),
    ] {
        // An empty frame of the other type is a mismatch too.
        for payload in [&b"abc"[..], &b""[..]] {
            let mut stream = stream(payload_type);
            let (got, action) = receive(&mut stream, 8, frame(opcode, payload));
            assert!(matches!(
                action,
                Action::Ready(Err(StreamError::PayloadMismatch))
            ));
            assert_eq!(&got, b"");
            assert!(stream.into_inner().is_some());
        }
    }
}

#[test]
fn close_is_the_end_of_all_reads() {
    let mut stream = stream(PayloadType::Binary);
    let (got, action) = receive(&mut stream, 8, frame(OpCode::Close, b"\x03\xe8bye"));
    assert!(is_ok(&action));
    assert_eq!(&got, b"");
    assert!(stream.is_closed());
    for _ in 0..3 {
        let (got, action) = call_read(&mut stream, 8);
        assert!(is_ok(&action));
        assert_eq!(&got, b"");
        assert!(stream.read_future().is_none());
    }
    assert!(stream.into_inner().is_some());
}

#[test]
fn failed_read_loses_the_websocket() {
    let mut stream = stream(PayloadType::Binary);
    start_read(&mut stream);
    let mut space = [0u8; 8];
    let mut buf = ReadBuf::new(&mut space);
    let outcome = Err(WebSocketError::UnexpectedEOF);
    match stream.poll_read(Event::Done(outcome), &mut buf, read) {
        Action::Ready(Err(err)) => assert_eq!(err.message(), "Websocket error: Unexpected EOF"),
        _ => panic!("the read must fail"),
    }
    let lost = "Websocket not available";
    match stream.poll_read(Event::Called, &mut buf, read) {
        Action::Ready(Err(err)) => assert_eq!(err.message(), lost),
        _ => panic!("the read must fail"),
    }
    match stream.poll_write(Event::Called, b"x", write) {
        Action::Ready(Err(err)) => assert_eq!(err.message(), lost),
        _ => panic!("the write must fail"),
    }
    match stream.poll_flush(Event::Called, flush) {
        Action::Ready(Err(err)) => assert_eq!(err.message(), lost),
        _ => panic!("the flush must fail"),
    }
    match stream.poll_shutdown(Event::Called, write) {
        Action::Ready(Err(err)) => assert_eq!(err.message(), lost),
        _ => panic!("the shutdown must fail"),
    }
    assert!(stream.into_inner().is_none());
}

#[test]
fn failed_write_loses_the_websocket() {
    let mut stream = stream(PayloadType::Binary);
    assert!(matches!(
        stream.poll_write(Event::Called, b"x", write),
        Action::Poll
    ));
    let outcome = Err(WebSocketError::ConnectionClosed);
    match stream.poll_flush(Event::Done(outcome), flush) {
        Action::Ready(Err(err)) => {
            assert_eq!(err.message(), "Websocket error: Connection is closed")
        }
        _ => panic!("the flush must fail"),
    }
    assert_eq!(stream.summary().pending_op, "None");
    assert!(stream.write_future().is_none());
    assert!(matches!(
        stream.poll_write(Event::Called, b"x", write),
        Action::Ready(Err(StreamError::NotAvailable))
    ));
}

#[test]
fn bytes_received_before_a_loss_are_delivered() {
    let mut stream = stream(PayloadType::Binary);
    let (got, _) = receive(&mut stream, 2, frame(OpCode::Binary, b"abcd"));
    assert_eq!(&got, b"ab");
    assert!(matches!(
        stream.poll_flush(Event::Called, flush),
        Action::Poll
    ));
    let outcome = Err(WebSocketError::ConnectionClosed);
    assert!(matches!(
        stream.poll_flush(Event::Done(outcome), flush),
        Action::Ready(Err(StreamError::Websocket(_)))
    ));
    let (got, action) = call_read(&mut stream, 8);
    assert!(is_ok(&action));
    assert_eq!(&got, b"cd");
    let (_, action) = call_read(&mut stream, 8);
    assert!(matches!(
        action,
        Action::Ready(Err(StreamError::NotAvailable))
    ));
}

#[test]
fn write_sends_one_frame_and_reports_its_length() {
    for (payload_type, opcode) in [
        (PayloadType::Binary, fastwebsockets::OpCode::Binary),
        (PayloadType::Text, fastwebsockets::OpCode::Text),
    ] {
        let mut stream = stream(payload_type);
        assert!(matches!(
            stream.poll_write(Event::Called, b"Hello!", write),
            Action::Poll
        ));
        assert_eq!(
            frame_in_flight(&mut stream),
            (true, opcode, b"Hello!".to_vec())
        );
        assert!(matches!(
            stream.poll_write(Event::Pending, b"Hello!", write),
            Action::Pending
        ));
        // The call is repeated, and does not send again.
        assert!(matches!(
            stream.poll_write(Event::Called, b"Hello!", write),
            Action::Poll
        ));
        assert!(matches!(
            stream.poll_write(Event::Done(Ok((socket(), ()))), b"Hello!", write),
            Action::Ready(Ok(6))
        ));
        assert!(stream.write_future().is_none());
        assert!(stream.into_inner().is_some());
    }
}

#[test]
fn write_of_other_bytes_waits_and_then_sends_its_own() {
    // Shorter, of the same length, and longer than what is in flight.
    for other in [&b"x"[..], &b"World!"[..], &b"Hello! And more"[..]] {
        let mut stream = stream(PayloadType::Binary);
        assert!(matches!(
            stream.poll_write(Event::Called, b"Hello!", write),
            Action::Poll
        ));
        assert!(matches!(
            stream.poll_write(Event::Called, other, write),
            Action::Poll
        ));
        assert_eq!(
            frame_in_flight(&mut stream),
            (true, fastwebsockets::OpCode::Binary, b"Hello!".to_vec())
        );
        assert!(matches!(
            stream.poll_write(Event::Done(Ok((socket(), ()))), other, write),
            Action::Poll
        ));
        assert_eq!(
            frame_in_flight(&mut stream),
            (true, fastwebsockets::OpCode::Binary, other.to_vec())
        );
        match stream.poll_write(Event::Done(Ok((socket(), ()))), other, write) {
            Action::Ready(Ok(n)) => assert_eq!(n, other.len()),
            _ => panic!("the write must end"),
        }
        assert!(stream.write_future().is_none());
    }
}

#[test]
fn empty_write_is_told_from_a_flush() {
    let mut stream = stream(PayloadType::Binary);
    assert!(matches!(
        stream.poll_flush(Event::Called, flush),
        Action::Poll
    ));
    assert!(matches!(
        stream.poll_write(Event::Done(Ok((socket(), ()))), b"", write),
        Action::Poll
    ));
    assert_eq!(
        frame_in_flight(&mut stream),
        (true, fastwebsockets::OpCode::Binary, Vec::new())
    );
    assert!(matches!(
        stream.poll_write(Event::Done(Ok((socket(), ()))), b"", write),
        Action::Ready(Ok(0))
    ));
}

#[test]
fn calls_in_turn_send_their_frames_in_order() {
    let mut stream = stream(PayloadType::Text);
    let mut sent = Vec::new();
    for part in [&b"one"[..], &b""[..], &b"one"[..], &b"two"[..]] {
        assert!(matches!(
            stream.poll_write(Event::Called, part, write),
            Action::Poll
        ));
        sent.push(frame_in_flight(&mut stream));
        match stream.poll_write(Event::Done(Ok((socket(), ()))), part, write) {
            Action::Ready(Ok(n)) => assert_eq!(n, part.len()),
            _ => panic!("the write must end"),
        }
    }
    assert!(matches!(
        stream.poll_shutdown(Event::Called, write),
        Action::Poll
    ));
    sent.push(frame_in_flight(&mut stream));
    let action = stream.poll_shutdown(Event::Done(Ok((socket(), ()))), write);
    assert!(is_ok(&action));
    let text = fastwebsockets::OpCode::Text;
    assert_eq!(
        sent,
        vec![
            (true, text, b"one".to_vec()),
            (true, text, Vec::new()),
            (true, text, b"one".to_vec()),
            (true, text, b"two".to_vec()),
            (true, fastwebsockets::OpCode::Close, Vec::new()),
        ]
    );
}

#[test]
fn flush_after_a_write_in_flight_really_flushes() {
    let mut stream = stream(PayloadType::Binary);
    assert!(matches!(
        stream.poll_write(Event::Called, b"abc", write),
        Action::Poll
    ));
    assert!(matches!(
        stream.poll_flush(Event::Called, flush),
        Action::Poll
    ));
    assert_eq!(stream.summary().pending_op, "Write");
    assert!(matches!(
        stream.poll_flush(Event::Done(Ok((socket(), ()))), flush),
        Action::Poll
    ));
    assert_eq!(stream.summary().pending_op, "Flush");
    assert!(stream.write_future().unwrap().1.is_none());
    let action = stream.poll_flush(Event::Done(Ok((socket(), ()))), flush);
    assert!(is_ok(&action));
}

#[test]
fn write_after_a_flush_in_flight_is_not_reported_as_written() {
    let mut stream = stream(PayloadType::Binary);
    assert!(matches!(
        stream.poll_flush(Event::Called, flush),
        Action::Poll
    ));
    assert!(matches!(
        stream.poll_write(Event::Called, b"abc", write),
        Action::Poll
    ));
    assert!(matches!(
        stream.poll_write(Event::Done(Ok((socket(), ()))), b"abc", write),
        Action::Poll
    ));
    assert_eq!(
        frame_in_flight(&mut stream),
        (true, fastwebsockets::OpCode::Binary, b"abc".to_vec())
    );
    assert!(matches!(
        stream.poll_write(Event::Done(Ok((socket(), ()))), b"abc", write),
        Action::Ready(Ok(3))
    ));
}

#[test]
fn shutdown_sends_a_close_frame() {
    let mut stream = stream(PayloadType::Text);
    assert!(matches!(
        stream.poll_write(Event::Called, b"abc", write),
        Action::Poll
    ));
    assert!(matches!(
        stream.poll_shutdown(Event::Called, write),
        Action::Poll
    ));
    assert!(matches!(
        stream.poll_shutdown(Event::Pending, write),
        Action::Pending
    ));
    assert!(matches!(
        stream.poll_shutdown(Event::Done(Ok((socket(), ()))), write),
        Action::Poll
    ));
    assert_eq!(
        frame_in_flight(&mut stream),
        (true, fastwebsockets::OpCode::Close, Vec::new())
    );
    assert_eq!(stream.summary().pending_op, "Close");
    let action = stream.poll_shutdown(Event::Done(Ok((socket(), ()))), write);
    assert!(is_ok(&action));
    // Only a Close frame from the peer closes the stream for reads.
    assert!(!stream.is_closed());
}

#[test]
fn reads_and_writes_exclude_each_other() {
    let mut reading = stream(PayloadType::Binary);
    start_read(&mut reading);
    assert!(matches!(
        reading.poll_write(Event::Called, b"x", write),
        Action::Ready(Err(StreamError::NotAvailable))
    ));
    assert!(reading.read_future().is_some());
    let mut space = [0u8; 4];
    let mut buf = ReadBuf::new(&mut space);
    assert!(matches!(
        reading.poll_read(Event::Pending, &mut buf, read),
        Action::Pending
    ));
    assert!(reading.into_inner().is_none());

    let mut writing = stream(PayloadType::Binary);
    assert!(matches!(
        writing.poll_write(Event::Called, b"x", write),
        Action::Poll
    ));
    let (_, action) = call_read(&mut writing, 4);
    assert!(matches!(
        action,
        Action::Ready(Err(StreamError::NotAvailable))
    ));
    assert!(writing.write_future().is_some());
    assert!(writing.into_inner().is_none());
}

#[test]
fn drive_reports_each_result_once() {
    let mut stream = stream(PayloadType::Binary);
    assert!(matches!(
        stream.poll_drive(Event::Called),
        Action::Ready(Ok(None))
    ));

    assert!(matches!(
        stream.poll_write(Event::Called, b"abc", write),
        Action::Poll
    ));
    assert!(matches!(stream.poll_drive(Event::Called), Action::Poll));
    assert!(matches!(stream.poll_drive(Event::Pending), Action::Pending));
    assert!(stream.write_future().is_some());
    assert!(matches!(
        stream.poll_drive(Event::Done(Ok((socket(), ())))),
        Action::Ready(Ok(Some(PendingOp::Write(3))))
    ));
    assert!(stream.write_future().is_none());
    assert!(matches!(
        stream.poll_drive(Event::Called),
        Action::Ready(Ok(None))
    ));

    assert!(matches!(
        stream.poll_flush(Event::Called, flush),
        Action::Poll
    ));
    assert!(matches!(
        stream.poll_drive(Event::Done(Err(WebSocketError::ConnectionClosed))),
        Action::Ready(Err(StreamError::Websocket(_)))
    ));
    assert!(matches!(
        stream.poll_drive(Event::Called),
        Action::Ready(Ok(None))
    ));
    assert!(stream.into_inner().is_none());
}

#[test]
fn closed_stream_ends_reads_even_without_the_websocket() {
    let mut stream = stream(PayloadType::Binary);
    receive(&mut stream, 4, frame(OpCode::Close, b""));
    assert!(matches!(
        stream.poll_flush(Event::Called, flush),
        Action::Poll
    ));
    assert!(matches!(
        stream.poll_flush(Event::Done(Err(WebSocketError::ConnectionClosed)), flush),
        Action::Ready(Err(StreamError::Websocket(_)))
    ));
    let (got, action) = call_read(&mut stream, 4);
    assert!(is_ok(&action));
    assert_eq!(&got, b"");
}

#[test]
fn summary_names_the_states() {
    let mut stream = stream(PayloadType::Binary);
    let summary = stream.summary();
    assert_eq!(summary.read_buf_len, 0);
    assert_eq!(summary.read_state, "Idle");
    assert_eq!(summary.write_state, "Idle");
    assert_eq!(summary.pending_op, "None");
    assert!(!summary.closed);

    start_read(&mut stream);
    assert_eq!(stream.summary().read_state, "Reading");
    receive(&mut stream, 1, frame(OpCode::Binary, b"abc"));
    assert_eq!(stream.summary().read_state, "Idle");
    assert_eq!(stream.summary().read_buf_len, 2);
    assert!(matches!(
        stream.poll_write(Event::Called, b"x", write),
        Action::Poll
    ));
    assert_eq!(stream.summary().write_state, "Writing");
    assert_eq!(stream.summary().pending_op, "Write");

    let mut closing = WebSocketStream::new(socket(), PayloadType::Binary);
    receive(&mut closing, 1, frame(OpCode::Close, b""));
    assert!(closing.summary().closed);
}

#[test]
fn names() {
    assert_eq!(read_state_name(&ReadState::<u8>::Idle), "Idle");
    assert_eq!(read_state_name(&ReadState::Reading(1u8)), "Reading");
    assert_eq!(write_state_name(&WriteState::<u8>::Idle), "Idle");
    assert_eq!(write_state_name(&WriteState::Writing(1u8)), "Writing");
    assert_eq!(pending_op_name(&None), "None");
    assert_eq!(pending_op_name(&Some(PendingOp::Write(3))), "Write");
    assert_eq!(pending_op_name(&Some(PendingOp::Flush)), "Flush");
    assert_eq!(pending_op_name(&Some(PendingOp::Close)), "Close");
}
