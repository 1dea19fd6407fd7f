//! What each call of the library gives, said of the call itself: of its inputs, its result, and
//! the stream before and after.

use crate::buffers;
use crate::error::{make_io_err, StreamError};
use crate::frame::{close_frame, data_frame, FrameContent, OpCode, PayloadFrame, PayloadType};
use crate::frame;
use crate::laws::Op;
use crate::laws;
use crate::model::StreamState;
use crate::stream::{
    pending_op_name, read_state_name, write_state_name, Action, Event, FutureResult, PendingOp,
    ReadState, Summary, WebSocketStream, WriteState,
};
use crate::stream;
use bytes::BytesMut;
use fastwebsockets::{Frame, WebSocket, WebSocketError};
use tokio::io::ReadBuf;
use vstd::prelude::*;
use vstd::string::*;

verus! {

/// A write that is called on a stream that holds the websocket starts at once: the future that
/// sends one whole data frame with exactly the bytes of `buf`, of the opcode that the payload
/// type names, is made from that websocket, and is to be polled. What is buffered, and whether
/// the peer has closed, makes no difference.
pub proof fn law_write_starts_on_an_idle_stream<
    S,
    R,
    W,
    M: FnOnce(WebSocket<S>, Frame<'static>) -> W,
>(
    stream: &mut WebSocketStream<S, R, W>,
    event: Event<FutureResult<S, ()>>,
    buf: &[u8],
    write: M,
    action: Action<usize>,
)
    requires
        call_ensures(
            WebSocketStream::<S, R, W>::poll_write::<M>,
            (stream, event, buf, write),
            action,
        ),
        event is Called,
        old(stream)@.write_state is Idle,
        old(stream)@.websocket is Some,
    ensures
        ({
            let websocket = old(stream)@.websocket->0;
            &&& final(stream)@.write_state matches WriteState::Writing(future)
            &&& exists|sent: Frame<'static>|
                {
                    &&& frame::frame_content(sent) == (FrameContent {
                        fin: true,
                        opcode: match old(stream)@.payload_type {
                            PayloadType::Binary => OpCode::Binary,
                            PayloadType::Text => OpCode::Text,
                        },
                        mask: None,
                        payload: buf@,
                    })
                    &&& #[trigger] call_ensures(write, (websocket, sent), future)
                }
        }),
        action == Action::<usize>::Poll,
        final(stream)@ == (StreamState {
            websocket: None,
            write_state: final(stream)@.write_state,
            pending_op: Some(PendingOp::Write(buf@.len() as usize)),
            write_buf: buf@,
            ..old(stream)@
        }),
{
}

/// A write ends with `NotAvailable` exactly when it is called with nothing in flight on the write
/// side while the stream does not hold the websocket; and then it changes nothing.
pub proof fn law_write_is_not_available_without_a_websocket_only<
    S,
    R,
    W,
    M: FnOnce(WebSocket<S>, Frame<'static>) -> W,
>(
    stream: &mut WebSocketStream<S, R, W>,
    event: Event<FutureResult<S, ()>>,
    buf: &[u8],
    write: M,
    action: Action<usize>,
)
    requires
        call_ensures(
            WebSocketStream::<S, R, W>::poll_write::<M>,
            (stream, event, buf, write),
            action,
        ),
    ensures
        action == Action::<usize>::Ready(Err(StreamError::NotAvailable)) <==> event is Called
            && old(stream)@.write_state is Idle && old(stream)@.websocket is None,
        action == Action::<usize>::Ready(Err(StreamError::NotAvailable)) ==> final(stream)@
            == old(stream)@,
{
}

/// While something is in flight on the write side and not finished, a write waits for it and
/// changes nothing.
pub proof fn law_write_waits_for_what_is_in_flight<
    S,
    R,
    W,
    M: FnOnce(WebSocket<S>, Frame<'static>) -> W,
>(
    stream: &mut WebSocketStream<S, R, W>,
    event: Event<FutureResult<S, ()>>,
    buf: &[u8],
    write: M,
    action: Action<usize>,
)
    requires
        call_ensures(
            WebSocketStream::<S, R, W>::poll_write::<M>,
            (stream, event, buf, write),
            action,
        ),
    ensures
        event is Called && old(stream)@.write_state is Writing ==> action == Action::<usize>::Poll
            && final(stream)@ == old(stream)@,
        event is Pending ==> action == Action::<usize>::Pending && final(stream)@ == old(stream)@,
        action is Pending ==> event is Pending,
{
}

/// When what is in flight ends with a failure of the websocket, the write that learns of it ends
/// with an error that carries the text of that very failure, and nothing is in flight on the
/// write side any more. A write reports a failure of the websocket in no other case, and never a
/// payload mismatch.
pub proof fn law_write_reports_a_failure<
    S,
    R,
    W,
    M: FnOnce(WebSocket<S>, Frame<'static>) -> W,
>(
    stream: &mut WebSocketStream<S, R, W>,
    event: Event<FutureResult<S, ()>>,
    buf: &[u8],
    write: M,
    action: Action<usize>,
)
    requires
        call_ensures(
            WebSocketStream::<S, R, W>::poll_write::<M>,
            (stream, event, buf, write),
            action,
        ),
    ensures
        event matches Event::Done(Err(cause)) ==> {
            &&& action matches Action::Ready(Err(StreamError::Websocket(text)))
            &&& to_string_from_display_ensures(&cause, text)
            &&& final(stream)@ == (StreamState {
                write_state: WriteState::Idle,
                pending_op: None,
                write_buf: Seq::empty(),
                ..old(stream)@
            })
        },
        action matches Action::Ready(Err(err)) ==> match err {
            StreamError::NotAvailable => event is Called,
            StreamError::PayloadMismatch => false,
            StreamError::Websocket(_) => event matches Event::Done(Err(_)),
        },
{
}

/// A write ends well exactly when its own operation was in flight and finished well. It reports
/// the number of its bytes. Then the stream holds the websocket that comes back, and nothing is
/// in flight on the write side.
pub proof fn law_write_ends_well_with_its_own_operation_only<
    S,
    R,
    W,
    M: FnOnce(WebSocket<S>, Frame<'static>) -> W,
>(
    stream: &mut WebSocketStream<S, R, W>,
    event: Event<FutureResult<S, ()>>,
    buf: &[u8],
    write: M,
    action: Action<usize>,
)
    requires
        call_ensures(
            WebSocketStream::<S, R, W>::poll_write::<M>,
            (stream, event, buf, write),
            action,
        ),
    ensures
        action matches Action::Ready(Ok(_)) <==> (event matches Event::Done(Ok(_)))
            && (old(stream)@.pending_op matches Some(PendingOp::Write(_)))
            && old(stream)@.write_buf == buf@,
        action matches Action::Ready(Ok(n)) ==> n == buf@.len(),
        action matches Action::Ready(Ok(_)) ==> (event matches Event::Done(Ok((websocket, _)))
            && final(stream)@ == (StreamState {
            websocket: Some(websocket),
            write_state: WriteState::Idle,
            pending_op: None,
            write_buf: Seq::empty(),
            ..old(stream)@
        })),
{
}

/// When another's operation was in flight and finished well, a write starts its own on the
/// websocket that comes back.
pub proof fn law_write_starts_after_another_operation<
    S,
    R,
    W,
    M: FnOnce(WebSocket<S>, Frame<'static>) -> W,
>(
    stream: &mut WebSocketStream<S, R, W>,
    event: Event<FutureResult<S, ()>>,
    buf: &[u8],
    write: M,
    action: Action<usize>,
)
    requires
        call_ensures(
            WebSocketStream::<S, R, W>::poll_write::<M>,
            (stream, event, buf, write),
            action,
        ),
        event matches Event::Done(Ok(_)),
        !((old(stream)@.pending_op matches Some(PendingOp::Write(_)))
            && old(stream)@.write_buf == buf@),
    ensures
        ({
            let websocket = (event->Done_0->Ok_0).0;
            &&& final(stream)@.write_state matches WriteState::Writing(future)
            &&& exists|sent: Frame<'static>|
                {
                    &&& frame::frame_content(sent) == (FrameContent {
                        fin: true,
                        opcode: match old(stream)@.payload_type {
                            PayloadType::Binary => OpCode::Binary,
                            PayloadType::Text => OpCode::Text,
                        },
                        mask: None,
                        payload: buf@,
                    })
                    &&& #[trigger] call_ensures(write, (websocket, sent), future)
                }
        }),
        action == Action::<usize>::Poll,
        final(stream)@ == (StreamState {
            websocket: None,
            write_state: final(stream)@.write_state,
            pending_op: Some(PendingOp::Write(buf@.len() as usize)),
            write_buf: buf@,
            ..old(stream)@
        }),
{
}

/// A flush that is called on a stream that holds the websocket starts at once: the future that
/// flushes the websocket is made from that websocket, and is to be polled. The payload type, what
/// is buffered, and whether the peer has closed, make no difference.
pub proof fn law_flush_starts_on_an_idle_stream<
    S,
    R,
    W,
    M: FnOnce(WebSocket<S>) -> W,
>(
    stream: &mut WebSocketStream<S, R, W>,
    event: Event<FutureResult<S, ()>>,
    flush: M,
    action: Action<()>,
)
    requires
        call_ensures(
            WebSocketStream::<S, R, W>::poll_flush::<M>,
            (stream, event, flush),
            action,
        ),
        event is Called,
        old(stream)@.write_state is Idle,
        old(stream)@.websocket is Some,
    ensures
        ({
            let websocket = old(stream)@.websocket->0;
            &&& final(stream)@.write_state matches WriteState::Writing(future)
            &&& call_ensures(flush, (websocket,), future)
        }),
        action == Action::<()>::Poll,
        final(stream)@ == (StreamState {
            websocket: None,
            write_state: final(stream)@.write_state,
            pending_op: Some(PendingOp::Flush),
            write_buf: Seq::<u8>::empty(),
            ..old(stream)@
        }),
{
}

/// A flush ends with `NotAvailable` exactly when it is called with nothing in flight on the write
/// side while the stream does not hold the websocket; and then it changes nothing.
pub proof fn law_flush_is_not_available_without_a_websocket_only<
    S,
    R,
    W,
    M: FnOnce(WebSocket<S>) -> W,
>(
    stream: &mut WebSocketStream<S, R, W>,
    event: Event<FutureResult<S, ()>>,
    flush: M,
    action: Action<()>,
)
    requires
        call_ensures(
            WebSocketStream::<S, R, W>::poll_flush::<M>,
            (stream, event, flush),
            action,
        ),
    ensures
        action == Action::<()>::Ready(Err(StreamError::NotAvailable)) <==> event is Called
            && old(stream)@.write_state is Idle && old(stream)@.websocket is None,
        action == Action::<()>::Ready(Err(StreamError::NotAvailable)) ==> final(stream)@
            == old(stream)@,
{
}

/// While something is in flight on the write side and not finished, a flush waits for it and
/// changes nothing.
pub proof fn law_flush_waits_for_what_is_in_flight<
    S,
    R,
    W,
    M: FnOnce(WebSocket<S>) -> W,
>(
    stream: &mut WebSocketStream<S, R, W>,
    event: Event<FutureResult<S, ()>>,
    flush: M,
    action: Action<()>,
)
    requires
        call_ensures(
            WebSocketStream::<S, R, W>::poll_flush::<M>,
            (stream, event, flush),
            action,
        ),
    ensures
        event is Called && old(stream)@.write_state is Writing ==> action == Action::<()>::Poll
            && final(stream)@ == old(stream)@,
        event is Pending ==> action == Action::<()>::Pending && final(stream)@ == old(stream)@,
        action is Pending ==> event is Pending,
{
}

/// When what is in flight ends with a failure of the websocket, the flush that learns of it ends
/// with an error that carries the text of that very failure, and nothing is in flight on the
/// write side any more. A flush reports a failure of the websocket in no other case, and never a
/// payload mismatch.
pub proof fn law_flush_reports_a_failure<
    S,
    R,
    W,
    M: FnOnce(WebSocket<S>) -> W,
>(
    stream: &mut WebSocketStream<S, R, W>,
    event: Event<FutureResult<S, ()>>,
    flush: M,
    action: Action<()>,
)
    requires
        call_ensures(
            WebSocketStream::<S, R, W>::poll_flush::<M>,
            (stream, event, flush),
            action,
        ),
    ensures
        event matches Event::Done(Err(cause)) ==> {
            &&& action matches Action::Ready(Err(StreamError::Websocket(text)))
            &&& to_string_from_display_ensures(&cause, text)
            &&& final(stream)@ == (StreamState {
                write_state: WriteState::Idle,
                pending_op: None,
                write_buf: Seq::empty(),
                ..old(stream)@
            })
        },
        action matches Action::Ready(Err(err)) ==> match err {
            StreamError::NotAvailable => event is Called,
            StreamError::PayloadMismatch => false,
            StreamError::Websocket(_) => event matches Event::Done(Err(_)),
        },
{
}

/// A flush ends well exactly when its own operation was in flight and finished well. Then the
/// stream holds the websocket that comes back, and nothing is in flight on the write side.
pub proof fn law_flush_ends_well_with_its_own_operation_only<
    S,
    R,
    W,
    M: FnOnce(WebSocket<S>) -> W,
>(
    stream: &mut WebSocketStream<S, R, W>,
    event: Event<FutureResult<S, ()>>,
    flush: M,
    action: Action<()>,
)
    requires
        call_ensures(
            WebSocketStream::<S, R, W>::poll_flush::<M>,
            (stream, event, flush),
            action,
        ),
    ensures
        action matches Action::Ready(Ok(_)) <==> (event matches Event::Done(Ok(_)))
            && old(stream)@.pending_op == Some(PendingOp::Flush),
        action matches Action::Ready(Ok(_)) ==> (event matches Event::Done(Ok((websocket, _)))
            && final(stream)@ == (StreamState {
            websocket: Some(websocket),
            write_state: WriteState::Idle,
            pending_op: None,
            write_buf: Seq::empty(),
            ..old(stream)@
        })),
{
}

/// When another's operation was in flight and finished well, a flush starts its own on the
/// websocket that comes back.
pub proof fn law_flush_starts_after_another_operation<
    S,
    R,
    W,
    M: FnOnce(WebSocket<S>) -> W,
>(
    stream: &mut WebSocketStream<S, R, W>,
    event: Event<FutureResult<S, ()>>,
    flush: M,
    action: Action<()>,
)
    requires
        call_ensures(
            WebSocketStream::<S, R, W>::poll_flush::<M>,
            (stream, event, flush),
            action,
        ),
        event matches Event::Done(Ok(_)),
        !(old(stream)@.pending_op == Some(PendingOp::Flush)),
    ensures
        ({
            let websocket = (event->Done_0->Ok_0).0;
            &&& final(stream)@.write_state matches WriteState::Writing(future)
            &&& call_ensures(flush, (websocket,), future)
        }),
        action == Action::<()>::Poll,
        final(stream)@ == (StreamState {
            websocket: None,
            write_state: final(stream)@.write_state,
            pending_op: Some(PendingOp::Flush),
            write_buf: Seq::<u8>::empty(),
            ..old(stream)@
        }),
{
}

/// A shutdown that is called on a stream that holds the websocket starts at once: the future that
/// sends one empty Close frame is made from that websocket, and is to be polled. The payload
/// type, what is buffered, and whether the peer has closed, make no difference.
pub proof fn law_shutdown_starts_on_an_idle_stream<
    S,
    R,
    W,
    M: FnOnce(WebSocket<S>, Frame<'static>) -> W,
>(
    stream: &mut WebSocketStream<S, R, W>,
    event: Event<FutureResult<S, ()>>,
    close: M,
    action: Action<()>,
)
    requires
        call_ensures(
            WebSocketStream::<S, R, W>::poll_shutdown::<M>,
            (stream, event, close),
            action,
        ),
        event is Called,
        old(stream)@.write_state is Idle,
        old(stream)@.websocket is Some,
    ensures
        ({
            let websocket = old(stream)@.websocket->0;
            &&& final(stream)@.write_state matches WriteState::Writing(future)
            &&& exists|sent: Frame<'static>|
                {
                    &&& frame::frame_content(sent) == (FrameContent {
                        fin: true,
                        opcode: OpCode::Close,
                        mask: None,
                        payload: Seq::empty(),
                    })
                    &&& #[trigger] call_ensures(close, (websocket, sent), future)
                }
        }),
        action == Action::<()>::Poll,
        final(stream)@ == (StreamState {
            websocket: None,
            write_state: final(stream)@.write_state,
            pending_op: Some(PendingOp::Close),
            write_buf: Seq::<u8>::empty(),
            ..old(stream)@
        }),
{
}

/// A shutdown ends with `NotAvailable` exactly when it is called with nothing in flight on the
/// write side while the stream does not hold the websocket; and then it changes nothing.
pub proof fn law_shutdown_is_not_available_without_a_websocket_only<
    S,
    R,
    W,
    M: FnOnce(WebSocket<S>, Frame<'static>) -> W,
>(
    stream: &mut WebSocketStream<S, R, W>,
    event: Event<FutureResult<S, ()>>,
    close: M,
    action: Action<()>,
)
    requires
        call_ensures(
            WebSocketStream::<S, R, W>::poll_shutdown::<M>,
            (stream, event, close),
            action,
        ),
    ensures
        action == Action::<()>::Ready(Err(StreamError::NotAvailable)) <==> event is Called
            && old(stream)@.write_state is Idle && old(stream)@.websocket is None,
        action == Action::<()>::Ready(Err(StreamError::NotAvailable)) ==> final(stream)@
            == old(stream)@,
{
}

/// While something is in flight on the write side and not finished, a shutdown waits for it and
/// changes nothing.
pub proof fn law_shutdown_waits_for_what_is_in_flight<
    S,
    R,
    W,
    M: FnOnce(WebSocket<S>, Frame<'static>) -> W,
>(
    stream: &mut WebSocketStream<S, R, W>,
    event: Event<FutureResult<S, ()>>,
    close: M,
    action: Action<()>,
)
    requires
        call_ensures(
            WebSocketStream::<S, R, W>::poll_shutdown::<M>,
            (stream, event, close),
            action,
        ),
    ensures
        event is Called && old(stream)@.write_state is Writing ==> action == Action::<()>::Poll
            && final(stream)@ == old(stream)@,
        event is Pending ==> action == Action::<()>::Pending && final(stream)@ == old(stream)@,
        action is Pending ==> event is Pending,
{
}

/// When what is in flight ends with a failure of the websocket, the shutdown that learns of it
/// ends with an error that carries the text of that very failure, and nothing is in flight on the
/// write side any more. A shutdown reports a failure of the websocket in no other case, and never
/// a payload mismatch.
pub proof fn law_shutdown_reports_a_failure<
    S,
    R,
    W,
    M: FnOnce(WebSocket<S>, Frame<'static>) -> W,
>(
    stream: &mut WebSocketStream<S, R, W>,
    event: Event<FutureResult<S, ()>>,
    close: M,
    action: Action<()>,
)
    requires
        call_ensures(
            WebSocketStream::<S, R, W>::poll_shutdown::<M>,
            (stream, event, close),
            action,
        ),
    ensures
        event matches Event::Done(Err(cause)) ==> {
            &&& action matches Action::Ready(Err(StreamError::Websocket(text)))
            &&& to_string_from_display_ensures(&cause, text)
            &&& final(stream)@ == (StreamState {
                write_state: WriteState::Idle,
                pending_op: None,
                write_buf: Seq::empty(),
                ..old(stream)@
            })
        },
        action matches Action::Ready(Err(err)) ==> match err {
            StreamError::NotAvailable => event is Called,
            StreamError::PayloadMismatch => false,
            StreamError::Websocket(_) => event matches Event::Done(Err(_)),
        },
{
}

/// A shutdown ends well exactly when its own operation was in flight and finished well. Then the
/// stream holds the websocket that comes back, and nothing is in flight on the write side.
pub proof fn law_shutdown_ends_well_with_its_own_operation_only<
    S,
    R,
    W,
    M: FnOnce(WebSocket<S>, Frame<'static>) -> W,
>(
    stream: &mut WebSocketStream<S, R, W>,
    event: Event<FutureResult<S, ()>>,
    close: M,
    action: Action<()>,
)
    requires
        call_ensures(
            WebSocketStream::<S, R, W>::poll_shutdown::<M>,
            (stream, event, close),
            action,
        ),
    ensures
        action matches Action::Ready(Ok(_)) <==> (event matches Event::Done(Ok(_)))
            && old(stream)@.pending_op == Some(PendingOp::Close),
        action matches Action::Ready(Ok(_)) ==> (event matches Event::Done(Ok((websocket, _)))
            && final(stream)@ == (StreamState {
            websocket: Some(websocket),
            write_state: WriteState::Idle,
            pending_op: None,
            write_buf: Seq::empty(),
            ..old(stream)@
        })),
{
}

/// When another's operation was in flight and finished well, a shutdown starts its own on the
/// websocket that comes back.
pub proof fn law_shutdown_starts_after_another_operation<
    S,
    R,
    W,
    M: FnOnce(WebSocket<S>, Frame<'static>) -> W,
>(
    stream: &mut WebSocketStream<S, R, W>,
    event: Event<FutureResult<S, ()>>,
    close: M,
    action: Action<()>,
)
    requires
        call_ensures(
            WebSocketStream::<S, R, W>::poll_shutdown::<M>,
            (stream, event, close),
            action,
        ),
        event matches Event::Done(Ok(_)),
        !(old(stream)@.pending_op == Some(PendingOp::Close)),
    ensures
        ({
            let websocket = (event->Done_0->Ok_0).0;
            &&& final(stream)@.write_state matches WriteState::Writing(future)
            &&& exists|sent: Frame<'static>|
                {
                    &&& frame::frame_content(sent) == (FrameContent {
                        fin: true,
                        opcode: OpCode::Close,
                        mask: None,
                        payload: Seq::empty(),
                    })
                    &&& #[trigger] call_ensures(close, (websocket, sent), future)
                }
        }),
        action == Action::<()>::Poll,
        final(stream)@ == (StreamState {
            websocket: None,
            write_state: final(stream)@.write_state,
            pending_op: Some(PendingOp::Close),
            write_buf: Seq::<u8>::empty(),
            ..old(stream)@
        }),
{
}

/// A write that was started, alone or after another's operation, sends its bytes once. When it
/// has gone out, the same call, repeated, ends with the number of the bytes and sends nothing
/// more, and the stream holds the websocket that comes back. A call with other bytes sends them
/// then.
pub proof fn law_a_write_is_finished_by_its_own_bytes<
    S,
    R,
    W,
    M1: FnOnce(WebSocket<S>, Frame<'static>) -> W,
    M2: FnOnce(WebSocket<S>, Frame<'static>) -> W,
>(
    stream: &mut WebSocketStream<S, R, W>,
    event: Event<FutureResult<S, ()>>,
    buf: &[u8],
    write: M1,
    action: Action<usize>,
    polled: W,
    later: &mut WebSocketStream<S, R, W>,
    websocket: WebSocket<S>,
    again: &[u8],
    rewrite: M2,
    result: Action<usize>,
)
    requires
        call_ensures(
            WebSocketStream::<S, R, W>::poll_write::<M1>,
            (stream, event, buf, write),
            action,
        ),
        !(event is Called && old(stream)@.write_state is Writing),
        action is Poll,
        call_ensures(
            WebSocketStream::<S, R, W>::poll_write::<M2>,
            (later, Event::Done(Ok((websocket, ()))), again, rewrite),
            result,
        ),
    ensures
        old(later)@ == (StreamState {
            write_state: WriteState::Writing(polled),
            ..final(stream)@
        }) ==> if again@ == buf@ {
            &&& result matches Action::Ready(Ok(n)) && n == buf@.len()
            &&& final(later)@.websocket == Some(websocket)
            &&& final(later)@.write_state is Idle
        } else {
            &&& result is Poll
            &&& final(later)@.write_state matches WriteState::Writing(future)
            &&& exists|sent: Frame<'static>|
                {
                    &&& frame::frame_content(sent).payload == again@
                    &&& #[trigger] call_ensures(rewrite, (websocket, sent), future)
                }
        },
{
}

/// A write, a flush and a shutdown do not take one another's operation for their own: a flush
/// that learns that a write has finished, and a write or a shutdown that learns that a flush has,
/// ask for a further poll, now of their own operation.
pub proof fn law_no_call_ends_with_another_operation<
    S,
    R,
    W,
    M1: FnOnce(WebSocket<S>, Frame<'static>) -> W,
    M2: FnOnce(WebSocket<S>) -> W,
    M3: FnOnce(WebSocket<S>, Frame<'static>) -> W,
>(
    writer: &mut WebSocketStream<S, R, W>,
    flusher: &mut WebSocketStream<S, R, W>,
    closer: &mut WebSocketStream<S, R, W>,
    websocket: WebSocket<S>,
    buf: &[u8],
    write: M1,
    flush: M2,
    close: M3,
    written: Action<usize>,
    flushed: Action<()>,
    closed: Action<()>,
)
    requires
        old(writer)@ == old(flusher)@,
        old(writer)@ == old(closer)@,
        call_ensures(
            WebSocketStream::<S, R, W>::poll_write::<M1>,
            (writer, Event::Done(Ok((websocket, ()))), buf, write),
            written,
        ),
        call_ensures(
            WebSocketStream::<S, R, W>::poll_flush::<M2>,
            (flusher, Event::Done(Ok((websocket, ()))), flush),
            flushed,
        ),
        call_ensures(
            WebSocketStream::<S, R, W>::poll_shutdown::<M3>,
            (closer, Event::Done(Ok((websocket, ()))), close),
            closed,
        ),
    ensures
        written is Ready ==> flushed is Poll && closed is Poll,
        flushed is Ready ==> written is Poll && closed is Poll,
        closed is Ready ==> written is Poll && flushed is Poll,
{
}

/// Driving what is in flight on the write side: there may be nothing, it may not be finished, it
/// may have finished, which gives the websocket back and tells what it was, or it may have
/// failed, which is reported with the text of the failure.
pub proof fn law_a_drive_tells_what_finished<S, R, W>(
    stream: &mut WebSocketStream<S, R, W>,
    event: Event<FutureResult<S, ()>>,
    action: Action<Option<PendingOp>>,
)
    requires
        old(stream)@.inv(),
        event is Called || old(stream)@.write_state is Writing,
        call_ensures(WebSocketStream::<S, R, W>::poll_drive, (stream, event), action),
    ensures
        event is Called ==> final(stream)@ == old(stream)@,
        event is Called && old(stream)@.write_state is Writing ==> action is Poll,
        event is Called && old(stream)@.write_state is Idle ==> action == Action::<
            Option<PendingOp>,
        >::Ready(Ok(None)),
        event is Pending ==> final(stream)@ == old(stream)@ && action is Pending,
        event matches Event::Done(Ok((websocket, _))) ==> {
            &&& old(stream)@.pending_op is Some
            &&& action == Action::<Option<PendingOp>>::Ready(Ok(old(stream)@.pending_op))
            &&& final(stream)@ == (StreamState {
                websocket: Some(websocket),
                write_state: WriteState::Idle,
                pending_op: None,
                write_buf: Seq::empty(),
                ..old(stream)@
            })
        },
        event matches Event::Done(Err(cause)) ==> {
            &&& action matches Action::Ready(Err(StreamError::Websocket(text)))
            &&& to_string_from_display_ensures(&cause, text)
            &&& final(stream)@ == (StreamState {
                write_state: WriteState::Idle,
                pending_op: None,
                write_buf: Seq::empty(),
                ..old(stream)@
            })
        },
{
}

/// A write that was started, and is then driven to its end, is told with the number of its bytes;
/// so is a flush as a flush, and a shutdown as a close.
pub proof fn law_a_drive_tells_what_was_started<
    S,
    R,
    W,
    M1: FnOnce(WebSocket<S>, Frame<'static>) -> W,
    M2: FnOnce(WebSocket<S>) -> W,
    M3: FnOnce(WebSocket<S>, Frame<'static>) -> W,
>(
    stream: &mut WebSocketStream<S, R, W>,
    event: Event<FutureResult<S, ()>>,
    buf: &[u8],
    write: M1,
    flush: M2,
    close: M3,
    polled: W,
    later: &mut WebSocketStream<S, R, W>,
    websocket: WebSocket<S>,
    result: Action<Option<PendingOp>>,
)
    requires
        !(event is Called && old(stream)@.write_state is Writing),
        call_ensures(
            WebSocketStream::<S, R, W>::poll_drive,
            (later, Event::Done(Ok((websocket, ())))),
            result,
        ),
    ensures
        old(later)@ == (StreamState {
            write_state: WriteState::Writing(polled),
            ..final(stream)@
        }) ==> {
            &&& call_ensures(
                WebSocketStream::<S, R, W>::poll_write::<M1>,
                (stream, event, buf, write),
                Action::Poll,
            ) ==> (result matches Action::Ready(Ok(Some(PendingOp::Write(n)))) && n == buf@.len())
            &&& call_ensures(
                WebSocketStream::<S, R, W>::poll_flush::<M2>,
                (stream, event, flush),
                Action::Poll,
            ) ==> result == Action::<Option<PendingOp>>::Ready(Ok(Some(PendingOp::Flush)))
            &&& call_ensures(
                WebSocketStream::<S, R, W>::poll_shutdown::<M3>,
                (stream, event, close),
                Action::Poll,
            ) ==> result == Action::<Option<PendingOp>>::Ready(Ok(Some(PendingOp::Close)))
        },
{
    assert(buf@.len() == vstd::slice::spec_slice_len(buf));
}

/// A read that is called while received bytes are left delivers them, as many as there is room
/// for, and keeps the rest. The buffer that they go to keeps what it held.
pub proof fn law_read_delivers_what_is_left<'a, S, R, W, M: FnOnce(WebSocket<S>) -> R>(
    stream: &mut WebSocketStream<S, R, W>,
    event: Event<FutureResult<S, PayloadFrame>>,
    buf: &mut ReadBuf<'a>,
    read: M,
    action: Action<()>,
)
    requires
        call_ensures(
            WebSocketStream::<S, R, W>::poll_read::<M>,
            (stream, event, buf, read),
            action,
        ),
        event is Called,
        old(stream)@.read_buf.len() > 0,
    ensures
        action == Action::<()>::Ready(Ok(())),
        ({
            let room = (buffers::read_buf_capacity(*old(buf)) - buffers::read_buf_filled(
                *old(buf),
            ).len()) as nat;
            let left = old(stream)@.read_buf;
            let n = if left.len() <= room { left.len() as int } else { room as int };
            &&& buffers::read_buf_filled(*final(buf)) == buffers::read_buf_filled(*old(buf))
                + left.take(n)
            &&& final(stream)@ == (StreamState { read_buf: left.skip(n), ..old(stream)@ })
        }),
        buffers::read_buf_capacity(*final(buf)) == buffers::read_buf_capacity(*old(buf)),
{
}

/// A read that is called with nothing left to deliver. Once the peer has closed it ends well,
/// with nothing. Otherwise it needs a frame: it waits for the one that is being read, or starts
/// to read one on the websocket that the stream holds. Without a websocket it ends with
/// `NotAvailable`, and no read does so in any other case. Nothing is delivered.
pub proof fn law_read_reads_a_frame_when_nothing_is_left<
    'a,
    S,
    R,
    W,
    M: FnOnce(WebSocket<S>) -> R,
>(
    stream: &mut WebSocketStream<S, R, W>,
    event: Event<FutureResult<S, PayloadFrame>>,
    buf: &mut ReadBuf<'a>,
    read: M,
    action: Action<()>,
)
    requires
        call_ensures(
            WebSocketStream::<S, R, W>::poll_read::<M>,
            (stream, event, buf, read),
            action,
        ),
        event is Called,
        old(stream)@.read_buf.len() == 0,
    ensures
        old(stream)@.closed ==> {
            &&& action == Action::<()>::Ready(Ok(()))
            &&& final(stream)@ == old(stream)@
        },
        !old(stream)@.closed && old(stream)@.read_state is Reading ==> {
            &&& action is Poll
            &&& final(stream)@ == old(stream)@
        },
        !old(stream)@.closed && old(stream)@.read_state is Idle ==> match old(stream)@.websocket {
            Some(websocket) => {
                &&& action is Poll
                &&& final(stream)@.read_state matches ReadState::Reading(future)
                &&& call_ensures(read, (websocket,), future)
                &&& final(stream)@ == (StreamState {
                    websocket: None,
                    read_state: final(stream)@.read_state,
                    ..old(stream)@
                })
            },
            None => {
                &&& action == Action::<()>::Ready(Err(StreamError::NotAvailable))
                &&& final(stream)@ == old(stream)@
            },
        },
        buffers::read_buf_filled(*final(buf)) == buffers::read_buf_filled(*old(buf)),
        buffers::read_buf_capacity(*final(buf)) == buffers::read_buf_capacity(*old(buf)),
{
    assert(buffers::read_buf_filled(*old(buf)) + Seq::<u8>::empty() == buffers::read_buf_filled(
        *old(buf),
    ));
}

/// While the frame read in flight is not finished, a read waits, delivers nothing and changes
/// nothing. When it ends with a failure of the websocket, the read ends with an error that
/// carries the text of that very failure, and delivers nothing.
pub proof fn law_read_waits_and_reports_a_failure<'a, S, R, W, M: FnOnce(WebSocket<S>) -> R>(
    stream: &mut WebSocketStream<S, R, W>,
    event: Event<FutureResult<S, PayloadFrame>>,
    buf: &mut ReadBuf<'a>,
    read: M,
    action: Action<()>,
)
    requires
        call_ensures(
            WebSocketStream::<S, R, W>::poll_read::<M>,
            (stream, event, buf, read),
            action,
        ),
    ensures
        action is Pending <==> event is Pending,
        event is Pending ==> final(stream)@ == old(stream)@,
        event matches Event::Done(Err(cause)) ==> {
            &&& action matches Action::Ready(Err(StreamError::Websocket(text)))
            &&& to_string_from_display_ensures(&cause, text)
            &&& final(stream)@ == (StreamState { read_state: ReadState::Idle, ..old(stream)@ })
        },
        event is Pending || (event matches Event::Done(Err(_))) ==> buffers::read_buf_filled(
            *final(buf),
        ) == buffers::read_buf_filled(*old(buf)),
        buffers::read_buf_capacity(*final(buf)) == buffers::read_buf_capacity(*old(buf)),
{
    assert(buffers::read_buf_filled(*old(buf)) + Seq::<u8>::empty() == buffers::read_buf_filled(
        *old(buf),
    ));
}

/// Why a read fails, and when: `NotAvailable` only when it is called on an open stream with
/// nothing left to deliver, no frame being read and no websocket; `PayloadMismatch` exactly for a
/// Text frame on a Binary stream and a Binary frame on a Text stream; `Websocket` exactly for a
/// failure of the websocket. In particular a continuation never fails a read.
pub proof fn law_read_fails_for_these_reasons_only<'a, S, R, W, M: FnOnce(WebSocket<S>) -> R>(
    stream: &mut WebSocketStream<S, R, W>,
    event: Event<FutureResult<S, PayloadFrame>>,
    buf: &mut ReadBuf<'a>,
    read: M,
    action: Action<()>,
)
    requires
        call_ensures(
            WebSocketStream::<S, R, W>::poll_read::<M>,
            (stream, event, buf, read),
            action,
        ),
    ensures
        action == Action::<()>::Ready(Err(StreamError::NotAvailable)) <==> {
            &&& event is Called
            &&& old(stream)@.read_buf.len() == 0
            &&& !old(stream)@.closed
            &&& old(stream)@.read_state is Idle
            &&& old(stream)@.websocket is None
        },
        action == Action::<()>::Ready(Err(StreamError::PayloadMismatch)) <==> (event matches
            Event::Done(Ok((_, received))) && match old(stream)@.payload_type {
            PayloadType::Binary => received.opcode is Text,
            PayloadType::Text => received.opcode is Binary,
        }),
        (action matches Action::Ready(Err(StreamError::Websocket(_)))) <==> (event matches
            Event::Done(Err(_))),
        action matches Action::Ready(Err(_)) ==> buffers::read_buf_filled(*final(buf))
            == buffers::read_buf_filled(*old(buf)),
{
    assert(buffers::read_buf_filled(*old(buf)) + Seq::<u8>::empty() == buffers::read_buf_filled(
        *old(buf),
    ));
}

/// A frame that carries bytes of the stream, that is, a continuation or a data frame of the
/// stream's type with a payload, ends the read that takes it in, and ends it well. The payload is
/// delivered as far as there is room, and what does not fit is kept for the next reads. The
/// stream holds the websocket again.
pub proof fn law_read_of_a_data_frame_delivers<'a, S, R, W, M: FnOnce(WebSocket<S>) -> R>(
    stream: &mut WebSocketStream<S, R, W>,
    websocket: WebSocket<S>,
    received: PayloadFrame,
    buf: &mut ReadBuf<'a>,
    read: M,
    action: Action<()>,
)
    requires
        call_ensures(
            WebSocketStream::<S, R, W>::poll_read::<M>,
            (stream, Event::Done(Ok((websocket, received))), buf, read),
            action,
        ),
        old(stream)@.read_buf.len() == 0,
        received.opcode is Continuation || (received.opcode is Binary && old(stream)@.payload_type
            is Binary) || (received.opcode is Text && old(stream)@.payload_type is Text),
        buffers::bytes_content(received.payload).len() > 0,
    ensures
        action == Action::<()>::Ready(Ok(())),
        ({
            let room = (buffers::read_buf_capacity(*old(buf)) - buffers::read_buf_filled(
                *old(buf),
            ).len()) as nat;
            let payload = buffers::bytes_content(received.payload);
            let n = if payload.len() <= room { payload.len() as int } else { room as int };
            &&& buffers::read_buf_filled(*final(buf)) == buffers::read_buf_filled(*old(buf))
                + payload.take(n)
            &&& final(stream)@ == (StreamState {
                websocket: Some(websocket),
                read_state: ReadState::Idle,
                read_buf: payload.skip(n),
                ..old(stream)@
            })
        }),
        buffers::read_buf_capacity(*final(buf)) == buffers::read_buf_capacity(*old(buf)),
{
    let payload = buffers::bytes_content(received.payload);
    assert(old(stream)@.read_buf + payload == payload);
}

/// A frame that brings no bytes and is no Close, that is, a Ping, a Pong, or an empty
/// continuation or data frame of the stream's type, ends no read: the next frame is read on the
/// same websocket, and nothing is delivered.
pub proof fn law_read_passes_over_a_frame_without_bytes<
    'a,
    S,
    R,
    W,
    M: FnOnce(WebSocket<S>) -> R,
>(
    stream: &mut WebSocketStream<S, R, W>,
    websocket: WebSocket<S>,
    received: PayloadFrame,
    buf: &mut ReadBuf<'a>,
    read: M,
    action: Action<()>,
)
    requires
        call_ensures(
            WebSocketStream::<S, R, W>::poll_read::<M>,
            (stream, Event::Done(Ok((websocket, received))), buf, read),
            action,
        ),
        old(stream)@.read_buf.len() == 0,
        !old(stream)@.closed,
        match received.opcode {
            OpCode::Ping | OpCode::Pong => true,
            OpCode::Continuation => buffers::bytes_content(received.payload).len() == 0,
            OpCode::Binary => old(stream)@.payload_type is Binary && buffers::bytes_content(
                received.payload,
            ).len() == 0,
            OpCode::Text => old(stream)@.payload_type is Text && buffers::bytes_content(
                received.payload,
            ).len() == 0,
            OpCode::Close => false,
        },
    ensures
        action == Action::<()>::Poll,
        final(stream)@.read_state matches ReadState::Reading(future) && call_ensures(
            read,
            (websocket,),
            future,
        ),
        final(stream)@ == (StreamState {
            websocket: None,
            read_state: final(stream)@.read_state,
            ..old(stream)@
        }),
        buffers::read_buf_filled(*final(buf)) == buffers::read_buf_filled(*old(buf)),
        buffers::read_buf_capacity(*final(buf)) == buffers::read_buf_capacity(*old(buf)),
{
    assert(old(stream)@.read_buf + Seq::<u8>::empty() == old(stream)@.read_buf);
    if !(received.opcode is Ping || received.opcode is Pong) {
        assert(buffers::bytes_content(received.payload) == Seq::<u8>::empty());
    }
    assert(buffers::read_buf_filled(*old(buf)) + Seq::<u8>::empty() == buffers::read_buf_filled(
        *old(buf),
    ));
}

/// A Close frame, whatever its payload, ends the read well with nothing delivered, and closes the
/// stream, which holds the websocket again. A data frame of the other type fails the read, is
/// dropped, and leaves the stream open, with the websocket held again.
pub proof fn law_read_of_a_close_or_of_the_other_type<
    'a,
    S,
    R,
    W,
    M: FnOnce(WebSocket<S>) -> R,
>(
    stream: &mut WebSocketStream<S, R, W>,
    websocket: WebSocket<S>,
    received: PayloadFrame,
    buf: &mut ReadBuf<'a>,
    read: M,
    action: Action<()>,
)
    requires
        call_ensures(
            WebSocketStream::<S, R, W>::poll_read::<M>,
            (stream, Event::Done(Ok((websocket, received))), buf, read),
            action,
        ),
        old(stream)@.read_buf.len() == 0,
        received.opcode is Close || (received.opcode is Binary && old(stream)@.payload_type is Text)
            || (received.opcode is Text && old(stream)@.payload_type is Binary),
    ensures
        action == Action::<()>::Ready(
            if received.opcode is Close {
                Ok(())
            } else {
                Err(StreamError::PayloadMismatch)
            },
        ),
        final(stream)@ == (StreamState {
            websocket: Some(websocket),
            read_state: ReadState::Idle,
            closed: old(stream)@.closed || received.opcode is Close,
            ..old(stream)@
        }),
        buffers::read_buf_filled(*final(buf)) == buffers::read_buf_filled(*old(buf)),
        buffers::read_buf_capacity(*final(buf)) == buffers::read_buf_capacity(*old(buf)),
{
    assert(old(stream)@.read_buf + Seq::<u8>::empty() == old(stream)@.read_buf);
    assert(buffers::read_buf_filled(*old(buf)) + Seq::<u8>::empty() == buffers::read_buf_filled(
        *old(buf),
    ));
}

/// A payload that did not fit is delivered by the next reads: two reads in a row, of which the
/// first takes in a data frame, deliver its payload from the start and without a gap, as far as
/// both have room.
pub proof fn law_two_reads_deliver_one_payload<
    'a,
    'b,
    S,
    R,
    W,
    M1: FnOnce(WebSocket<S>) -> R,
    M2: FnOnce(WebSocket<S>) -> R,
>(
    stream: &mut WebSocketStream<S, R, W>,
    websocket: WebSocket<S>,
    received: PayloadFrame,
    buf: &mut ReadBuf<'a>,
    read: M1,
    action: Action<()>,
    later: &mut WebSocketStream<S, R, W>,
    next: &mut ReadBuf<'b>,
    reread: M2,
    result: Action<()>,
)
    requires
        call_ensures(
            WebSocketStream::<S, R, W>::poll_read::<M1>,
            (stream, Event::Done(Ok((websocket, received))), buf, read),
            action,
        ),
        call_ensures(
            WebSocketStream::<S, R, W>::poll_read::<M2>,
            (later, Event::Called, next, reread),
            result,
        ),
        old(stream)@.read_buf.len() == 0,
        received.opcode is Continuation || (received.opcode is Binary && old(stream)@.payload_type
            is Binary) || (received.opcode is Text && old(stream)@.payload_type is Text),
        buffers::read_buf_filled(*old(buf)).len() == 0,
        buffers::read_buf_filled(*old(next)).len() == 0,
        buffers::bytes_content(received.payload).len() > buffers::read_buf_capacity(*old(buf)),
    ensures
        old(later)@ == final(stream)@ ==> ({
            let both = buffers::read_buf_filled(*final(buf)) + buffers::read_buf_filled(
                *final(next),
            );
            let payload = buffers::bytes_content(received.payload);
            let room = buffers::read_buf_capacity(*old(buf)) + buffers::read_buf_capacity(
                *old(next),
            );
            &&& action == Action::<()>::Ready(Ok(()))
            &&& result == Action::<()>::Ready(Ok(()))
            &&& both == payload.take(
                if payload.len() <= room {
                    payload.len() as int
                } else {
                    room as int
                },
            )
            &&& both + final(later)@.read_buf == payload
        }),
{
    let payload = buffers::bytes_content(received.payload);
    let first = buffers::read_buf_capacity(*old(buf)) as int;
    law_read_of_a_data_frame_delivers(stream, websocket, received, buf, read, action);
    assert(buffers::read_buf_filled(*final(buf)) == payload.take(first));
    if old(later)@ == final(stream)@ {
        law_read_delivers_what_is_left(later, Event::Called, next, reread, result);
    }
}

/// Reads and writes keep to their sides. A read leaves alone what is in flight on the write side,
/// and no call changes the payload type.
pub proof fn law_a_read_leaves_the_write_side_alone<'a, S, R, W, M: FnOnce(WebSocket<S>) -> R>(
    stream: &mut WebSocketStream<S, R, W>,
    event: Event<FutureResult<S, PayloadFrame>>,
    buf: &mut ReadBuf<'a>,
    read: M,
    action: Action<()>,
)
    requires
        call_ensures(
            WebSocketStream::<S, R, W>::poll_read::<M>,
            (stream, event, buf, read),
            action,
        ),
    ensures
        final(stream)@.write_state == old(stream)@.write_state,
        final(stream)@.pending_op == old(stream)@.pending_op,
        final(stream)@.write_buf == old(stream)@.write_buf,
        final(stream)@.payload_type == old(stream)@.payload_type,
{
}

/// What the invariant says of a stream, neither more nor less: the websocket has at most one
/// owner, a frame is read only when there is nothing left to deliver and no Close was received,
/// a closed stream has nothing left to deliver, and what is in flight on the write side is known.
pub proof fn law_invariant<S, R, W>(state: StreamState<S, R, W>)
    ensures
        state.inv() <==> {
            &&& state.read_state is Reading ==> {
                &&& state.websocket is None
                &&& state.write_state is Idle
                &&& state.read_buf.len() == 0
                &&& !state.closed
            }
            &&& state.write_state is Writing ==> {
                &&& state.websocket is None
                &&& state.read_state is Idle
            }
            &&& state.closed ==> state.read_buf.len() == 0
            &&& match state.pending_op {
                Some(PendingOp::Write(n)) => state.write_state is Writing && n
                    == state.write_buf.len(),
                Some(_) => state.write_state is Writing && state.write_buf.len() == 0,
                None => state.write_state is Idle && state.write_buf.len() == 0,
            }
        },
{
    if state.write_buf.len() == 0 {
        assert(state.write_buf == Seq::<u8>::empty());
    }
}

/// Any operation may be called at any time, whatever its buffer, whatever the state of the stream
/// and whatever came of the future that was polled.
pub proof fn law_a_call_is_always_allowed<
    'a,
    S,
    R,
    W,
    M1: FnOnce(WebSocket<S>) -> R,
    M2: FnOnce(WebSocket<S>, Frame<'static>) -> W,
    M3: FnOnce(WebSocket<S>) -> W,
>(
    stream: &mut WebSocketStream<S, R, W>,
    websocket: WebSocket<S>,
    payload_type: PayloadType,
    buf: &mut ReadBuf<'a>,
    frame_event: Event<FutureResult<S, PayloadFrame>>,
    event: Event<FutureResult<S, ()>>,
    data: &[u8],
    read: M1,
    send: M2,
    flush: M3,
)
    requires
        old(stream)@.inv(),
        forall|websocket: WebSocket<S>| call_requires(read, (websocket,)),
        forall|websocket: WebSocket<S>, sent: Frame<'static>|
            call_requires(send, (websocket, sent)),
        forall|websocket: WebSocket<S>| call_requires(flush, (websocket,)),
    ensures
        call_requires(WebSocketStream::<S, R, W>::new, (websocket, payload_type)),
        call_requires(WebSocketStream::<S, R, W>::is_closed, (&*old(stream),)),
        call_requires(WebSocketStream::<S, R, W>::into_inner, (*old(stream),)),
        call_requires(WebSocketStream::<S, R, W>::summary, (&*old(stream),)),
        call_requires(WebSocketStream::<S, R, W>::read_future, (stream,)),
        call_requires(WebSocketStream::<S, R, W>::write_future, (stream,)),
        frame_event is Called || old(stream)@.read_state is Reading ==> call_requires(
            WebSocketStream::<S, R, W>::poll_read::<M1>,
            (stream, frame_event, buf, read),
        ),
        event is Called || old(stream)@.write_state is Writing ==> {
            &&& call_requires(
                WebSocketStream::<S, R, W>::poll_write::<M2>,
                (stream, event, data, send),
            )
            &&& call_requires(WebSocketStream::<S, R, W>::poll_flush::<M3>, (stream, event, flush))
            &&& call_requires(
                WebSocketStream::<S, R, W>::poll_shutdown::<M2>,
                (stream, event, send),
            )
            &&& call_requires(WebSocketStream::<S, R, W>::poll_drive, (stream, event))
        },
{
}

/// A new stream is open and idle, has nothing buffered, works with the payload type that was
/// asked for, and gives back the websocket that it holds.
pub proof fn law_a_new_stream_is_idle<S, R, W>(
    websocket: WebSocket<S>,
    payload_type: PayloadType,
    stream: WebSocketStream<S, R, W>,
    closed: bool,
    inner: Option<WebSocket<S>>,
)
    requires
        call_ensures(WebSocketStream::<S, R, W>::new, (websocket, payload_type), stream),
        call_ensures(WebSocketStream::<S, R, W>::is_closed, (&stream,), closed),
        call_ensures(WebSocketStream::<S, R, W>::into_inner, (stream,), inner),
    ensures
        !closed,
        inner is Some,
        inner == stream@.websocket,
        stream@.read_state is Idle,
        stream@.write_state is Idle,
        stream@.pending_op is None,
        stream@.read_buf.len() == 0,
        stream@.write_buf.len() == 0,
        stream@.payload_type == payload_type,
        !stream@.closed,
        stream@.inv(),
{
}

/// `is_closed` tells whether the stream is closed, and `into_inner` gives the websocket exactly
/// when the stream holds it.
pub proof fn law_what_a_stream_tells_of_itself<S, R, W>(
    stream: WebSocketStream<S, R, W>,
    closed: bool,
    inner: Option<WebSocket<S>>,
)
    requires
        call_ensures(WebSocketStream::<S, R, W>::is_closed, (&stream,), closed),
        call_ensures(WebSocketStream::<S, R, W>::into_inner, (stream,), inner),
    ensures
        closed == stream@.closed,
        inner == stream@.websocket,
{
}

/// The future that is handed out to be polled is the one in flight, and handing it out changes
/// nothing else.
pub proof fn law_the_future_in_flight_is_handed_out<S, R, W>(
    reader: &mut WebSocketStream<S, R, W>,
    reading: Option<&mut R>,
    writer: &mut WebSocketStream<S, R, W>,
    writing: Option<&mut W>,
)
    requires
        call_ensures(WebSocketStream::<S, R, W>::read_future, (reader,), reading),
        call_ensures(WebSocketStream::<S, R, W>::write_future, (writer,), writing),
    ensures
        reading is Some <==> old(reader)@.read_state is Reading,
        reading matches Some(future) ==> old(reader)@.read_state == ReadState::Reading(*future)
            && final(reader)@ == (StreamState {
            read_state: ReadState::Reading(*final(future)),
            ..old(reader)@
        }),
        reading is None ==> final(reader)@ == old(reader)@,
        writing is Some <==> old(writer)@.write_state is Writing,
        writing matches Some(future) ==> old(writer)@.write_state == WriteState::Writing(*future)
            && final(writer)@ == (StreamState {
            write_state: WriteState::Writing(*final(future)),
            ..old(writer)@
        }),
        writing is None ==> final(writer)@ == old(writer)@,
{
}

/// The summary tells the state.
pub proof fn law_the_summary_tells_the_state<S, R, W>(
    stream: WebSocketStream<S, R, W>,
    summary: Summary,
    read_name: &'static str,
    write_name: &'static str,
    op_name: &'static str,
)
    requires
        call_ensures(WebSocketStream::<S, R, W>::summary, (&stream,), summary),
        call_ensures(read_state_name::<R>, (&stream@.read_state,), read_name),
        call_ensures(write_state_name::<W>, (&stream@.write_state,), write_name),
        call_ensures(pending_op_name, (&stream@.pending_op,), op_name),
    ensures
        summary.read_buf_len == stream@.read_buf.len(),
        summary.closed == stream@.closed,
        summary.read_state@ == read_name@,
        summary.write_state@ == write_name@,
        summary.pending_op@ == op_name@,
        stream@.read_state is Idle ==> read_name@ == "Idle"@,
        stream@.read_state is Reading ==> read_name@ == "Reading"@,
        stream@.write_state is Idle ==> write_name@ == "Idle"@,
        stream@.write_state is Writing ==> write_name@ == "Writing"@,
        op_name@ == match stream@.pending_op {
            None => "None"@,
            Some(PendingOp::Write(_)) => "Write"@,
            Some(PendingOp::Flush) => "Flush"@,
            Some(PendingOp::Close) => "Close"@,
        },
{
}

/// The frames that the stream sends. A data frame is a whole message with exactly the payload, of
/// the opcode that the payload type names; a Close frame is final and empty. Neither brings a
/// mask.
pub proof fn law_frames_that_are_sent(
    payload: BytesMut,
    payload_type: PayloadType,
    data: Frame<'static>,
    close: Frame<'static>,
)
    requires
        call_ensures(data_frame, (payload, payload_type), data),
        call_ensures(close_frame, (), close),
    ensures
        frame::frame_content(data).fin,
        frame::frame_content(data).opcode is Binary <==> payload_type is Binary,
        frame::frame_content(data).opcode is Text <==> payload_type is Text,
        frame::frame_content(data).mask is None,
        frame::frame_content(data).payload == buffers::bytes_mut_content(payload),
        frame::frame_content(close).fin,
        frame::frame_content(close).opcode is Close,
        frame::frame_content(close).mask is None,
        frame::frame_content(close).payload.len() == 0,
{
}

/// A frame taken out of the websocket keeps its opcode and its payload.
pub proof fn law_a_received_frame_is_kept<'f>(frame: Frame<'f>, owned: PayloadFrame)
    requires
        call_ensures(PayloadFrame::from_frame, (frame,), owned),
    ensures
        owned.opcode == frame::frame_content(frame).opcode,
        buffers::bytes_content(owned.payload) == frame::frame_content(frame).payload,
{
}

/// What is written on a stream is what a stream of the same type reads: the frame made for a
/// payload, received whole, is no mismatch, and delivers that payload as far as there is room.
pub proof fn law_a_sent_frame_is_read_back<'a, S, R, W, M: FnOnce(WebSocket<S>) -> R>(
    payload: BytesMut,
    sent: Frame<'static>,
    received: PayloadFrame,
    stream: &mut WebSocketStream<S, R, W>,
    websocket: WebSocket<S>,
    buf: &mut ReadBuf<'a>,
    read: M,
    action: Action<()>,
)
    requires
        call_ensures(data_frame, (payload, old(stream)@.payload_type), sent),
        call_ensures(PayloadFrame::from_frame, (sent,), received),
        call_ensures(
            WebSocketStream::<S, R, W>::poll_read::<M>,
            (stream, Event::Done(Ok((websocket, received))), buf, read),
            action,
        ),
        old(stream)@.read_buf.len() == 0,
        buffers::bytes_mut_content(payload).len() > 0,
    ensures
        action == Action::<()>::Ready(Ok(())),
        buffers::read_buf_filled(*final(buf)) + final(stream)@.read_buf == buffers::read_buf_filled(
            *old(buf),
        ) + buffers::bytes_mut_content(payload),
        final(stream)@.read_buf.len() > 0 ==> buffers::read_buf_filled(*final(buf)).len()
            == buffers::read_buf_filled(*old(buf)).len() + (buffers::read_buf_capacity(*old(buf))
            - buffers::read_buf_filled(*old(buf)).len()) as nat,
{
    law_read_of_a_data_frame_delivers(stream, websocket, received, buf, read, action);
}

/// A failure of the websocket is told with its own text, behind a fixed beginning.
pub proof fn law_a_failure_is_told(
    cause: WebSocketError,
    error: StreamError,
    message: String,
)
    requires
        call_ensures(make_io_err, (cause,), error),
        call_ensures(StreamError::message, (&error,), message),
    ensures
        error matches StreamError::Websocket(text) && to_string_from_display_ensures(&cause, text)
            && message@ == "Websocket error: "@ + text@,
{
}

/// The texts of the other errors.
pub proof fn law_error_texts(error: StreamError, message: String)
    requires
        call_ensures(StreamError::message, (&error,), message),
    ensures
        error is NotAvailable ==> message@ == "Websocket not available"@,
        error is PayloadMismatch ==> message@
            == "The received data type is different from the stream data type"@,
        error matches StreamError::Websocket(text) ==> message@ == "Websocket error: "@ + text@,
{
}

/// The opcode of a payload type.
pub proof fn law_opcode_of_a_payload_type(payload_type: PayloadType, opcode: OpCode)
    requires
        call_ensures(<OpCode as From<PayloadType>>::from, (payload_type,), opcode),
    ensures
        payload_type is Binary ==> opcode == OpCode::Binary,
        payload_type is Text ==> opcode == OpCode::Text,
{
}

/// Every call of the stream is an operation as `laws` speaks of it, so what is proved there of
/// any run holds of any sequence of calls.
pub proof fn law_a_read_is_a_step<'a, S, R, W, M: FnOnce(WebSocket<S>) -> R>(
    stream: &mut WebSocketStream<S, R, W>,
    event: Event<FutureResult<S, PayloadFrame>>,
    buf: &mut ReadBuf<'a>,
    read: M,
    action: Action<()>,
)
    requires
        event is Called || old(stream)@.read_state is Reading,
        call_ensures(
            WebSocketStream::<S, R, W>::poll_read::<M>,
            (stream, event, buf, read),
            action,
        ),
    ensures
        laws::step(
            old(stream)@,
            Op::Read {
                event,
                room: buffers::read_buf_room(*old(buf)),
                made: |websocket: WebSocket<S>, future: R|
                    call_ensures(read, (websocket,), future),
                delivered: buffers::gained(*old(buf), *final(buf)),
                action,
            },
            final(stream)@,
        ),
        final(stream)@.inv(),
{
    reveal(laws::step);
}

/// As above, for the calls of the write side.
pub proof fn law_a_write_side_call_is_a_step<
    S,
    R,
    W,
    M1: FnOnce(WebSocket<S>, Frame<'static>) -> W,
    M2: FnOnce(WebSocket<S>) -> W,
    M3: FnOnce(WebSocket<S>, Frame<'static>) -> W,
>(
    stream: &mut WebSocketStream<S, R, W>,
    event: Event<FutureResult<S, ()>>,
    buf: &[u8],
    write: M1,
    written: Action<usize>,
    flush: M2,
    flushed: Action<()>,
    close: M3,
    closed: Action<()>,
    driven: Action<Option<PendingOp>>,
)
    requires
        event is Called || old(stream)@.write_state is Writing,
    ensures
        call_ensures(
            WebSocketStream::<S, R, W>::poll_write::<M1>,
            (stream, event, buf, write),
            written,
        ) ==> laws::step(
            old(stream)@,
            Op::Write {
                event,
                buf: buf@,
                made: stream::sending(
                    write,
                    FrameContent {
                        fin: true,
                        opcode: match old(stream)@.payload_type {
                            PayloadType::Binary => OpCode::Binary,
                            PayloadType::Text => OpCode::Text,
                        },
                        mask: None,
                        payload: buf@,
                    },
                ),
                action: written,
            },
            final(stream)@,
        ),
        call_ensures(
            WebSocketStream::<S, R, W>::poll_flush::<M2>,
            (stream, event, flush),
            flushed,
        ) ==> laws::step(
            old(stream)@,
            Op::Flush {
                event,
                made: |websocket: WebSocket<S>, future: W|
                    call_ensures(flush, (websocket,), future),
                action: flushed,
            },
            final(stream)@,
        ),
        call_ensures(
            WebSocketStream::<S, R, W>::poll_shutdown::<M3>,
            (stream, event, close),
            closed,
        ) ==> laws::step(
            old(stream)@,
            Op::Shutdown {
                event,
                made: stream::sending(
                    close,
                    FrameContent {
                        fin: true,
                        opcode: OpCode::Close,
                        mask: None,
                        payload: Seq::empty(),
                    },
                ),
                action: closed,
            },
            final(stream)@,
        ),
        call_ensures(
            WebSocketStream::<S, R, W>::poll_drive,
            (stream, event),
            driven,
        ) ==> laws::step(
            old(stream)@,
            Op::Drive { event, action: driven },
            final(stream)@,
        ),
{
    reveal(laws::step);
    assert(buf@.len() == vstd::slice::spec_slice_len(buf));
}

} // verus!
