//! What the stream does, as relations between its states.

use crate::error::StreamError;
use crate::error;
use crate::frame::{OpCode, PayloadFrame, PayloadType};
use crate::frame;
use crate::stream::{Action, Event, FutureResult, PendingOp, ReadState, WriteState};
use fastwebsockets::{WebSocket, WebSocketError};
use vstd::prelude::*;

verus! {

/// A call of the write side.
pub ghost enum Call {
    /// `write` with this buffer.
    Write(Seq<u8>),
    /// `flush`.
    Flush,
    /// `shutdown`.
    Shutdown,
}

/// The operation that a call starts.
pub open spec fn operation(call: Call) -> PendingOp {
    match call {
        Call::Write(buf) => PendingOp::Write(buf.len() as usize),
        Call::Flush => PendingOp::Flush,
        Call::Shutdown => PendingOp::Close,
    }
}

/// The application bytes that a call has to send.
pub open spec fn payload(call: Call) -> Seq<u8> {
    match call {
        Call::Write(buf) => buf,
        _ => Seq::empty(),
    }
}

/// The state of a stream over a websocket `WebSocket<S>`, where `R` is the future of a frame
/// read and `W` the future of a write, a flush or a close.
#[verifier::reject_recursive_types(S)]
#[verifier::reject_recursive_types(R)]
#[verifier::reject_recursive_types(W)]
#[verifier::ext_equal]
pub ghost struct StreamState<S, R, W> {
    /// The websocket, unless a future owns it or it was lost.
    pub websocket: Option<WebSocket<S>>,
    /// Bytes received and not delivered yet.
    pub read_buf: Seq<u8>,
    /// The frame read in flight.
    pub read_state: ReadState<R>,
    /// The write, flush or close in flight.
    pub write_state: WriteState<W>,
    /// Which operation `write_state` stands for.
    pub pending_op: Option<PendingOp>,
    /// The bytes of the write in flight; empty if none is.
    pub write_buf: Seq<u8>,
    /// The type of the data frames sent and accepted.
    pub payload_type: PayloadType,
    /// Whether a Close frame was received.
    pub closed: bool,
}

impl<S, R, W> StreamState<S, R, W> {
    /// What holds of a stream between any two operations.
    pub open spec fn inv(self) -> bool {
        // The websocket has at most one owner: the stream, the read future or the write future.
        &&& self.websocket is Some ==> self.read_state is Idle && self.write_state is Idle
        &&& self.read_state is Reading ==> self.write_state is Idle
        // A frame is read only when there is nothing left to deliver, and none after a Close.
        &&& self.read_state is Reading ==> self.read_buf.len() == 0 && !self.closed
        &&& self.closed ==> self.read_buf.len() == 0
        // What is in flight on the write side is known.
        &&& self.write_state is Writing <==> self.pending_op is Some
        &&& match self.pending_op {
            Some(PendingOp::Write(n)) => n == self.write_buf.len(),
            _ => self.write_buf == Seq::<u8>::empty(),
        }
    }

    /// Whether the websocket is gone for good: neither the stream nor a future owns it.
    pub open spec fn lost(self) -> bool {
        self.websocket is None && self.read_state is Idle && self.write_state is Idle
    }

    /// The call whose operation is in flight on the write side.
    pub open spec fn in_flight(self) -> Option<Call> {
        match self.pending_op {
            None => None,
            Some(PendingOp::Write(_)) => Some(Call::Write(self.write_buf)),
            Some(PendingOp::Flush) => Some(Call::Flush),
            Some(PendingOp::Close) => Some(Call::Shutdown),
        }
    }

    /// Whether a read or a write is in flight.
    pub open spec fn busy(self) -> bool {
        self.read_state is Reading || self.write_state is Writing
    }
}

/// The state of a new stream that holds `websocket`.
pub open spec fn initial<S, R, W>(
    websocket: WebSocket<S>,
    payload_type: PayloadType,
) -> StreamState<S, R, W> {
    StreamState {
        websocket: Some(websocket),
        read_buf: Seq::empty(),
        read_state: ReadState::Idle,
        write_state: WriteState::Idle,
        pending_op: None,
        write_buf: Seq::empty(),
        payload_type,
        closed: false,
    }
}

/// Whether a frame breaks the stream's payload type: it starts a data message of the other type.
/// A continuation takes the type of the message that it continues.
pub open spec fn mismatched(payload_type: PayloadType, opcode: OpCode) -> bool {
    (opcode is Binary || opcode is Text) && opcode != frame::data_opcode(payload_type)
}

/// The application bytes that a frame adds to the stream: the payload of a data frame of the
/// stream's type or of a continuation; nothing from any other frame.
pub open spec fn frame_data(payload_type: PayloadType, received: PayloadFrame) -> Seq<u8> {
    if received.opcode == frame::data_opcode(payload_type) || received.opcode is Continuation {
        received.bytes()
    } else {
        Seq::empty()
    }
}

/// The state after a frame read ended: a frame hands the websocket back and adds its data, a
/// Close frame closes the stream; a failure takes the websocket with it.
pub open spec fn after_frame<S, R, W>(
    pre: StreamState<S, R, W>,
    outcome: FutureResult<S, PayloadFrame>,
) -> StreamState<S, R, W> {
    match outcome {
        Ok((websocket, received)) => StreamState {
            websocket: Some(websocket),
            read_state: ReadState::Idle,
            read_buf: pre.read_buf + frame_data(pre.payload_type, received),
            closed: pre.closed || received.opcode is Close,
            ..pre
        },
        Err(_) => StreamState { read_state: ReadState::Idle, ..pre },
    }
}

/// What a read does in state `mid` for a buffer with `room` free bytes.
///
/// Buffered bytes are delivered first, as many as there is room for. After a Close the read
/// ends with nothing. Otherwise a frame read is needed: the one in flight, or a new one, which
/// takes the websocket and is in the relation `made` to it.
pub open spec fn serve<S, R, W>(
    mid: StreamState<S, R, W>,
    room: nat,
    made: spec_fn(WebSocket<S>, R) -> bool,
    post: StreamState<S, R, W>,
    delivered: Seq<u8>,
    action: Action<()>,
) -> bool {
    if mid.read_buf.len() > 0 {
        let n = if mid.read_buf.len() <= room { mid.read_buf.len() as int } else { room as int };
        &&& delivered == mid.read_buf.take(n)
        &&& post == (StreamState { read_buf: mid.read_buf.skip(n), ..mid })
        &&& action == Action::<()>::Ready(Ok(()))
    } else {
        &&& delivered == Seq::<u8>::empty()
        &&& if mid.closed {
            post == mid && action == Action::<()>::Ready(Ok(()))
        } else if mid.read_state is Reading {
            post == mid && action == Action::<()>::Poll
        } else {
            match mid.websocket {
                None => post == mid && action == Action::<()>::Ready(
                    Err(StreamError::NotAvailable),
                ),
                Some(websocket) => {
                    &&& post.read_state matches ReadState::Reading(future)
                    &&& made(websocket, future)
                    &&& post == (StreamState { websocket: None, read_state: post.read_state, ..mid })
                    &&& action == Action::<()>::Poll
                },
            }
        }
    }
}

/// One step of a read: what `poll_read` does on an event.
pub open spec fn read_step<S, R, W>(
    pre: StreamState<S, R, W>,
    event: Event<FutureResult<S, PayloadFrame>>,
    room: nat,
    made: spec_fn(WebSocket<S>, R) -> bool,
    post: StreamState<S, R, W>,
    delivered: Seq<u8>,
    action: Action<()>,
) -> bool {
    match event {
        Event::Called => serve(pre, room, made, post, delivered, action),
        Event::Pending => {
            &&& post == pre
            &&& delivered == Seq::<u8>::empty()
            &&& action == Action::<()>::Pending
        },
        Event::Done(Err(cause)) => {
            &&& post == after_frame(pre, event->0)
            &&& delivered == Seq::<u8>::empty()
            &&& action matches Action::Ready(Err(err)) && error::reports(cause, err)
        },
        Event::Done(Ok((_, received))) => {
            let mid = after_frame(pre, event->0);
            if mismatched(pre.payload_type, received.opcode) {
                &&& post == mid
                &&& delivered == Seq::<u8>::empty()
                &&& action == Action::<()>::Ready(Err(StreamError::PayloadMismatch))
            } else {
                serve(mid, room, made, post, delivered, action)
            }
        },
    }
}

/// What the write side makes of an event, before the caller's own operation is looked at.
pub ghost enum Driven {
    /// A future is in flight and must be polled.
    Poll,
    /// The future in flight is not finished.
    Pending,
    /// The future in flight failed.
    Failed(WebSocketError),
    /// Nothing is in flight.
    Nothing,
    /// The operation in flight finished.
    Finished(PendingOp),
}

/// What an event brings to the write side.
pub open spec fn driven<S, R, W>(
    pre: StreamState<S, R, W>,
    event: Event<FutureResult<S, ()>>,
) -> Driven {
    match event {
        Event::Called => if pre.write_state is Writing {
            Driven::Poll
        } else {
            Driven::Nothing
        },
        Event::Pending => Driven::Pending,
        Event::Done(Err(cause)) => Driven::Failed(cause),
        Event::Done(Ok(_)) => Driven::Finished(pre.pending_op->0),
    }
}

/// The state after the event: a finished operation hands the websocket back, a failed one takes
/// it along; either way nothing is in flight on the write side any more.
pub open spec fn after_drive<S, R, W>(
    pre: StreamState<S, R, W>,
    event: Event<FutureResult<S, ()>>,
) -> StreamState<S, R, W> {
    match event {
        Event::Called | Event::Pending => pre,
        Event::Done(Ok((websocket, _))) => StreamState {
            websocket: Some(websocket),
            write_state: WriteState::Idle,
            pending_op: None,
            write_buf: Seq::empty(),
            ..pre
        },
        Event::Done(Err(_)) => StreamState {
            write_state: WriteState::Idle,
            pending_op: None,
            write_buf: Seq::empty(),
            ..pre
        },
    }
}

/// One step of driving what is in flight on the write side: what `poll_drive` does on an event.
pub open spec fn drive_step<S, R, W>(
    pre: StreamState<S, R, W>,
    event: Event<FutureResult<S, ()>>,
    post: StreamState<S, R, W>,
    action: Action<Option<PendingOp>>,
) -> bool {
    &&& post == after_drive(pre, event)
    &&& match driven(pre, event) {
        Driven::Poll => action == Action::<Option<PendingOp>>::Poll,
        Driven::Pending => action == Action::<Option<PendingOp>>::Pending,
        Driven::Failed(cause) => action matches Action::Ready(Err(err)) && error::reports(
            cause,
            err,
        ),
        Driven::Nothing => action == Action::<Option<PendingOp>>::Ready(Ok(None)),
        Driven::Finished(op) => action == Action::<Option<PendingOp>>::Ready(Ok(Some(op))),
    }
}

/// Starting the operation of `call` in state `mid`: the new future takes the websocket and is in
/// the relation `made` to it; without a websocket the call fails.
pub open spec fn launch<S, R, W, T>(
    mid: StreamState<S, R, W>,
    call: Call,
    made: spec_fn(WebSocket<S>, W) -> bool,
    post: StreamState<S, R, W>,
    action: Action<T>,
) -> bool {
    match mid.websocket {
        None => post == mid && action == Action::<T>::Ready(Err(StreamError::NotAvailable)),
        Some(websocket) => {
            &&& post.write_state matches WriteState::Writing(future)
            &&& made(websocket, future)
            &&& post == (StreamState {
                websocket: None,
                write_state: post.write_state,
                pending_op: Some(operation(call)),
                write_buf: payload(call),
                ..mid
            })
            &&& action == Action::<T>::Poll
        },
    }
}

/// One step of a call of the write side.
///
/// The call first waits for whatever is in flight. If that was its own operation, the call ends
/// with `result`. If it was another's, or if nothing was in flight, the call starts its own.
pub open spec fn write_side_step<S, R, W, T>(
    pre: StreamState<S, R, W>,
    event: Event<FutureResult<S, ()>>,
    call: Call,
    result: T,
    made: spec_fn(WebSocket<S>, W) -> bool,
    post: StreamState<S, R, W>,
    action: Action<T>,
) -> bool {
    let mid = after_drive(pre, event);
    match driven(pre, event) {
        Driven::Poll => post == mid && action == Action::<T>::Poll,
        Driven::Pending => post == mid && action == Action::<T>::Pending,
        Driven::Failed(cause) => {
            &&& post == mid
            &&& action matches Action::Ready(Err(err)) && error::reports(cause, err)
        },
        Driven::Nothing => launch(mid, call, made, post, action),
        Driven::Finished(_) => if pre.in_flight() == Some(call) {
            post == mid && action == Action::<T>::Ready(Ok(result))
        } else {
            launch(mid, call, made, post, action)
        },
    }
}

/// One step of a write of `buf`: what `poll_write` does on an event. A write ends with a write of
/// the same bytes, and reports their number.
pub open spec fn write_step<S, R, W>(
    pre: StreamState<S, R, W>,
    event: Event<FutureResult<S, ()>>,
    buf: Seq<u8>,
    made: spec_fn(WebSocket<S>, W) -> bool,
    post: StreamState<S, R, W>,
    action: Action<usize>,
) -> bool {
    write_side_step(
        pre,
        event,
        Call::Write(buf),
        buf.len() as usize,
        made,
        post,
        action,
    )
}

/// One step of a flush: what `poll_flush` does on an event.
pub open spec fn flush_step<S, R, W>(
    pre: StreamState<S, R, W>,
    event: Event<FutureResult<S, ()>>,
    made: spec_fn(WebSocket<S>, W) -> bool,
    post: StreamState<S, R, W>,
    action: Action<()>,
) -> bool {
    write_side_step(
        pre,
        event,
        Call::Flush,
        (),
        made,
        post,
        action,
    )
}

/// One step of a shutdown: what `poll_shutdown` does on an event.
pub open spec fn shutdown_step<S, R, W>(
    pre: StreamState<S, R, W>,
    event: Event<FutureResult<S, ()>>,
    made: spec_fn(WebSocket<S>, W) -> bool,
    post: StreamState<S, R, W>,
    action: Action<()>,
) -> bool {
    write_side_step(
        pre,
        event,
        Call::Shutdown,
        (),
        made,
        post,
        action,
    )
}

} // verus!
