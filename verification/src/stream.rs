//! The stream.

use crate::buffers;
use crate::error::{make_io_err, StreamError};
use crate::frame::{close_frame, data_frame, OpCode, PayloadFrame, PayloadType};
use crate::frame;
use crate::model::StreamState;
use crate::model;
use bytes::BytesMut;
use fastwebsockets::{Frame, WebSocket, WebSocketError};
use tokio::io::ReadBuf;
use vstd::prelude::*;

verus! {

/// `fastwebsockets::WebSocket`: the connection that the stream runs over.
#[verifier::external_type_specification]
#[verifier::external_body]
#[verifier::reject_recursive_types(S)]
pub struct ExWebSocket<S>(WebSocket<S>);

/// Future output type for operations that temporarily own the websocket.
///
/// The future returns either an owned `WebSocket<S>` back together with a
/// result value `T`, or a `WebSocketError` if the operation failed.
pub type FutureResult<S, T> = Result<(WebSocket<S>, T), WebSocketError>;

/// Read state machine for `WebSocketStream`.
pub enum ReadState<R> {
    /// No read in progress.
    Idle,
    /// A future that owns the websocket and will produce a `PayloadFrame` (and the websocket)
    /// when complete.
    Reading(R),
}

/// Write state machine for `WebSocketStream`.
///
/// One state is shared by writes, flushes and the close of a shutdown; [`PendingOp`] tells
/// which of them is in flight.
pub enum WriteState<W> {
    /// No write in progress.
    Idle,
    /// A future that owns the websocket and will complete the operation, returning the
    /// websocket.
    Writing(W),
}

/// Describes which operation the future stored in `WriteState::Writing` represents.
///
/// A write, a flush and a shutdown may each find a future in flight that another of them
/// started. Knowing the operation lets each wait for whatever is in flight and then do its own
/// job, and not report another's completion as its own.
#[derive(Debug, Clone, Copy, PartialEq, Eq, Structural)]
pub enum PendingOp {
    /// A data write; carries the number of bytes to report once the frame has been written.
    Write(usize),
    /// A flush.
    Flush,
    /// A close frame written by a shutdown.
    Close,
}

/// The name of a read state.
pub fn read_state_name<R>(state: &ReadState<R>) -> (name: &'static str)
    ensures
        name@ == match state {
            ReadState::Idle => "Idle"@,
            ReadState::Reading(_) => "Reading"@,
        },
{
    match state {
        ReadState::Idle => "Idle",
        ReadState::Reading(_) => "Reading",
    }
}

/// The name of a write state.
pub fn write_state_name<W>(state: &WriteState<W>) -> (name: &'static str)
    ensures
        name@ == match state {
            WriteState::Idle => "Idle"@,
            WriteState::Writing(_) => "Writing"@,
        },
{
    match state {
        WriteState::Idle => "Idle",
        WriteState::Writing(_) => "Writing",
    }
}

/// The name of a pending operation.
pub fn pending_op_name(op: &Option<PendingOp>) -> (name: &'static str)
    ensures
        name@ == match op {
            None => "None"@,
            Some(PendingOp::Write(_)) => "Write"@,
            Some(PendingOp::Flush) => "Flush"@,
            Some(PendingOp::Close) => "Close"@,
        },
{
    match op {
        None => "None",
        Some(PendingOp::Write(_)) => "Write",
        Some(PendingOp::Flush) => "Flush",
        Some(PendingOp::Close) => "Close",
    }
}

/// What there is to tell of a stream when it is printed for debugging.
#[derive(Debug, Clone, Copy)]
pub struct Summary {
    /// The number of bytes received and not delivered yet.
    pub read_buf_len: usize,
    /// The name of the read state.
    pub read_state: &'static str,
    /// The name of the write state.
    pub write_state: &'static str,
    /// The name of the pending operation.
    pub pending_op: &'static str,
    /// Whether a Close frame was observed.
    pub closed: bool,
}

/// What happened since the stream was last asked.
///
/// An operation is a conversation. Its first event is `Called`; each answer is an [`Action`]. On
/// `Action::Poll`, poll the future that `read_future` or `write_future` hands out, and come back
/// with `Pending` or with `Done` and the future's output. Any other action ends the call.
pub enum Event<T> {
    /// The operation was called.
    Called,
    /// The future in flight was polled and is not finished.
    Pending,
    /// The future in flight was polled and finished with this result.
    Done(T),
}

/// What is to be done next.
#[derive(Debug)]
pub enum Action<T> {
    /// Poll the future in flight, and come back with the event.
    Poll,
    /// The operation is not finished: wait to be woken.
    Pending,
    /// The operation is finished, with this result.
    Ready(Result<T, StreamError>),
}

/// `WebSocket::set_auto_pong`, on a websocket that is handed back.
///
/// It makes the websocket answer each Ping by itself, or not. What the websocket does on the
/// wire is not modelled, so nothing is claimed of the one that comes back; [`automatic`] records
/// that it came from this call.
#[verifier::external_body]
fn set_auto_pong<S>(websocket: WebSocket<S>, auto_pong: bool) -> (set: WebSocket<S>) {
    let mut websocket = websocket;
    websocket.set_auto_pong(auto_pong);
    websocket
}

/// `WebSocket::set_auto_close`, on a websocket that is handed back.
///
/// It makes the websocket answer a Close by itself, or not. What the websocket does on the wire
/// is not modelled, so nothing is claimed of the one that comes back; [`automatic`] records that
/// it came from this call.
#[verifier::external_body]
fn set_auto_close<S>(websocket: WebSocket<S>, auto_close: bool) -> (set: WebSocket<S>) {
    let mut websocket = websocket;
    websocket.set_auto_close(auto_close);
    websocket
}

/// Whether `set` is `websocket` after automatic Pong replies and then automatic Close handling
/// were switched on.
pub closed spec fn automatic<S>(websocket: WebSocket<S>, set: WebSocket<S>) -> bool {
    exists|between: WebSocket<S>|
        #[trigger] call_ensures(set_auto_pong::<S>, (websocket, true), between) && call_ensures(
            set_auto_close::<S>,
            (between, true),
            set,
        )
}

/// The futures that `make` may give for a websocket and a frame with this content.
pub open spec fn sending<S, W, M: FnOnce(WebSocket<S>, Frame<'static>) -> W>(
    make: M,
    content: frame::FrameContent,
) -> spec_fn(WebSocket<S>, W) -> bool {
    |websocket: WebSocket<S>, future: W|
        exists|sent: Frame<'static>|
            frame::frame_content(sent) == content && #[trigger] call_ensures(
                make,
                (websocket, sent),
                future,
            )
}

/// A byte stream over a `fastwebsockets::WebSocket`.
///
/// `R` is the future that reads a frame, `W` the future that writes, flushes or closes. Each
/// owns the websocket while it runs and hands it back when it completes.
///
/// * The payloads of incoming data frames (Text or Binary, as the stream's [`PayloadType`] says)
///   are presented as one continuous byte stream. If a read buffer is smaller than a payload,
///   the remainder is kept and served on subsequent reads.
/// * Ping and Pong frames are passed over. A Close frame marks EOF, and subsequent reads end
///   well with no bytes.
/// * Each write sends one complete data frame with the given bytes as payload, and reports
///   their number.
#[verifier::reject_recursive_types(S)]
pub struct WebSocketStream<S, R, W> {
    /// The inner websocket. Stored as `Option` to allow temporarily taking ownership when a
    /// future is started.
    websocket: Option<WebSocket<S>>,
    /// Leftover bytes of the current incoming message that did not fit the last read buffer.
    read_buf: BytesMut,
    /// The read in progress, which owns the websocket.
    read_state: ReadState<R>,
    /// The write, flush or close in progress, which owns the websocket.
    write_state: WriteState<W>,
    /// Which operation is in progress in `write_state`, so that its completion is reported
    /// correctly whichever method drives it.
    pending_op: Option<PendingOp>,
    /// The bytes of the write in progress, by which a write knows its own; empty if none is.
    write_buf: BytesMut,
    /// Expected and emitted payload type (Text or Binary). Received frames with a different
    /// data opcode are treated as errors.
    payload_type: PayloadType,
    /// Set after a Close frame has been observed; reads then return EOF.
    closed: bool,
}

impl<S, R, W> View for WebSocketStream<S, R, W> {
    type V = StreamState<S, R, W>;

    closed spec fn view(&self) -> StreamState<S, R, W> {
        StreamState {
            websocket: self.websocket,
            read_buf: buffers::bytes_mut_content(self.read_buf),
            read_state: self.read_state,
            write_state: self.write_state,
            pending_op: self.pending_op,
            write_buf: buffers::bytes_mut_content(self.write_buf),
            payload_type: self.payload_type,
            closed: self.closed,
        }
    }
}

impl<S, R, W> WebSocketStream<S, R, W> {
    /// Create a new `WebSocketStream` wrapping the provided `WebSocket`.
    ///
    /// This enables automatic Pong replies and automatic Close handling on the wrapped
    /// `WebSocket` and initializes internal buffers and state.
    ///
    /// `payload_type` selects whether this stream should read/write Text or Binary data. If the
    /// peer sends data frames with an opcode that does not match `payload_type`, reads will
    /// return an error.
    pub fn new(websocket: WebSocket<S>, payload_type: PayloadType) -> (stream: Self)
        ensures
            stream@.websocket matches Some(set) && automatic(websocket, set) && stream@
                == model::initial::<S, R, W>(set, payload_type),
            stream@.inv(),
    {
        let websocket = set_auto_pong(websocket, true);
        let websocket = set_auto_close(websocket, true);
        WebSocketStream {
            websocket: Some(websocket),
            read_buf: BytesMut::with_capacity(8 * 1024),
            read_state: ReadState::Idle,
            write_state: WriteState::Idle,
            pending_op: None,
            write_buf: BytesMut::with_capacity(0),
            payload_type,
            closed: false,
        }
    }

    /// Consume the stream and attempt to return the inner `WebSocket`.
    ///
    /// This returns `Some(WebSocket<S>)` if the websocket currently resides in the stream. If
    /// there is an outstanding future that currently owns the websocket (i.e. a read or write
    /// in progress) this method will return `None`.
    pub fn into_inner(self) -> (websocket: Option<WebSocket<S>>)
        ensures
            websocket == self@.websocket,
            self@.inv() ==> (websocket is Some <==> !self@.busy() && !self@.lost()),
    {
        self.websocket
    }

    /// Returns `true` if a Close frame from the peer was observed and the stream reached EOF.
    pub fn is_closed(&self) -> (closed: bool)
        ensures
            closed == self@.closed,
    {
        self.closed
    }

    /// Sums up the state for debugging, without asking anything of the futures.
    pub fn summary(&self) -> (summary: Summary)
        ensures
            summary.read_buf_len == self@.read_buf.len(),
            summary.read_state@ == match self@.read_state {
                ReadState::Idle => "Idle"@,
                ReadState::Reading(_) => "Reading"@,
            },
            summary.write_state@ == match self@.write_state {
                WriteState::Idle => "Idle"@,
                WriteState::Writing(_) => "Writing"@,
            },
            summary.pending_op@ == match self@.pending_op {
                None => "None"@,
                Some(PendingOp::Write(_)) => "Write"@,
                Some(PendingOp::Flush) => "Flush"@,
                Some(PendingOp::Close) => "Close"@,
            },
            summary.closed == self@.closed,
    {
        Summary {
            read_buf_len: self.read_buf.len(),
            read_state: read_state_name(&self.read_state),
            write_state: write_state_name(&self.write_state),
            pending_op: pending_op_name(&self.pending_op),
            closed: self.closed,
        }
    }

    /// The frame read in flight, to be polled.
    pub fn read_future(&mut self) -> (future: Option<&mut R>)
        requires
            old(self)@.inv(),
        ensures
            final(self)@.inv(),
            match future {
                Some(future) => {
                    &&& old(self)@.read_state == ReadState::Reading(*future)
                    &&& final(self)@ == (StreamState {
                        read_state: ReadState::Reading(*final(future)),
                        ..old(self)@
                    })
                },
                None => old(self)@.read_state is Idle && final(self)@ == old(self)@,
            },
    {
        match &mut self.read_state {
            ReadState::Idle => None,
            ReadState::Reading(future) => Some(future),
        }
    }

    /// The write, flush or close in flight, to be polled.
    pub fn write_future(&mut self) -> (future: Option<&mut W>)
        requires
            old(self)@.inv(),
        ensures
            final(self)@.inv(),
            match future {
                Some(future) => {
                    &&& old(self)@.write_state == WriteState::Writing(*future)
                    &&& final(self)@ == (StreamState {
                        write_state: WriteState::Writing(*final(future)),
                        ..old(self)@
                    })
                },
                None => old(self)@.write_state is Idle && final(self)@ == old(self)@,
            },
    {
        match &mut self.write_state {
            WriteState::Idle => None,
            WriteState::Writing(future) => Some(future),
        }
    }

    /// Drives whatever operation currently owns `write_state` (if any), restoring the websocket
    /// when it finishes and returning which [`PendingOp`] just finished.
    ///
    /// Ready with `None` if nothing is in flight. The callers check whether the operation
    /// returned is the one they care about; if it is not, they start their own.
    pub fn poll_drive(&mut self, event: Event<FutureResult<S, ()>>) -> (action: Action<
        Option<PendingOp>,
    >)
        requires
            old(self)@.inv(),
            !(event is Called) ==> old(self)@.write_state is Writing,
        ensures
            final(self)@.inv(),
            model::drive_step(old(self)@, event, final(self)@, action),
    {
        match event {
            Event::Called => match &self.write_state {
                WriteState::Idle => Action::Ready(Ok(None)),
                WriteState::Writing(_) => Action::Poll,
            },
            Event::Pending => Action::Pending,
            Event::Done(Ok((websocket, _))) => {
                self.websocket = Some(websocket);
                self.write_state = WriteState::Idle;
                self.write_buf = BytesMut::with_capacity(0);
                Action::Ready(Ok(self.pending_op.take()))
            },
            Event::Done(Err(e)) => {
                self.write_state = WriteState::Idle;
                self.pending_op = None;
                self.write_buf = BytesMut::with_capacity(0);
                Action::Ready(Err(make_io_err(e)))
            },
        }
    }

    /// Takes in a frame that was read while nothing was left to deliver.
    ///
    /// Returns how the read ends, or `None` if the frame ends no read.
    fn receive(&mut self, received: PayloadFrame, buf: &mut ReadBuf<'_>) -> (ended: Option<
        Result<(), StreamError>,
    >)
        requires
            old(self)@.read_buf.len() == 0,
            !old(self)@.closed,
        ensures
            buffers::extended(*old(buf), *final(buf)),
            ({
                let data = model::frame_data(old(self)@.payload_type, received);
                let room = buffers::read_buf_room(*old(buf)) as int;
                let n = if data.len() <= room { data.len() as int } else { room };
                &&& buffers::gained(*old(buf), *final(buf)) == data.take(n)
                &&& final(self)@ == (StreamState {
                    read_buf: data.skip(n),
                    closed: received.opcode is Close,
                    ..old(self)@
                })
                &&& ended == if model::mismatched(old(self)@.payload_type, received.opcode) {
                    Some(Err(StreamError::PayloadMismatch))
                } else if data.len() > 0 || received.opcode is Close {
                    Some(Ok(()))
                } else {
                    None
                }
            }),
    {
        match received.opcode {
            OpCode::Binary | OpCode::Text | OpCode::Continuation => {
                if received.opcode != OpCode::Continuation && received.opcode != OpCode::from(
                    self.payload_type,
                ) {
                    return Some(Err(StreamError::PayloadMismatch));
                }
                let payload = received.payload;
                if payload.is_empty() {
                    return None;
                }
                if payload.len() <= buf.remaining() {
                    buffers::deliver(buf, &payload);
                } else {
                    let (fits, rest) = payload.split_at(buf.remaining());
                    buffers::deliver(buf, fits);
                    self.read_buf.extend_from_slice(rest);
                }
                Some(Ok(()))
            },
            OpCode::Close => {
                self.closed = true;
                Some(Ok(()))
            },
            OpCode::Ping | OpCode::Pong => None,
        }
    }

    /// One step of a read into `buf`; `read` makes the future that reads a frame.
    ///
    /// The payload of each data frame is delivered in order. What does not fit in `buf` is kept
    /// and served by the next reads. Frames that bring no data are passed over; a Close frame
    /// is the end of the stream.
    pub fn poll_read<M: FnOnce(WebSocket<S>) -> R>(
        &mut self,
        event: Event<FutureResult<S, PayloadFrame>>,
        buf: &mut ReadBuf<'_>,
        read: M,
    ) -> (action: Action<()>)
        requires
            old(self)@.inv(),
            !(event is Called) ==> old(self)@.read_state is Reading,
            forall|websocket: WebSocket<S>| call_requires(read, (websocket,)),
        ensures
            final(self)@.inv(),
            buffers::extended(*old(buf), *final(buf)),
            model::read_step(
                old(self)@,
                event,
                buffers::read_buf_room(*old(buf)),
                |websocket: WebSocket<S>, future: R| call_ensures(read, (websocket,), future),
                final(self)@,
                buffers::gained(*old(buf), *final(buf)),
                action,
            ),
    {
        assert(buffers::gained(*old(buf), *old(buf)) == Seq::<u8>::empty());
        match event {
            Event::Called => {
                // If there are buffered bytes from a previous frame, satisfy the read.
                if !self.read_buf.is_empty() {
                    let room: usize = buf.remaining();
                    let len: usize = self.read_buf.len();
                    let to_copy: usize = if len <= room { len } else { room };
                    buffers::deliver(buf, &self.read_buf.split_to(to_copy));
                    return Action::Ready(Ok(()));
                }
                // If a Close was observed, report EOF: ready with nothing delivered.
                if self.closed {
                    return Action::Ready(Ok(()));
                }
            },
            Event::Pending => return Action::Pending,
            Event::Done(outcome) => {
                self.read_state = ReadState::Idle;
                let ghost mid = model::after_frame(old(self)@, outcome);
                match outcome {
                    Ok((websocket, received)) => {
                        self.websocket = Some(websocket);
                        assert(mid.read_buf == model::frame_data(mid.payload_type, received));
                        if let Some(ended) = self.receive(received, buf) {
                            return Action::Ready(ended);
                        }
                        assert(buffers::gained(*old(buf), *buf) == Seq::<u8>::empty());
                        assert(self@ == mid);
                    },
                    // The websocket went down with the future that failed.
                    Err(e) => return Action::Ready(Err(make_io_err(e))),
                }
            },
        }
        match &self.read_state {
            ReadState::Reading(_) => Action::Poll,
            ReadState::Idle => match self.websocket.take() {
                Some(websocket) => {
                    self.read_state = ReadState::Reading(read(websocket));
                    Action::Poll
                },
                None => Action::Ready(Err(StreamError::NotAvailable)),
            },
        }
    }

    /// One step of a write of `buf`; `write` makes the future that writes a frame.
    ///
    /// The bytes go out as one data frame of the stream's payload type, and their number is
    /// reported once that frame was written. A call that is repeated with the same bytes while
    /// they are in flight waits for them. A call with other bytes, also where they begin with
    /// those in flight, is a new one: it waits for what is in flight and then sends its own.
    pub fn poll_write<M: FnOnce(WebSocket<S>, Frame<'static>) -> W>(
        &mut self,
        event: Event<FutureResult<S, ()>>,
        buf: &[u8],
        write: M,
    ) -> (action: Action<usize>)
        requires
            old(self)@.inv(),
            !(event is Called) ==> old(self)@.write_state is Writing,
            forall|websocket: WebSocket<S>, sent: Frame<'static>|
                call_requires(write, (websocket, sent)),
        ensures
            final(self)@.inv(),
            model::write_step(
                old(self)@,
                event,
                buf@,
                sending(write, frame::data_content(old(self)@.payload_type, buf@)),
                final(self)@,
                action,
            ),
            action matches Action::Ready(Ok(n)) ==> n == buf@.len(),
    {
        let own = match &event {
            Event::Done(Ok(_)) => buffers::same_bytes(&self.write_buf, buf),
            _ => false,
        };
        match self.poll_drive(event) {
            Action::Poll => Action::Poll,
            Action::Pending => Action::Pending,
            Action::Ready(Err(e)) => Action::Ready(Err(e)),
            Action::Ready(Ok(Some(PendingOp::Write(n)))) if own => Action::Ready(Ok(n)),
            // Nothing in flight, or a flush, a close or another write that a previous call
            // started just finished: start the write that this call was asked to perform.
            Action::Ready(Ok(_)) => match self.websocket.take() {
                Some(websocket) => {
                    // Copy the buffer so that the future can own it.
                    let payload = BytesMut::from(buf);
                    let len: usize = payload.len();
                    let sent = data_frame(payload, self.payload_type);
                    self.pending_op = Some(PendingOp::Write(len));
                    self.write_buf = BytesMut::from(buf);
                    self.write_state = WriteState::Writing(write(websocket, sent));
                    Action::Poll
                },
                None => Action::Ready(Err(StreamError::NotAvailable)),
            },
        }
    }

    /// One step of a flush; `flush` makes the future that flushes the websocket.
    pub fn poll_flush<M: FnOnce(WebSocket<S>) -> W>(
        &mut self,
        event: Event<FutureResult<S, ()>>,
        flush: M,
    ) -> (action: Action<()>)
        requires
            old(self)@.inv(),
            !(event is Called) ==> old(self)@.write_state is Writing,
            forall|websocket: WebSocket<S>| call_requires(flush, (websocket,)),
        ensures
            final(self)@.inv(),
            model::flush_step(
                old(self)@,
                event,
                |websocket: WebSocket<S>, future: W| call_ensures(flush, (websocket,), future),
                final(self)@,
                action,
            ),
    {
        match self.poll_drive(event) {
            Action::Poll => Action::Poll,
            Action::Pending => Action::Pending,
            Action::Ready(Err(e)) => Action::Ready(Err(e)),
            Action::Ready(Ok(Some(PendingOp::Flush))) => Action::Ready(Ok(())),
            // Nothing in flight, or a write or close that was in flight just finished: the
            // caller is still owed an actual flush.
            Action::Ready(Ok(_)) => match self.websocket.take() {
                Some(websocket) => {
                    self.pending_op = Some(PendingOp::Flush);
                    self.write_state = WriteState::Writing(flush(websocket));
                    Action::Poll
                },
                None => Action::Ready(Err(StreamError::NotAvailable)),
            },
        }
    }

    /// One step of a shutdown, which sends a Close frame; `close` makes the future that writes
    /// it.
    pub fn poll_shutdown<M: FnOnce(WebSocket<S>, Frame<'static>) -> W>(
        &mut self,
        event: Event<FutureResult<S, ()>>,
        close: M,
    ) -> (action: Action<()>)
        requires
            old(self)@.inv(),
            !(event is Called) ==> old(self)@.write_state is Writing,
            forall|websocket: WebSocket<S>, sent: Frame<'static>|
                call_requires(close, (websocket, sent)),
        ensures
            final(self)@.inv(),
            model::shutdown_step(
                old(self)@,
                event,
                sending(close, frame::close_content()),
                final(self)@,
                action,
            ),
    {
        match self.poll_drive(event) {
            Action::Poll => Action::Poll,
            Action::Pending => Action::Pending,
            Action::Ready(Err(e)) => Action::Ready(Err(e)),
            Action::Ready(Ok(Some(PendingOp::Close))) => Action::Ready(Ok(())),
            // Nothing in flight, or a write or flush that was in flight just finished: the
            // caller is still owed an actual close.
            Action::Ready(Ok(_)) => match self.websocket.take() {
                Some(websocket) => {
                    self.pending_op = Some(PendingOp::Close);
                    self.write_state = WriteState::Writing(close(websocket, close_frame()));
                    Action::Poll
                },
                None => Action::Ready(Err(StreamError::NotAvailable)),
            },
        }
    }
}

/// Whether `auto_pong` and `auto_close` may be taken for the two settings of a websocket: each
/// setter makes its own setting what it is told, and keeps the other.
pub closed spec fn settings<S>(
    auto_pong: spec_fn(WebSocket<S>) -> bool,
    auto_close: spec_fn(WebSocket<S>) -> bool,
) -> bool {
    &&& forall|websocket: WebSocket<S>, on: bool, set: WebSocket<S>| #[trigger]
        call_ensures(set_auto_pong::<S>, (websocket, on), set) ==> auto_pong(set) == on
            && auto_close(set) == auto_close(websocket)
    &&& forall|websocket: WebSocket<S>, on: bool, set: WebSocket<S>| #[trigger]
        call_ensures(set_auto_close::<S>, (websocket, on), set) ==> auto_close(set) == on
            && auto_pong(set) == auto_pong(websocket)
}

/// Whatever the two settings are that the setters set, both are on in the websocket of a new
/// stream.
proof fn lemma_both_settings_are_on<S, R, W>(
    auto_pong: spec_fn(WebSocket<S>) -> bool,
    auto_close: spec_fn(WebSocket<S>) -> bool,
    websocket: WebSocket<S>,
    payload_type: PayloadType,
    stream: WebSocketStream<S, R, W>,
)
    requires
        forall|websocket: WebSocket<S>, on: bool, set: WebSocket<S>| #[trigger]
            call_ensures(set_auto_pong::<S>, (websocket, on), set) ==> auto_pong(set) == on
                && auto_close(set) == auto_close(websocket),
        forall|websocket: WebSocket<S>, on: bool, set: WebSocket<S>| #[trigger]
            call_ensures(set_auto_close::<S>, (websocket, on), set) ==> auto_close(set) == on
                && auto_pong(set) == auto_pong(websocket),
        call_ensures(WebSocketStream::<S, R, W>::new, (websocket, payload_type), stream),
    ensures
        stream@.websocket matches Some(held) && auto_pong(held) && auto_close(held),
{
}

/// The websocket of a new stream answers each Ping and each Close by itself, whatever the payload
/// type is and whatever its settings were before: both settings are on in the websocket that the
/// stream holds, and in the one that it gives back.
pub proof fn law_a_new_stream_answers_by_itself<S, R, W>(
    auto_pong: spec_fn(WebSocket<S>) -> bool,
    auto_close: spec_fn(WebSocket<S>) -> bool,
    websocket: WebSocket<S>,
    payload_type: PayloadType,
    stream: WebSocketStream<S, R, W>,
    inner: Option<WebSocket<S>>,
)
    requires
        settings(auto_pong, auto_close),
        call_ensures(WebSocketStream::<S, R, W>::new, (websocket, payload_type), stream),
        call_ensures(WebSocketStream::<S, R, W>::into_inner, (stream,), inner),
    ensures
        stream@.websocket matches Some(held) && auto_pong(held) && auto_close(held),
        inner matches Some(given) && auto_pong(given) && auto_close(given),
{
    lemma_both_settings_are_on(auto_pong, auto_close, websocket, payload_type, stream);
}

} // verus!
