//! What holds of a stream as a whole, over any sequence of its operations.

use crate::error::StreamError;
use crate::frame::{OpCode, PayloadFrame, PayloadType};
use crate::frame;
use crate::model::{Call, StreamState};
use crate::model;
use crate::stream::{Action, Event, FutureResult, PendingOp, ReadState, WriteState};
use fastwebsockets::WebSocket;
use vstd::prelude::*;

verus! {

/// One operation on a stream, with what went into it and what came of it.
#[verifier::reject_recursive_types(S)]
#[verifier::reject_recursive_types(R)]
#[verifier::reject_recursive_types(W)]
#[allow(inconsistent_fields)]
pub ghost enum Op<S, R, W> {
    /// A step of `poll_read` on a buffer with `room` free bytes.
    Read {
        event: Event<FutureResult<S, PayloadFrame>>,
        room: nat,
        made: spec_fn(WebSocket<S>, R) -> bool,
        delivered: Seq<u8>,
        action: Action<()>,
    },
    /// A step of `poll_write` of `buf`.
    Write {
        event: Event<FutureResult<S, ()>>,
        buf: Seq<u8>,
        made: spec_fn(WebSocket<S>, W) -> bool,
        action: Action<usize>,
    },
    /// A step of `poll_flush`.
    Flush {
        event: Event<FutureResult<S, ()>>,
        made: spec_fn(WebSocket<S>, W) -> bool,
        action: Action<()>,
    },
    /// A step of `poll_shutdown`.
    Shutdown {
        event: Event<FutureResult<S, ()>>,
        made: spec_fn(WebSocket<S>, W) -> bool,
        action: Action<()>,
    },
    /// A step of `poll_drive`.
    Drive { event: Event<FutureResult<S, ()>>, action: Action<Option<PendingOp>> },
    /// The frame read in flight was polled, which may change the future.
    PollRead(R),
    /// The write, flush or close in flight was polled, which may change the future.
    PollWrite(W),
}

/// Whether `op` leads from `pre` to `post`.
#[verifier::opaque]
pub open spec fn step<S, R, W>(
    pre: StreamState<S, R, W>,
    op: Op<S, R, W>,
    post: StreamState<S, R, W>,
) -> bool {
    match op {
        Op::Read { event, room, made, delivered, action } => {
            &&& !(event is Called) ==> pre.read_state is Reading
            &&& model::read_step(pre, event, room, made, post, delivered, action)
        },
        Op::Write { event, buf, made, action } => {
            &&& !(event is Called) ==> pre.write_state is Writing
            &&& buf.len() <= usize::MAX
            &&& model::write_step(pre, event, buf, made, post, action)
        },
        Op::Flush { event, made, action } => {
            &&& !(event is Called) ==> pre.write_state is Writing
            &&& model::flush_step(pre, event, made, post, action)
        },
        Op::Shutdown { event, made, action } => {
            &&& !(event is Called) ==> pre.write_state is Writing
            &&& model::shutdown_step(pre, event, made, post, action)
        },
        Op::Drive { event, action } => {
            &&& !(event is Called) ==> pre.write_state is Writing
            &&& model::drive_step(pre, event, post, action)
        },
        Op::PollRead(future) => {
            &&& pre.read_state is Reading
            &&& post == (StreamState { read_state: ReadState::Reading(future), ..pre })
        },
        Op::PollWrite(future) => {
            &&& pre.write_state is Writing
            &&& post == (StreamState { write_state: WriteState::Writing(future), ..pre })
        },
    }
}

/// Whether `ops` lead through `states`, one operation from each state to the next.
pub open spec fn run<S, R, W>(
    states: Seq<StreamState<S, R, W>>,
    ops: Seq<Op<S, R, W>>,
) -> bool {
    &&& states.len() == ops.len() + 1
    &&& forall|i: int| 0 <= i < ops.len() ==> step(states[i], #[trigger] ops[i], states[i + 1])
}

/// All bytes that the reads among `ops` delivered, in order.
pub open spec fn delivered<S, R, W>(ops: Seq<Op<S, R, W>>) -> Seq<u8>
    decreases ops.len(),
{
    if ops.len() == 0 {
        Seq::empty()
    } else {
        delivered(ops.drop_last()) + match ops.last() {
            Op::Read { delivered, .. } => delivered,
            _ => Seq::empty(),
        }
    }
}

/// The opcode and the payload of each frame that arrived during `ops`, in order.
pub open spec fn arrived<S, R, W>(ops: Seq<Op<S, R, W>>) -> Seq<(OpCode, Seq<u8>)>
    decreases ops.len(),
{
    if ops.len() == 0 {
        Seq::empty()
    } else {
        arrived(ops.drop_last()) + match ops.last() {
            Op::Read { event: Event::Done(Ok((_, received))), .. } =>
                seq![(received.opcode, received.bytes())],
            _ => Seq::empty(),
        }
    }
}

/// The application bytes that frames carry on a stream of the given type, in order.
pub open spec fn carried(payload_type: PayloadType, frames: Seq<(OpCode, Seq<u8>)>) -> Seq<u8>
    decreases frames.len(),
{
    if frames.len() == 0 {
        Seq::empty()
    } else {
        let (opcode, payload) = frames.last();
        carried(payload_type, frames.drop_last()) + if opcode == frame::data_opcode(payload_type)
            || opcode is Continuation {
            payload
        } else {
            Seq::empty()
        }
    }
}

/// Every operation keeps the invariant and the payload type.
pub proof fn law_step_keeps_invariant<S, R, W>(
    pre: StreamState<S, R, W>,
    op: Op<S, R, W>,
    post: StreamState<S, R, W>,
)
    requires
        pre.inv(),
        step(pre, op, post),
    ensures
        post.inv(),
        post.payload_type == pre.payload_type,
{
    reveal(step);
}

proof fn lemma_run_keeps_invariant_until<S, R, W>(
    states: Seq<StreamState<S, R, W>>,
    ops: Seq<Op<S, R, W>>,
    i: int,
)
    requires
        run(states, ops),
        states[0].inv(),
        0 <= i < states.len(),
    ensures
        states[i].inv(),
        states[i].payload_type == states[0].payload_type,
    decreases i,
{
    if i > 0 {
        lemma_run_keeps_invariant_until(states, ops, i - 1);
        assert(step(states[i - 1], ops[i - 1], states[i - 1 + 1]));
        law_step_keeps_invariant(states[i - 1], ops[i - 1], states[i]);
    }
}

/// The invariant and the payload type hold throughout a run.
pub proof fn law_run_keeps_invariant<S, R, W>(
    states: Seq<StreamState<S, R, W>>,
    ops: Seq<Op<S, R, W>>,
)
    requires
        run(states, ops),
        states[0].inv(),
    ensures
        forall|i: int|
            0 <= i < states.len() ==> (#[trigger] states[i]).inv() && states[i].payload_type
                == states[0].payload_type,
{
    assert forall|i: int| 0 <= i < states.len() implies (#[trigger] states[i]).inv()
        && states[i].payload_type == states[0].payload_type by {
        lemma_run_keeps_invariant_until(states, ops, i);
    }
}

/// One operation neither loses, repeats nor reorders a byte: what was buffered and what a frame
/// brought is what was delivered and what is buffered.
proof fn lemma_step_bytes<S, R, W>(
    pre: StreamState<S, R, W>,
    op: Op<S, R, W>,
    post: StreamState<S, R, W>,
)
    requires
        pre.inv(),
        step(pre, op, post),
    ensures
        pre.read_buf + carried(pre.payload_type, arrived(seq![op])) == delivered(seq![op])
            + post.read_buf,
{
    reveal(step);
    let ops = seq![op];
    assert(ops.drop_last() == Seq::<Op<S, R, W>>::empty());
    reveal_with_fuel(arrived, 2);
    reveal_with_fuel(delivered, 2);
    match op {
        Op::Read { event: Event::Done(Ok((_, received))), .. } => {
            let frames = seq![(received.opcode, received.bytes())];
            assert(arrived(ops) == frames);
            assert(frames.drop_last() == Seq::<(OpCode, Seq<u8>)>::empty());
            reveal_with_fuel(carried, 2);
            assert(carried(pre.payload_type, frames) == model::frame_data(
                pre.payload_type,
                received,
            ));
        },
        _ => {
            assert(arrived(ops) == Seq::<(OpCode, Seq<u8>)>::empty());
        },
    }
}

proof fn lemma_carried_concat(
    payload_type: PayloadType,
    front: Seq<(OpCode, Seq<u8>)>,
    back: Seq<(OpCode, Seq<u8>)>,
)
    ensures
        carried(payload_type, front + back) == carried(payload_type, front) + carried(
            payload_type,
            back,
        ),
    decreases back.len(),
{
    if back.len() == 0 {
        assert(front + back == front);
    } else {
        assert((front + back).drop_last() == front + back.drop_last());
        assert((front + back).last() == back.last());
        lemma_carried_concat(payload_type, front, back.drop_last());
    }
}

/// Reads present the data frames that arrive as one continuous byte stream.
///
/// Over any run, what was buffered at the start, followed by the payloads of all data frames
/// that arrived, is what the reads delivered, followed by what is still buffered.
pub proof fn law_bytes_arrive_in_order<S, R, W>(
    states: Seq<StreamState<S, R, W>>,
    ops: Seq<Op<S, R, W>>,
)
    requires
        run(states, ops),
        states[0].inv(),
    ensures
        states[0].read_buf + carried(states[0].payload_type, arrived(ops)) == delivered(ops)
            + states.last().read_buf,
    decreases ops.len(),
{
    if ops.len() > 0 {
        let front = ops.drop_last();
        let op = ops.last();
        let pre = states[ops.len() - 1];
        let payload_type = states[0].payload_type;
        law_run_keeps_invariant(states, ops);
        assert(pre.inv());
        law_bytes_arrive_in_order(states.drop_last(), front);
        lemma_step_bytes(pre, op, states.last());
        assert(seq![op].drop_last() == Seq::<Op<S, R, W>>::empty());
        reveal_with_fuel(arrived, 2);
        reveal_with_fuel(delivered, 2);
        assert(arrived(ops) == arrived(front) + arrived(seq![op]));
        assert(delivered(ops) == delivered(front) + delivered(seq![op]));
        lemma_carried_concat(payload_type, arrived(front), arrived(seq![op]));
        let a = states[0].read_buf;
        let b = carried(payload_type, arrived(front));
        let c = carried(payload_type, arrived(seq![op]));
        assert(a + (b + c) == (a + b) + c);
        assert((delivered(front) + pre.read_buf) + c == delivered(front) + (pre.read_buf + c));
    }
}

/// A read never delivers more than there is room for.
pub proof fn law_delivery_fits<S, R, W>(
    pre: StreamState<S, R, W>,
    event: Event<FutureResult<S, PayloadFrame>>,
    room: nat,
    made: spec_fn(WebSocket<S>, R) -> bool,
    post: StreamState<S, R, W>,
    delivered: Seq<u8>,
    action: Action<()>,
)
    requires
        model::read_step(pre, event, room, made, post, delivered, action),
    ensures
        delivered.len() <= room,
{
}

/// For a buffer that takes bytes, a read that ends well with none is the end of the stream, and
/// nothing else is: not an empty frame, not a control frame.
pub proof fn law_no_bytes_means_closed<S, R, W>(
    pre: StreamState<S, R, W>,
    event: Event<FutureResult<S, PayloadFrame>>,
    room: nat,
    made: spec_fn(WebSocket<S>, R) -> bool,
    post: StreamState<S, R, W>,
    delivered: Seq<u8>,
    action: Action<()>,
)
    requires
        pre.inv(),
        !(event is Called) ==> pre.read_state is Reading,
        model::read_step(pre, event, room, made, post, delivered, action),
        action == Action::<()>::Ready(Ok(())),
        room > 0,
    ensures
        delivered.len() == 0 <==> post.closed,
{
}

/// A frame that brings no application bytes (an empty data frame, a Ping, a Pong) ends no read:
/// the next frame is read on the same websocket.
pub proof fn law_frame_without_data_is_passed_over<S, R, W>(
    pre: StreamState<S, R, W>,
    websocket: WebSocket<S>,
    received: PayloadFrame,
    room: nat,
    made: spec_fn(WebSocket<S>, R) -> bool,
    post: StreamState<S, R, W>,
    delivered: Seq<u8>,
    action: Action<()>,
)
    requires
        pre.inv(),
        pre.read_state is Reading,
        model::read_step(
            pre,
            Event::Done(Ok((websocket, received))),
            room,
            made,
            post,
            delivered,
            action,
        ),
        !model::mismatched(pre.payload_type, received.opcode),
        !(received.opcode is Close),
        model::frame_data(pre.payload_type, received).len() == 0,
    ensures
        action == Action::<()>::Poll,
        delivered == Seq::<u8>::empty(),
        post.read_state matches ReadState::Reading(future) && made(websocket, future),
        post == (StreamState { read_state: post.read_state, ..pre }),
{
}

/// A data frame of the other type is reported as an error, and the stream stays usable: it
/// holds the websocket again, and nothing else changed.
pub proof fn law_mismatch_keeps_the_stream_usable<S, R, W>(
    pre: StreamState<S, R, W>,
    websocket: WebSocket<S>,
    received: PayloadFrame,
    room: nat,
    made: spec_fn(WebSocket<S>, R) -> bool,
    post: StreamState<S, R, W>,
    delivered: Seq<u8>,
    action: Action<()>,
)
    requires
        pre.inv(),
        pre.read_state is Reading,
        model::read_step(
            pre,
            Event::Done(Ok((websocket, received))),
            room,
            made,
            post,
            delivered,
            action,
        ),
        model::mismatched(pre.payload_type, received.opcode),
    ensures
        action == Action::<()>::Ready(Err(StreamError::PayloadMismatch)),
        delivered == Seq::<u8>::empty(),
        post == (StreamState {
            websocket: Some(websocket),
            read_state: ReadState::Idle,
            ..pre
        }),
{
    assert(pre.read_buf + model::frame_data(pre.payload_type, received) == pre.read_buf);
}

/// What an operation does on a stream that is closed.
proof fn lemma_closed_step<S, R, W>(
    pre: StreamState<S, R, W>,
    op: Op<S, R, W>,
    post: StreamState<S, R, W>,
)
    requires
        pre.inv(),
        step(pre, op, post),
        pre.closed,
    ensures
        post.closed,
        op matches Op::Read { event, delivered, action, .. } ==> {
            &&& event is Called
            &&& delivered == Seq::<u8>::empty()
            &&& action == Action::<()>::Ready(Ok(()))
            &&& post == pre
        },
{
    reveal(step);
}

proof fn lemma_closed_until<S, R, W>(
    states: Seq<StreamState<S, R, W>>,
    ops: Seq<Op<S, R, W>>,
    i: int,
)
    requires
        run(states, ops),
        states[0].inv(),
        states[0].closed,
        0 <= i < states.len(),
    ensures
        states[i].closed,
    decreases i,
{
    if i > 0 {
        lemma_closed_until(states, ops, i - 1);
        lemma_run_keeps_invariant_until(states, ops, i - 1);
        assert(step(states[i - 1], ops[i - 1], states[i - 1 + 1]));
        lemma_closed_step(states[i - 1], ops[i - 1], states[i]);
    }
}

/// Once a Close frame was received, the stream stays closed: every read ends well at once with
/// no bytes, and changes nothing.
pub proof fn law_closed_for_good<S, R, W>(
    states: Seq<StreamState<S, R, W>>,
    ops: Seq<Op<S, R, W>>,
)
    requires
        run(states, ops),
        states[0].inv(),
        states[0].closed,
    ensures
        forall|i: int| 0 <= i < states.len() ==> (#[trigger] states[i]).closed,
        forall|i: int|
            0 <= i < ops.len() ==> (#[trigger] ops[i] matches Op::Read {
                event,
                delivered,
                action,
                ..
            } ==> {
                &&& event is Called
                &&& delivered == Seq::<u8>::empty()
                &&& action == Action::<()>::Ready(Ok(()))
                &&& states[i + 1] == states[i]
            }),
{
    law_run_keeps_invariant(states, ops);
    assert forall|i: int| 0 <= i < states.len() implies (#[trigger] states[i]).closed by {
        lemma_closed_until(states, ops, i);
    }
    assert forall|i: int| 0 <= i < ops.len() implies (#[trigger] ops[i] matches Op::Read {
        event,
        delivered,
        action,
        ..
    } ==> {
        &&& event is Called
        &&& delivered == Seq::<u8>::empty()
        &&& action == Action::<()>::Ready(Ok(()))
        &&& states[i + 1] == states[i]
    }) by {
        assert(states[i].inv() && states[i].closed);
        lemma_closed_step(states[i], ops[i], states[i + 1]);
    }
}

/// Whether `op` is a read that took in a Close frame.
pub open spec fn takes_in_a_close<S, R, W>(op: Op<S, R, W>) -> bool {
    match op {
        Op::Read { event: Event::Done(Ok((_, received))), .. } => received.opcode is Close,
        _ => false,
    }
}

/// A stream is closed by a read that takes in a Close frame, and by nothing else.
proof fn lemma_closing_step<S, R, W>(
    pre: StreamState<S, R, W>,
    op: Op<S, R, W>,
    post: StreamState<S, R, W>,
)
    requires
        pre.inv(),
        step(pre, op, post),
    ensures
        post.closed <==> pre.closed || takes_in_a_close(op),
{
    reveal(step);
}

/// A stream that was open is closed exactly when a read has taken in a Close frame since. In
/// particular this tells of a new stream what `is_closed` answers after any run.
pub proof fn law_closed_by_a_close_frame_only<S, R, W>(
    states: Seq<StreamState<S, R, W>>,
    ops: Seq<Op<S, R, W>>,
)
    requires
        run(states, ops),
        states[0].inv(),
        !states[0].closed,
    ensures
        states.last().closed <==> exists|i: int|
            0 <= i < ops.len() && takes_in_a_close(#[trigger] ops[i]),
    decreases ops.len(),
{
    if ops.len() > 0 {
        let last = ops.len() - 1;
        let earlier = ops.drop_last();
        law_closed_by_a_close_frame_only(states.drop_last(), earlier);
        lemma_run_keeps_invariant_until(states, ops, last);
        assert(step(states[last], ops[last], states[last + 1]));
        lemma_closing_step(states[last], ops[last], states[last + 1]);
        assert(states.drop_last().last() == states[last]);
        if states[last].closed {
            let i = choose|i: int| 0 <= i < earlier.len() && takes_in_a_close(#[trigger] earlier[i]);
            assert(takes_in_a_close(ops[i]));
        }
        if exists|i: int| 0 <= i < ops.len() && takes_in_a_close(#[trigger] ops[i]) {
            let i = choose|i: int| 0 <= i < ops.len() && takes_in_a_close(#[trigger] ops[i]);
            if i < last {
                assert(takes_in_a_close(earlier[i]));
            }
        }
    }
}

/// Whether an operation in flight ended with a failure of the websocket in `op`.
pub open spec fn fails<S, R, W>(op: Op<S, R, W>) -> bool {
    match op {
        Op::Read { event: Event::Done(Err(_)), .. } => true,
        Op::Write { event: Event::Done(Err(_)), .. } => true,
        Op::Flush { event: Event::Done(Err(_)), .. } => true,
        Op::Shutdown { event: Event::Done(Err(_)), .. } => true,
        Op::Drive { event: Event::Done(Err(_)), .. } => true,
        _ => false,
    }
}

/// The error with which `op` ended, if it did.
pub open spec fn failure<S, R, W>(op: Op<S, R, W>) -> Option<StreamError> {
    match op {
        Op::Read { action: Action::Ready(Err(err)), .. } => Some(err),
        Op::Write { action: Action::Ready(Err(err)), .. } => Some(err),
        Op::Flush { action: Action::Ready(Err(err)), .. } => Some(err),
        Op::Shutdown { action: Action::Ready(Err(err)), .. } => Some(err),
        Op::Drive { action: Action::Ready(Err(err)), .. } => Some(err),
        _ => None,
    }
}

/// The websocket is lost with an operation that fails, and in no other way.
pub proof fn law_lost_with_a_failure_only<S, R, W>(
    pre: StreamState<S, R, W>,
    op: Op<S, R, W>,
    post: StreamState<S, R, W>,
)
    requires
        pre.inv(),
        step(pre, op, post),
    ensures
        post.lost() <==> pre.lost() || fails(op),
{
    reveal(step);
}

/// What an operation does on a stream whose websocket is lost.
proof fn lemma_lost_step<S, R, W>(
    pre: StreamState<S, R, W>,
    op: Op<S, R, W>,
    post: StreamState<S, R, W>,
)
    requires
        pre.inv(),
        step(pre, op, post),
        pre.lost(),
    ensures
        post.lost(),
        !(op is Read && (pre.closed || pre.read_buf.len() > 0)) && !(op is Drive) ==> failure(op)
            == Some(StreamError::NotAvailable) && post == pre,
        op matches Op::Drive { action, .. } ==> action == Action::<Option<PendingOp>>::Ready(
            Ok(None),
        ) && post == pre,
{
    reveal(step);
}

proof fn lemma_lost_until<S, R, W>(
    states: Seq<StreamState<S, R, W>>,
    ops: Seq<Op<S, R, W>>,
    i: int,
)
    requires
        run(states, ops),
        states[0].inv(),
        states[0].lost(),
        0 <= i < states.len(),
    ensures
        states[i].lost(),
    decreases i,
{
    if i > 0 {
        lemma_lost_until(states, ops, i - 1);
        lemma_run_keeps_invariant_until(states, ops, i - 1);
        assert(step(states[i - 1], ops[i - 1], states[i - 1 + 1]));
        lemma_lost_step(states[i - 1], ops[i - 1], states[i]);
    }
}

/// A websocket that is lost stays lost, and everything says so: each write, flush and shutdown
/// fails with `NotAvailable` and changes nothing, and so does each read once the bytes that
/// were already received are delivered, unless the stream was closed. There is nothing left to
/// drive.
pub proof fn law_lost_for_good<S, R, W>(
    states: Seq<StreamState<S, R, W>>,
    ops: Seq<Op<S, R, W>>,
)
    requires
        run(states, ops),
        states[0].inv(),
        states[0].lost(),
    ensures
        forall|i: int| 0 <= i < states.len() ==> (#[trigger] states[i]).lost(),
        forall|i: int|
            0 <= i < ops.len() && !(#[trigger] ops[i] is Read && (states[i].closed
                || states[i].read_buf.len() > 0)) && !(ops[i] is Drive) ==> failure(ops[i])
                == Some(StreamError::NotAvailable) && states[i + 1] == states[i],
        forall|i: int|
            0 <= i < ops.len() ==> (#[trigger] ops[i] matches Op::Drive { action, .. } ==> action
                == Action::<Option<PendingOp>>::Ready(Ok(None)) && states[i + 1] == states[i]),
{
    law_run_keeps_invariant(states, ops);
    assert forall|i: int| 0 <= i < states.len() implies (#[trigger] states[i]).lost() by {
        lemma_lost_until(states, ops, i);
    }
    assert forall|i: int|
        0 <= i < ops.len() && !(#[trigger] ops[i] is Read && (states[i].closed
            || states[i].read_buf.len() > 0)) && !(ops[i] is Drive) implies failure(ops[i]) == Some(
        StreamError::NotAvailable,
    ) && states[i + 1] == states[i] by {
        assert(states[i].inv() && states[i].lost());
        lemma_lost_step(states[i], ops[i], states[i + 1]);
    }
    assert forall|i: int| 0 <= i < ops.len() implies (#[trigger] ops[i] matches Op::Drive {
        action,
        ..
    } ==> action == Action::<Option<PendingOp>>::Ready(Ok(None)) && states[i + 1] == states[i]) by {
        assert(states[i].inv() && states[i].lost());
        lemma_lost_step(states[i], ops[i], states[i + 1]);
    }
}

/// The stream holds the websocket exactly when no read or write is in flight and the websocket
/// was not lost: then, and only then, it can be recovered.
pub proof fn law_held_when_idle<S, R, W>(state: StreamState<S, R, W>)
    requires
        state.inv(),
    ensures
        state.websocket is Some <==> !state.busy() && !state.lost(),
        !(state.read_state is Reading && state.write_state is Writing),
{
}

/// A websocket that was there is lost exactly when an operation has failed since.
pub proof fn law_lost_after_a_failure_only<S, R, W>(
    states: Seq<StreamState<S, R, W>>,
    ops: Seq<Op<S, R, W>>,
)
    requires
        run(states, ops),
        states[0].inv(),
        !states[0].lost(),
    ensures
        states.last().lost() <==> exists|i: int| 0 <= i < ops.len() && fails(#[trigger] ops[i]),
    decreases ops.len(),
{
    if ops.len() > 0 {
        let last = ops.len() - 1;
        let earlier = ops.drop_last();
        law_lost_after_a_failure_only(states.drop_last(), earlier);
        lemma_run_keeps_invariant_until(states, ops, last);
        assert(step(states[last], ops[last], states[last + 1]));
        law_lost_with_a_failure_only(states[last], ops[last], states[last + 1]);
        assert(states.drop_last().last() == states[last]);
        if states[last].lost() {
            let i = choose|i: int| 0 <= i < earlier.len() && fails(#[trigger] earlier[i]);
            assert(fails(ops[i]));
        }
        if exists|i: int| 0 <= i < ops.len() && fails(#[trigger] ops[i]) {
            let i = choose|i: int| 0 <= i < ops.len() && fails(#[trigger] ops[i]);
            if i < last {
                assert(fails(earlier[i]));
            }
        }
    }
}

/// After any run of a new stream, the websocket can be recovered exactly when nothing is in
/// flight and no operation of the run has failed.
pub proof fn law_recoverable_unless_busy_or_failed<S, R, W>(
    websocket: WebSocket<S>,
    payload_type: PayloadType,
    states: Seq<StreamState<S, R, W>>,
    ops: Seq<Op<S, R, W>>,
)
    requires
        run(states, ops),
        states[0] == model::initial::<S, R, W>(websocket, payload_type),
    ensures
        states.last().websocket is Some <==> !states.last().busy() && forall|i: int|
            0 <= i < ops.len() ==> !fails(#[trigger] ops[i]),
{
    lemma_run_keeps_invariant_until(states, ops, states.len() - 1);
    law_lost_after_a_failure_only(states, ops);
    law_held_when_idle(states.last());
}

/// Whatever happens on the write side leaves what the reads work on alone.
pub proof fn law_write_side_leaves_reads_alone<S, R, W>(
    pre: StreamState<S, R, W>,
    op: Op<S, R, W>,
    post: StreamState<S, R, W>,
)
    requires
        step(pre, op, post),
        op is Write || op is Flush || op is Shutdown || op is Drive || op is PollWrite,
    ensures
        post.read_buf == pre.read_buf,
        post.read_state == pre.read_state,
        post.closed == pre.closed,
{
    reveal(step);
}

/// Reads leave what is in flight on the write side alone.
pub proof fn law_reads_leave_write_side_alone<S, R, W>(
    pre: StreamState<S, R, W>,
    op: Op<S, R, W>,
    post: StreamState<S, R, W>,
)
    requires
        step(pre, op, post),
        op is Read || op is PollRead,
    ensures
        post.write_state == pre.write_state,
        post.pending_op == pre.pending_op,
        post.write_buf == pre.write_buf,
{
    reveal(step);
}

/// The call of the write side whose operation `op` started, if it started one.
pub open spec fn started<S, R, W>(pre: StreamState<S, R, W>, op: Op<S, R, W>) -> Option<Call> {
    match op {
        Op::Write { event, buf, action: Action::Poll, .. } => if model::driven(pre, event)
            is Poll {
            None
        } else {
            Some(Call::Write(buf))
        },
        Op::Flush { event, action: Action::Poll, .. } => if model::driven(pre, event) is Poll {
            None
        } else {
            Some(Call::Flush)
        },
        Op::Shutdown { event, action: Action::Poll, .. } => if model::driven(pre, event) is Poll {
            None
        } else {
            Some(Call::Shutdown)
        },
        _ => None,
    }
}

/// The call of the write side that `op` is a step of.
pub open spec fn call_of<S, R, W>(op: Op<S, R, W>) -> Option<Call> {
    match op {
        Op::Write { buf, .. } => Some(Call::Write(buf)),
        Op::Flush { .. } => Some(Call::Flush),
        Op::Shutdown { .. } => Some(Call::Shutdown),
        _ => None,
    }
}

/// What an operation makes of what is in flight on the write side.
proof fn lemma_pending_step<S, R, W>(
    pre: StreamState<S, R, W>,
    op: Op<S, R, W>,
    post: StreamState<S, R, W>,
)
    requires
        pre.inv(),
        step(pre, op, post),
    ensures
        started(pre, op) is Some ==> post.in_flight() == started(pre, op),
        started(pre, op) is None && post.in_flight() is Some ==> post.in_flight()
            == pre.in_flight(),
        started(pre, op) matches Some(call) ==> call_of(op) == Some(call),
        op matches Op::Write { buf, .. } ==> buf.len() <= usize::MAX,
        call_of(op) is Some && ended_well(op) ==> pre.in_flight() == call_of(op)
            && post.in_flight() is None && started(pre, op) is None,
        op matches Op::Write { buf, action: Action::Ready(Ok(n)), .. } ==> n == buf.len(),
        op matches Op::Drive { action: Action::Ready(Ok(Some(finished))), .. } ==> pre.pending_op
            == Some(finished),
        brings_a_result(op) ==> pre.in_flight() is Some && post.in_flight() == started(pre, op),
{
    reveal(step);
}

/// What is in flight on the write side was started by an operation of the run, and has been in
/// flight ever since.
pub proof fn law_in_flight_was_started<S, R, W>(
    states: Seq<StreamState<S, R, W>>,
    ops: Seq<Op<S, R, W>>,
)
    requires
        run(states, ops),
        states[0].inv(),
        states[0].in_flight() is None,
        states.last().in_flight() is Some,
    ensures
        exists|j: int|
            {
                &&& 0 <= j < ops.len()
                &&& started(states[j], #[trigger] ops[j]) == states.last().in_flight()
                &&& forall|i: int|
                    j < i < states.len() ==> (#[trigger] states[i]).in_flight()
                        == states.last().in_flight()
            },
    decreases ops.len(),
{
    let last = ops.len() - 1;
    let op = ops[last];
    law_run_keeps_invariant(states, ops);
    assert(states[last].inv());
    lemma_pending_step(states[last], op, states[last + 1]);
    if started(states[last], op) is Some {
        assert(started(states[last], op) == states.last().in_flight());
    } else {
        assert(states[last].in_flight() == states.last().in_flight());
        let front = states.drop_last();
        law_in_flight_was_started(front, ops.drop_last());
        let j = choose|j: int|
            {
                &&& 0 <= j < ops.drop_last().len()
                &&& started(front[j], #[trigger] ops.drop_last()[j]) == front.last().in_flight()
                &&& forall|i: int|
                    j < i < front.len() ==> (#[trigger] front[i]).in_flight()
                        == front.last().in_flight()
            };
        assert(started(states[j], ops[j]) == states.last().in_flight());
        assert forall|i: int| j < i < states.len() implies (#[trigger] states[i]).in_flight()
            == states.last().in_flight() by {
            if i <= last {
                assert(front[i] == states[i]);
            }
        }
    }
}

/// No call reports another's completion as its own. A write that ends well reports the length of
/// its buffer, after a write of the same bytes was started; a flush that ends well ends a flush
/// that was started; a shutdown that ends well ends a close that was started; what a drive
/// reports as finished was started. Each has been in flight ever since it was started.
pub proof fn law_success_is_earned<S, R, W>(
    states: Seq<StreamState<S, R, W>>,
    ops: Seq<Op<S, R, W>>,
    k: int,
)
    requires
        run(states, ops),
        states[0].inv(),
        states[0].in_flight() is None,
        0 <= k < ops.len(),
    ensures
        ops[k] matches Op::Write { buf, action: Action::Ready(Ok(n)), .. } ==> n == buf.len(),
        call_of(ops[k]) is Some && ended_well(ops[k]) ==> exists|j: int|
            {
                &&& 0 <= j < k
                &&& call_of(#[trigger] ops[j]) == call_of(ops[k])
                &&& started(states[j], ops[j]) == call_of(ops[k])
                &&& forall|i: int|
                    j < i <= k ==> (#[trigger] states[i]).in_flight() == call_of(ops[k])
            },
        ops[k] matches Op::Drive { action: Action::Ready(Ok(Some(finished))), .. } ==> exists|
            j: int,
        |
            {
                &&& 0 <= j < k
                &&& started(states[j], #[trigger] ops[j]) matches Some(call)
                &&& model::operation(call) == finished
                &&& forall|i: int|
                    j < i <= k ==> (#[trigger] states[i]).in_flight() == Some(call)
            },
{
    let front = states.take(k + 1);
    let earlier = ops.take(k);
    law_run_keeps_invariant(states, ops);
    assert(states[k].inv());
    lemma_pending_step(states[k], ops[k], states[k + 1]);
    assert forall|i: int| 0 <= i < earlier.len() implies step(
        front[i],
        #[trigger] earlier[i],
        front[i + 1],
    ) by {
        assert(step(states[i], ops[i], states[i + 1]));
    }
    let driven = match ops[k] {
        Op::Drive { action: Action::Ready(Ok(Some(_))), .. } => true,
        _ => false,
    };
    if driven || (call_of(ops[k]) is Some && ended_well(ops[k])) {
        assert(front.last() == states[k]);
        law_in_flight_was_started(front, earlier);
        let j = choose|j: int|
            {
                &&& 0 <= j < earlier.len()
                &&& started(front[j], #[trigger] earlier[j]) == front.last().in_flight()
                &&& forall|i: int|
                    j < i < front.len() ==> (#[trigger] front[i]).in_flight()
                        == front.last().in_flight()
            };
        assert(earlier[j] == ops[j]);
        assert(states[j].inv());
        lemma_pending_step(states[j], ops[j], states[j + 1]);
        assert forall|i: int| j < i <= k implies (#[trigger] states[i]).in_flight()
            == states[k].in_flight() by {
            assert(front[i] == states[i]);
        }
    }
}

/// Whether `op` tells that an operation in flight has finished.
pub open spec fn brings_a_result<S, R, W>(op: Op<S, R, W>) -> bool {
    match op {
        Op::Write { event, .. } => event is Done,
        Op::Flush { event, .. } => event is Done,
        Op::Shutdown { event, .. } => event is Done,
        Op::Drive { event, .. } => event is Done,
        _ => false,
    }
}

/// A write, a flush or a shutdown comes to its end. When what is in flight finishes, the call
/// ends; the one exception is another's operation that finished well, and then the call's own
/// operation is started, so that the next result is the last.
pub proof fn law_a_call_ends<S, R, W>(
    pre: StreamState<S, R, W>,
    op: Op<S, R, W>,
    post: StreamState<S, R, W>,
)
    requires
        pre.inv(),
        step(pre, op, post),
        brings_a_result(op),
    ensures
        pre.in_flight() == call_of(op) ==> ended(op),
        !ended(op) ==> started(pre, op) is Some && post.in_flight() == call_of(op),
        ended(op) ==> post.write_state is Idle && post.in_flight() is None,
{
    reveal(step);
}

/// A result of the write side is reported once. It comes from what was in flight; afterwards
/// nothing is in flight but an operation that was just started.
pub proof fn law_a_result_leaves_nothing_behind<S, R, W>(
    pre: StreamState<S, R, W>,
    op: Op<S, R, W>,
    post: StreamState<S, R, W>,
)
    requires
        pre.inv(),
        step(pre, op, post),
        brings_a_result(op),
    ensures
        pre.in_flight() is Some,
        post.in_flight() == started(pre, op),
        post.write_state is Writing <==> started(pre, op) is Some,
{
    reveal(step);
}

/// No completion and no failure is reported twice: between any two results of the write side,
/// an operation was started.
pub proof fn law_one_result_per_operation<S, R, W>(
    states: Seq<StreamState<S, R, W>>,
    ops: Seq<Op<S, R, W>>,
    first: int,
    second: int,
)
    requires
        run(states, ops),
        states[0].inv(),
        0 <= first < second < ops.len(),
        brings_a_result(ops[first]),
        brings_a_result(ops[second]),
    ensures
        exists|j: int|
            first <= j < second && started(states[j], #[trigger] ops[j]) == states[second].in_flight()
                && states[second].in_flight() is Some,
{
    law_run_keeps_invariant(states, ops);
    assert(states[first].inv() && states[first + 1].inv() && states[second].inv());
    assert(step(states[first], ops[first], states[first + 1]));
    assert(step(states[second], ops[second], states[second + 1]));
    lemma_pending_step(states[first], ops[first], states[first + 1]);
    lemma_pending_step(states[second], ops[second], states[second + 1]);
    lemma_last_start(states, ops, first, second);
}

/// What is in flight at `second` was started at or after a result at `first`.
proof fn lemma_last_start<S, R, W>(
    states: Seq<StreamState<S, R, W>>,
    ops: Seq<Op<S, R, W>>,
    first: int,
    second: int,
)
    requires
        run(states, ops),
        states[0].inv(),
        0 <= first < second < states.len(),
        brings_a_result(ops[first]),
        states[second].in_flight() is Some,
    ensures
        exists|j: int|
            first <= j < second && started(states[j], #[trigger] ops[j]) == states[second].in_flight(),
    decreases second - first,
{
    let before = second - 1;
    lemma_run_keeps_invariant_until(states, ops, before);
    assert(step(states[before], ops[before], states[before + 1]));
    lemma_pending_step(states[before], ops[before], states[second]);
    if started(states[before], ops[before]) is Some {
        assert(started(states[before], ops[before]) == states[second].in_flight());
    } else {
        assert(before > first);
        lemma_last_start(states, ops, first, before);
        let j = choose|j: int|
            first <= j < before && started(states[j], #[trigger] ops[j])
                == states[before].in_flight();
        assert(started(states[j], ops[j]) == states[second].in_flight());
    }
}

/// Driving the write side waits exactly as long as something is in flight, and until then
/// changes nothing. Once it is ready, well or not, driving it again straight after reports that
/// there is nothing, and changes nothing.
pub proof fn law_a_drive_is_ready_once<S, R, W>(
    pre: StreamState<S, R, W>,
    event: Event<FutureResult<S, ()>>,
    post: StreamState<S, R, W>,
    action: Action<Option<PendingOp>>,
    after: StreamState<S, R, W>,
    again: Action<Option<PendingOp>>,
)
    requires
        pre.inv(),
        !(event is Called) ==> pre.write_state is Writing,
        model::drive_step(pre, event, post, action),
        model::drive_step(post, Event::Called, after, again),
    ensures
        action is Poll || action is Pending <==> post.write_state is Writing,
        post.write_state is Writing ==> post == pre && post.websocket is None,
        action is Ready ==> again == Action::<Option<PendingOp>>::Ready(Ok(None)) && after == post,
{
}

/// A frame read that finished is taken in once: afterwards a read is in flight only if a new one
/// was started, and then it is to be polled.
pub proof fn law_a_frame_is_taken_in_once<S, R, W>(
    pre: StreamState<S, R, W>,
    outcome: FutureResult<S, PayloadFrame>,
    room: nat,
    made: spec_fn(WebSocket<S>, R) -> bool,
    post: StreamState<S, R, W>,
    delivered: Seq<u8>,
    action: Action<()>,
)
    requires
        pre.inv(),
        pre.read_state is Reading,
        model::read_step(pre, Event::Done(outcome), room, made, post, delivered, action),
    ensures
        match post.read_state {
            ReadState::Idle => action is Ready,
            ReadState::Reading(future) => {
                &&& action is Poll
                &&& outcome matches Ok((websocket, _)) && made(websocket, future)
            },
        },
{
}

/// Whether `op` asks for a poll of a frame read.
pub open spec fn asks_to_poll_read<S, R, W>(op: Op<S, R, W>) -> bool {
    match op {
        Op::Read { action, .. } => action is Poll,
        _ => false,
    }
}

/// Whether `op` asks for a poll of a write, a flush or a close.
pub open spec fn asks_to_poll_write<S, R, W>(op: Op<S, R, W>) -> bool {
    match op {
        Op::Write { action, .. } => action is Poll,
        Op::Flush { action, .. } => action is Poll,
        Op::Shutdown { action, .. } => action is Poll,
        Op::Drive { action, .. } => action is Poll,
        _ => false,
    }
}

/// Where an operation asks for a poll, there is a future in flight to be polled.
pub proof fn law_what_is_to_be_polled_is_there<S, R, W>(
    pre: StreamState<S, R, W>,
    op: Op<S, R, W>,
    post: StreamState<S, R, W>,
)
    requires
        pre.inv(),
        step(pre, op, post),
    ensures
        asks_to_poll_read(op) ==> post.read_state is Reading,
        asks_to_poll_write(op) ==> post.write_state is Writing,
{
    reveal(step);
}

/// The opcode and the payload of each frame that a call has to send: one data frame with the
/// whole buffer for a write, none for a flush, one empty Close frame for a shutdown.
pub open spec fn frames_of(call: Call, payload_type: PayloadType) -> Seq<(OpCode, Seq<u8>)> {
    match call {
        Call::Write(buf) => seq![(frame::data_opcode(payload_type), buf)],
        Call::Flush => Seq::empty(),
        Call::Shutdown => seq![(OpCode::Close, Seq::empty())],
    }
}

/// Whether `op` may happen in the course of a call: a step of it, a poll of a future in flight,
/// or a read.
pub open spec fn part_of<S, R, W>(op: Op<S, R, W>, call: Call) -> bool {
    match op {
        Op::Read { .. } | Op::PollRead(_) | Op::PollWrite(_) => true,
        _ => call_of(op) == Some(call),
    }
}

/// Whether a call of the write side has come to its end in `op`.
pub open spec fn ended<S, R, W>(op: Op<S, R, W>) -> bool {
    match op {
        Op::Write { action, .. } => action is Ready,
        Op::Flush { action, .. } => action is Ready,
        Op::Shutdown { action, .. } => action is Ready,
        Op::Drive { action, .. } => action is Ready,
        _ => false,
    }
}

/// Whether a call of the write side has come to a good end in `op`.
pub open spec fn ended_well<S, R, W>(op: Op<S, R, W>) -> bool {
    ended(op) && failure(op) is None
}

/// What a part of a call that does not end it makes of what is in flight.
proof fn lemma_part_step<S, R, W>(
    pre: StreamState<S, R, W>,
    op: Op<S, R, W>,
    post: StreamState<S, R, W>,
    call: Call,
)
    requires
        pre.inv(),
        step(pre, op, post),
        part_of(op, call),
        !ended(op),
    ensures
        pre.in_flight() == Some(call) ==> started(pre, op) is None && post.in_flight() == Some(
            call,
        ),
        pre.in_flight() != Some(call) ==> started(pre, op) == if post.in_flight() == Some(call) {
            Some(call)
        } else {
            None
        },
{
    reveal(step);
}

/// What a call that has not ended yet has sent: all its frames if its operation is in flight,
/// and else nothing.
proof fn lemma_call_sends_once<S, R, W>(
    states: Seq<StreamState<S, R, W>>,
    ops: Seq<Op<S, R, W>>,
    call: Call,
)
    requires
        run(states, ops),
        states[0].inv(),
        states[0].in_flight() != Some(call),
        forall|i: int| 0 <= i < ops.len() ==> part_of(#[trigger] ops[i], call) && !ended(ops[i]),
    ensures
        sent(states, ops) == if states.last().in_flight() == Some(call) {
            frames_of(call, states[0].payload_type)
        } else {
            Seq::empty()
        },
    decreases ops.len(),
{
    if ops.len() > 0 {
        let last = ops.len() - 1;
        let front = states.drop_last();
        let earlier = ops.drop_last();
        law_run_keeps_invariant(states, ops);
        assert(states[last].inv());
        assert(part_of(ops[last], call));
        lemma_part_step(states[last], ops[last], states[last + 1], call);
        assert forall|i: int| 0 <= i < earlier.len() implies part_of(#[trigger] earlier[i], call)
            && !ended(earlier[i]) by {
            assert(earlier[i] == ops[i]);
        }
        lemma_call_sends_once(front, earlier, call);
        assert(front.last() == states[last]);
        assert(states.last() == states[last + 1]);
        if started(states[last], ops[last]) is None {
            assert(sent(states, ops) == sent(front, earlier));
        } else {
            assert(sent(front, earlier) == Seq::<(OpCode, Seq<u8>)>::empty());
            assert(sent(states, ops) == frames_of(call, states[0].payload_type));
        }
    }
}

/// Whether `ops` are one call of the write side, from its first step to its good end.
pub open spec fn whole_call<S, R, W>(ops: Seq<Op<S, R, W>>, call: Call) -> bool {
    &&& ops.len() > 0
    &&& forall|i: int| 0 <= i < ops.len() ==> part_of(#[trigger] ops[i], call)
    &&& forall|i: int| 0 <= i < ops.len() - 1 ==> !ended(#[trigger] ops[i])
    &&& ended_well(ops.last())
}

/// A call of `write` sends exactly one frame, the data frame of its buffer, and reports the
/// length of the buffer. A call of `flush` sends nothing. A call of `shutdown` sends exactly one
/// Close frame.
///
/// At the start, anything but the very same call may be in flight, such as a flush, or a write
/// of other bytes. The same call in flight cannot be told from an earlier step of this one.
pub proof fn law_a_call_sends_its_frame_once<S, R, W>(
    states: Seq<StreamState<S, R, W>>,
    ops: Seq<Op<S, R, W>>,
    call: Call,
)
    requires
        run(states, ops),
        states[0].inv(),
        states[0].in_flight() != Some(call),
        whole_call(ops, call),
    ensures
        sent(states, ops) == frames_of(call, states[0].payload_type),
        ops.last() matches Op::Write { buf, action, .. } ==> action == Action::<usize>::Ready(
            Ok(buf.len() as usize),
        ) && buf.len() <= usize::MAX,
        states.last().in_flight() is None,
{
    let last = ops.len() - 1;
    let front = states.drop_last();
    let earlier = ops.drop_last();
    law_run_keeps_invariant(states, ops);
    assert(states[last].inv());
    assert(part_of(ops[last], call));
    assert(step(states[last], ops[last], states[last + 1]));
    lemma_pending_step(states[last], ops[last], states[last + 1]);
    assert forall|i: int| 0 <= i < earlier.len() implies part_of(#[trigger] earlier[i], call)
        && !ended(earlier[i]) by {
        assert(earlier[i] == ops[i]);
    }
    lemma_call_sends_once(front, earlier, call);
    assert(front.last() == states[last]);
    assert(sent(states, ops) == sent(front, earlier));
}

/// The frames that calls have to send, one call after the other.
pub open spec fn frames_of_all(calls: Seq<Call>, payload_type: PayloadType) -> Seq<
    (OpCode, Seq<u8>),
>
    decreases calls.len(),
{
    if calls.len() == 0 {
        Seq::empty()
    } else {
        frames_of_all(calls.drop_last(), payload_type) + frames_of(calls.last(), payload_type)
    }
}

/// Whether the part of `ops` from `from` to `to` is the whole of this call.
pub open spec fn call_between<S, R, W>(
    ops: Seq<Op<S, R, W>>,
    call: Call,
    from: int,
    to: int,
) -> bool {
    &&& 0 <= from <= to <= ops.len()
    &&& whole_call(ops.subrange(from, to), call)
}

/// Whether `ops` are these calls, made in turn: call number `i` reaches from `bounds[i]` to
/// `bounds[i + 1]`.
pub open spec fn calls_in_turn<S, R, W>(
    ops: Seq<Op<S, R, W>>,
    calls: Seq<Call>,
    bounds: Seq<int>,
) -> bool {
    &&& bounds.len() == calls.len() + 1
    &&& bounds[0] == 0
    &&& bounds.last() == ops.len()
    &&& forall|i: int|
        0 <= i < calls.len() ==> call_between(ops, #[trigger] calls[i], bounds[i], bounds[i + 1])
}

/// A part of a run is a run.
proof fn lemma_run_part<S, R, W>(
    states: Seq<StreamState<S, R, W>>,
    ops: Seq<Op<S, R, W>>,
    from: int,
    to: int,
)
    requires
        run(states, ops),
        0 <= from <= to <= ops.len(),
    ensures
        run(states.subrange(from, to + 1), ops.subrange(from, to)),
{
    let part = states.subrange(from, to + 1);
    let between = ops.subrange(from, to);
    assert forall|i: int| 0 <= i < between.len() implies step(
        part[i],
        #[trigger] between[i],
        part[i + 1],
    ) by {
        assert(between[i] == ops[from + i]);
        assert(step(states[from + i], ops[from + i], states[from + i + 1]));
    }
}

/// The frames that a run sends are those of its beginning and then those of its rest.
proof fn lemma_sent_concat<S, R, W>(
    states: Seq<StreamState<S, R, W>>,
    ops: Seq<Op<S, R, W>>,
    at: int,
)
    requires
        states.len() == ops.len() + 1,
        0 <= at <= ops.len(),
    ensures
        sent(states, ops) == sent(states.subrange(0, at + 1), ops.subrange(0, at)) + sent(
            states.subrange(at, states.len() as int),
            ops.subrange(at, ops.len() as int),
        ),
    decreases ops.len() - at,
{
    let rest_states = states.subrange(at, states.len() as int);
    let rest = ops.subrange(at, ops.len() as int);
    if at == ops.len() {
        assert(states.subrange(0, at + 1) == states);
        assert(ops.subrange(0, at) == ops);
    } else {
        lemma_sent_concat(states.drop_last(), ops.drop_last(), at);
        assert(states.drop_last().subrange(0, at + 1) == states.subrange(0, at + 1));
        assert(ops.drop_last().subrange(0, at) == ops.subrange(0, at));
        assert(rest_states.drop_last() == states.drop_last().subrange(at, states.len() - 1));
        assert(rest.drop_last() == ops.drop_last().subrange(at, ops.len() - 1));
        assert(rest.last() == ops.last());
        assert(rest_states[rest.len() - 1] == states[ops.len() - 1]);
    }
}

/// Calls made in turn send their frames in turn: one data frame for each write, with exactly its
/// bytes, and one Close frame for each shutdown, in the order of the calls and nothing else.
pub proof fn law_calls_in_turn_send_their_frames_in_order<S, R, W>(
    states: Seq<StreamState<S, R, W>>,
    ops: Seq<Op<S, R, W>>,
    calls: Seq<Call>,
    bounds: Seq<int>,
)
    requires
        run(states, ops),
        states[0].inv(),
        calls_in_turn(ops, calls, bounds),
        calls.len() > 0 ==> states[0].in_flight() != Some(calls[0]),
    ensures
        sent(states, ops) == frames_of_all(calls, states[0].payload_type),
        calls.len() > 0 ==> states.last().in_flight() is None,
    decreases calls.len(),
{
    if calls.len() > 0 {
        let last = calls.len() - 1;
        let at = bounds[last];
        let len = ops.len() as int;
        assert(call_between(ops, calls[last], bounds[last], bounds[last + 1]));
        let front_states = states.subrange(0, at + 1);
        let front = ops.subrange(0, at);
        let rest_states = states.subrange(at, len + 1);
        let rest = ops.subrange(at, len);
        lemma_run_part(states, ops, 0, at);
        lemma_run_part(states, ops, at, len);
        let front_calls = calls.drop_last();
        let front_bounds = bounds.drop_last();
        assert forall|i: int| 0 <= i < front_calls.len() implies call_between(
            front,
            #[trigger] front_calls[i],
            front_bounds[i],
            front_bounds[i + 1],
        ) by {
            lemma_bounds_ascend(ops, calls, bounds, i + 1, last);
            assert(call_between(ops, calls[i], bounds[i], bounds[i + 1]));
            assert(front.subrange(bounds[i], bounds[i + 1]) == ops.subrange(
                bounds[i],
                bounds[i + 1],
            ));
        }
        assert(front_bounds.last() == at);
        law_calls_in_turn_send_their_frames_in_order(
            front_states,
            front,
            front_calls,
            front_bounds,
        );
        lemma_run_keeps_invariant_until(states, ops, at);
        assert(rest_states[0] == states[at]);
        assert(front_states.last() == states[at]);
        law_a_call_sends_its_frame_once(rest_states, rest, calls[last]);
        lemma_sent_concat(states, ops, at);
        assert(rest_states.last() == states.last());
    }
}

/// The calls lie one after the other.
proof fn lemma_bounds_ascend<S, R, W>(
    ops: Seq<Op<S, R, W>>,
    calls: Seq<Call>,
    bounds: Seq<int>,
    i: int,
    j: int,
)
    requires
        calls_in_turn(ops, calls, bounds),
        0 <= i <= j < bounds.len(),
    ensures
        bounds[i] <= bounds[j],
    decreases j - i,
{
    if i < j {
        lemma_bounds_ascend(ops, calls, bounds, i, j - 1);
        assert(call_between(ops, calls[j - 1], bounds[j - 1], bounds[j - 1 + 1]));
    }
}

/// The opcode and the payload of each frame that `ops` gave the websocket to send, in order.
pub open spec fn sent<S, R, W>(
    states: Seq<StreamState<S, R, W>>,
    ops: Seq<Op<S, R, W>>,
) -> Seq<(OpCode, Seq<u8>)>
    decreases ops.len(),
{
    if ops.len() == 0 {
        Seq::empty()
    } else {
        let pre = states[ops.len() - 1];
        let content = match (ops.last(), started(pre, ops.last())) {
            (Op::Write { buf, .. }, Some(_)) => Some(frame::data_content(pre.payload_type, buf)),
            (Op::Shutdown { .. }, Some(_)) => Some(frame::close_content()),
            _ => None,
        };
        sent(states.drop_last(), ops.drop_last()) + match content {
            Some(content) => seq![(content.opcode, content.payload)],
            None => Seq::empty(),
        }
    }
}

/// The buffers of the writes that `ops` started, one after the other.
pub open spec fn written<S, R, W>(
    states: Seq<StreamState<S, R, W>>,
    ops: Seq<Op<S, R, W>>,
) -> Seq<u8>
    decreases ops.len(),
{
    if ops.len() == 0 {
        Seq::empty()
    } else {
        written(states.drop_last(), ops.drop_last()) + match (
            ops.last(),
            started(states[ops.len() - 1], ops.last()),
        ) {
            (Op::Write { buf, .. }, Some(_)) => buf,
            _ => Seq::empty(),
        }
    }
}

/// The frames that a run sends carry exactly the bytes that it wrote, in order.
pub proof fn law_frames_carry_what_was_written<S, R, W>(
    states: Seq<StreamState<S, R, W>>,
    ops: Seq<Op<S, R, W>>,
)
    requires
        run(states, ops),
        states[0].inv(),
    ensures
        carried(states[0].payload_type, sent(states, ops)) == written(states, ops),
    decreases ops.len(),
{
    if ops.len() > 0 {
        let last = ops.len() - 1;
        let front = states.drop_last();
        let earlier = ops.drop_last();
        law_run_keeps_invariant(states, ops);
        assert(states[last].inv());
        law_frames_carry_what_was_written(front, earlier);
        let pre = states[last];
        match (ops.last(), started(pre, ops.last())) {
            (Op::Write { buf, .. }, Some(_)) => {
                let one = (frame::data_opcode(pre.payload_type), buf);
                assert(sent(states, ops) == sent(front, earlier).push(one));
                assert(sent(states, ops).drop_last() == sent(front, earlier));
            },
            (Op::Shutdown { .. }, Some(_)) => {
                let one = (OpCode::Close, Seq::<u8>::empty());
                assert(sent(states, ops) == sent(front, earlier).push(one));
                assert(sent(states, ops).drop_last() == sent(front, earlier));
                assert(written(states, ops) == written(front, earlier));
            },
            _ => {
                assert(sent(states, ops) == sent(front, earlier));
                assert(written(states, ops) == written(front, earlier));
            },
        }
    }
}

/// What one stream writes, another reads.
///
/// Take two streams of the same payload type, over connections of any kind. As far as the bytes
/// that the writer's frames carry arrive at the reader in order, what the reader has delivered
/// and buffered is a beginning of what the writer wrote; once all have arrived, it is all of
/// it. Frames that carry no bytes, such as a Pong or the reply to a Close, may arrive in
/// between, and it does not matter how the bytes are cut into frames.
pub proof fn law_written_bytes_are_read<S1, R1, W1, S2, R2, W2>(
    writer_states: Seq<StreamState<S1, R1, W1>>,
    writer_ops: Seq<Op<S1, R1, W1>>,
    reader_states: Seq<StreamState<S2, R2, W2>>,
    reader_ops: Seq<Op<S2, R2, W2>>,
)
    requires
        run(writer_states, writer_ops),
        writer_states[0].inv(),
        run(reader_states, reader_ops),
        reader_states[0].inv(),
        reader_states[0].read_buf.len() == 0,
        reader_states[0].payload_type == writer_states[0].payload_type,
        carried(reader_states[0].payload_type, arrived(reader_ops)).is_prefix_of(
            carried(writer_states[0].payload_type, sent(writer_states, writer_ops)),
        ),
    ensures
        (delivered(reader_ops) + reader_states.last().read_buf).is_prefix_of(
            written(writer_states, writer_ops),
        ),
        carried(reader_states[0].payload_type, arrived(reader_ops)) == carried(
            writer_states[0].payload_type,
            sent(writer_states, writer_ops),
        ) ==> delivered(reader_ops) + reader_states.last().read_buf == written(
            writer_states,
            writer_ops,
        ),
{
    let bytes = carried(reader_states[0].payload_type, arrived(reader_ops));
    law_bytes_arrive_in_order(reader_states, reader_ops);
    law_frames_carry_what_was_written(writer_states, writer_ops);
    assert(reader_states[0].read_buf + bytes == bytes);
}

/// The frames among `frames` that may carry bytes on a stream of the given type: its data
/// frames and continuations.
pub open spec fn data_frames(
    payload_type: PayloadType,
    frames: Seq<(OpCode, Seq<u8>)>,
) -> Seq<(OpCode, Seq<u8>)>
    decreases frames.len(),
{
    if frames.len() == 0 {
        Seq::empty()
    } else {
        let front = data_frames(payload_type, frames.drop_last());
        let (opcode, _) = frames.last();
        if opcode == frame::data_opcode(payload_type) || opcode is Continuation {
            front.push(frames.last())
        } else {
            front
        }
    }
}

/// Leaving out all other frames, wherever they stand, leaves the bytes that frames carry as they
/// are. So frames that arrive as they were sent, but for control frames in between, carry what
/// was sent.
pub proof fn law_other_frames_carry_nothing(
    payload_type: PayloadType,
    frames: Seq<(OpCode, Seq<u8>)>,
)
    ensures
        carried(payload_type, frames) == carried(payload_type, data_frames(payload_type, frames)),
    decreases frames.len(),
{
    if frames.len() > 0 {
        let front = data_frames(payload_type, frames.drop_last());
        law_other_frames_carry_nothing(payload_type, frames.drop_last());
        assert(front.push(frames.last()).drop_last() == front);
    }
}

/// A read gives back what a write sent: the data frame of `bytes`, received by a stream of the
/// same type, is delivered as far as there is room, and the rest is kept for the next reads.
pub proof fn law_read_gives_back_a_write<S, R, W>(
    bytes: Seq<u8>,
    received: PayloadFrame,
    pre: StreamState<S, R, W>,
    websocket: WebSocket<S>,
    room: nat,
    made: spec_fn(WebSocket<S>, R) -> bool,
    post: StreamState<S, R, W>,
    delivered: Seq<u8>,
    action: Action<()>,
)
    requires
        bytes.len() > 0,
        received.opcode == frame::data_content(pre.payload_type, bytes).opcode,
        received.bytes() == frame::data_content(pre.payload_type, bytes).payload,
        pre.inv(),
        pre.read_state is Reading,
        model::read_step(
            pre,
            Event::Done(Ok((websocket, received))),
            room,
            made,
            post,
            delivered,
            action,
        ),
    ensures
        action == Action::<()>::Ready(Ok(())),
        delivered + post.read_buf == bytes,
        delivered.len() == if bytes.len() <= room { bytes.len() } else { room },
        post.websocket == Some(websocket),
{
    assert(pre.read_buf + bytes == bytes);
}

/// A read of the Close frame that a shutdown sent is the end of the stream.
pub proof fn law_read_of_a_shutdown_is_the_end<S, R, W>(
    received: PayloadFrame,
    pre: StreamState<S, R, W>,
    websocket: WebSocket<S>,
    room: nat,
    made: spec_fn(WebSocket<S>, R) -> bool,
    post: StreamState<S, R, W>,
    delivered: Seq<u8>,
    action: Action<()>,
)
    requires
        received.opcode == frame::close_content().opcode,
        received.bytes() == frame::close_content().payload,
        pre.inv(),
        pre.read_state is Reading,
        model::read_step(
            pre,
            Event::Done(Ok((websocket, received))),
            room,
            made,
            post,
            delivered,
            action,
        ),
    ensures
        action == Action::<()>::Ready(Ok(())),
        delivered == Seq::<u8>::empty(),
        post.closed,
        post.websocket == Some(websocket),
{
}

} // verus!
