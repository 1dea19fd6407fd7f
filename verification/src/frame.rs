//! Frames: the ones the stream sends, and the ones it receives.

use crate::buffers;
use bytes::{Bytes, BytesMut};
use fastwebsockets::{Frame, Payload};
use vstd::prelude::*;

verus! {

/// The kind of a WebSocket frame.
#[derive(Debug, Clone, Copy, PartialEq, Eq, Structural)]
pub enum OpCode {
    /// A further part of a fragmented message.
    Continuation,
    /// Text data.
    Text,
    /// Binary data.
    Binary,
    /// The end of the connection.
    Close,
    /// A heartbeat request.
    Ping,
    /// A heartbeat reply.
    Pong,
}

/// Stream payload type.
///
/// Selects whether a stream sends and receives Text or Binary application data. It gives the
/// opcode of the frames written, and is held against the frames read from the peer.
#[derive(Debug, Clone, Copy, PartialEq, Eq, Structural)]
pub enum PayloadType {
    /// Binary frames.
    Binary,
    /// UTF-8 Text frames.
    Text,
}

/// The opcode of the data frames of a payload type.
pub open spec fn data_opcode(payload_type: PayloadType) -> OpCode {
    match payload_type {
        PayloadType::Binary => OpCode::Binary,
        PayloadType::Text => OpCode::Text,
    }
}

impl From<PayloadType> for OpCode {
    fn from(value: PayloadType) -> (opcode: Self) {
        match value {
            PayloadType::Binary => OpCode::Binary,
            PayloadType::Text => OpCode::Text,
        }
    }
}

impl vstd::std_specs::convert::FromSpecImpl<PayloadType> for OpCode {
    open spec fn obeys_from_spec() -> bool {
        true
    }

    open spec fn from_spec(value: PayloadType) -> Self {
        data_opcode(value)
    }
}

/// `fastwebsockets::Frame`: a frame as the websocket reads and writes it.
#[verifier::external_type_specification]
#[verifier::external_body]
pub struct ExFrame<'f>(Frame<'f>);

/// What a frame says: whether it is the last of its message, its opcode, the masking key it was
/// made with, if any, and its payload.
pub ghost struct FrameContent {
    pub fin: bool,
    pub opcode: OpCode,
    pub mask: Option<[u8; 4]>,
    pub payload: Seq<u8>,
}

/// The content of a `fastwebsockets::Frame`: its fields, the payload by its bytes.
pub uninterp spec fn frame_content(frame: Frame<'_>) -> FrameContent;

/// `Frame::new`, with an owned payload: a frame of exactly these parts.
#[verifier::external_body]
fn frame_new(fin: bool, opcode: OpCode, mask: Option<[u8; 4]>, payload: BytesMut) -> (frame: Frame<
    'static,
>)
    ensures
        frame_content(frame) == (FrameContent {
            fin,
            opcode,
            mask,
            payload: buffers::bytes_mut_content(payload),
        }),
{
    let code = match opcode {
        OpCode::Continuation => fastwebsockets::OpCode::Continuation,
        OpCode::Text => fastwebsockets::OpCode::Text,
        OpCode::Binary => fastwebsockets::OpCode::Binary,
        OpCode::Close => fastwebsockets::OpCode::Close,
        OpCode::Ping => fastwebsockets::OpCode::Ping,
        OpCode::Pong => fastwebsockets::OpCode::Pong,
    };
    Frame::new(fin, code, mask, Payload::Bytes(payload))
}

/// `Frame::close_raw`: a final Close frame with exactly this payload, and without a mask.
#[verifier::external_body]
fn frame_close_raw(payload: Vec<u8>) -> (frame: Frame<'static>)
    ensures
        frame_content(frame) == (FrameContent {
            fin: true,
            opcode: OpCode::Close,
            mask: None,
            payload: payload@,
        }),
{
    Frame::close_raw(payload.into())
}

/// The field `Frame::opcode`, variant by variant.
#[verifier::external_body]
fn frame_opcode(frame: &Frame<'_>) -> (opcode: OpCode)
    ensures
        opcode == frame_content(*frame).opcode,
{
    match frame.opcode {
        fastwebsockets::OpCode::Continuation => OpCode::Continuation,
        fastwebsockets::OpCode::Text => OpCode::Text,
        fastwebsockets::OpCode::Binary => OpCode::Binary,
        fastwebsockets::OpCode::Close => OpCode::Close,
        fastwebsockets::OpCode::Ping => OpCode::Ping,
        fastwebsockets::OpCode::Pong => OpCode::Pong,
    }
}

/// The field `Frame::payload` as owned `Bytes`: a borrowed payload is copied, an owned one is
/// moved (`Bytes::from`) or frozen (`BytesMut::freeze`). The bytes stay the same.
#[verifier::external_body]
fn frame_payload(frame: Frame<'_>) -> (payload: Bytes)
    ensures
        buffers::bytes_content(payload) == frame_content(frame).payload,
{
    match frame.payload {
        Payload::BorrowedMut(buf) => Bytes::from(buf.to_vec()),
        Payload::Borrowed(buf) => Bytes::from(buf.to_vec()),
        Payload::Owned(vec) => Bytes::from(vec),
        Payload::Bytes(bytes) => bytes.freeze(),
    }
}

/// An owned frame.
///
/// A frame that is read borrows from the websocket. To hand back the websocket together with
/// what was read, the payload is taken out as owned `Bytes` and kept with the opcode.
#[derive(Debug)]
pub struct PayloadFrame {
    /// Opcode of the frame (Text/Binary/Close/etc).
    pub opcode: OpCode,
    /// Owned payload bytes of the frame.
    pub payload: Bytes,
}

impl PayloadFrame {
    /// The payload bytes.
    pub open spec fn bytes(self) -> Seq<u8> {
        buffers::bytes_content(self.payload)
    }

    /// Takes the opcode and the payload out of a frame.
    pub fn from_frame(frame: Frame<'_>) -> (owned: PayloadFrame)
        ensures
            owned.opcode == frame_content(frame).opcode,
            owned.bytes() == frame_content(frame).payload,
    {
        let opcode = frame_opcode(&frame);
        let payload = frame_payload(frame);
        PayloadFrame { opcode, payload }
    }
}

/// The data frame that carries `payload` on a stream of the given type: a whole message. It
/// brings no mask along; masking is up to the websocket that writes it.
pub open spec fn data_content(payload_type: PayloadType, payload: Seq<u8>) -> FrameContent {
    FrameContent { fin: true, opcode: data_opcode(payload_type), mask: None, payload }
}

/// The Close frame that ends a stream: it gives no code and no reason, and brings no mask.
pub open spec fn close_content() -> FrameContent {
    FrameContent { fin: true, opcode: OpCode::Close, mask: None, payload: Seq::empty() }
}

/// Builds the one data frame that a write of `payload` sends.
pub fn data_frame(payload: BytesMut, payload_type: PayloadType) -> (frame: Frame<'static>)
    ensures
        frame_content(frame) == data_content(payload_type, buffers::bytes_mut_content(payload)),
{
    frame_new(true, OpCode::from(payload_type), None, payload)
}

/// Builds the Close frame that a shutdown sends.
pub fn close_frame() -> (frame: Frame<'static>)
    ensures
        frame_content(frame) == close_content(),
{
    frame_close_raw(Vec::new())
}

} // verus!
