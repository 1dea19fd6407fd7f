//! A byte stream over a `fastwebsockets::WebSocket`.
//!
//! [`WebSocketStream`] presents the payloads of websocket data frames as a continuous byte
//! stream, and sends what is written as data frames of one [`PayloadType`]. It holds the state
//! and takes every decision; reading and writing frames on the wire is left to its driver, which
//! makes the futures, polls them, and reports back.
//!
//! * [`stream`]: the stream itself.
//! * [`frame`]: the frames that it sends and receives.
//! * [`error`]: what it reports when an operation fails.
//! * [`buffers`]: the byte containers that data moves through.
//! * [`model`]: what each operation does, as a relation between states.
//! * [`calls`]: what each call gives, of its inputs and results.
//! * [`laws`]: what holds over any sequence of operations.

pub mod buffers;
pub mod calls;
pub mod error;
pub mod frame;
pub mod laws;
pub mod model;
pub mod stream;

pub use error::StreamError;
pub use frame::{OpCode, PayloadFrame, PayloadType};
pub use stream::{
    Action, Event, FutureResult, PendingOp, ReadState, Summary, WebSocketStream, WriteState,
};
