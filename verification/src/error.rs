//! What a stream operation reports when it fails.

use fastwebsockets::WebSocketError;
use vstd::prelude::*;
use vstd::string::*;

verus! {

/// `fastwebsockets::WebSocketError`: why a frame could not be read, written or flushed.
#[verifier::external_type_specification]
#[verifier::external_body]
pub struct ExWebSocketError(WebSocketError);

/// Why an operation of the stream failed.
#[derive(Debug)]
pub enum StreamError {
    /// The stream does not hold the websocket: another operation in flight owns it, or it was
    /// lost with an operation that failed.
    NotAvailable,
    /// A data frame arrived whose opcode is not the one that the stream works with.
    PayloadMismatch,
    /// The websocket itself failed; the text is what its error displays.
    Websocket(String),
}

impl StreamError {
    /// The text of the error.
    pub open spec fn text(self) -> Seq<char> {
        match self {
            StreamError::NotAvailable => "Websocket not available"@,
            StreamError::PayloadMismatch =>
                "The received data type is different from the stream data type"@,
            StreamError::Websocket(cause) => "Websocket error: "@ + cause@,
        }
    }

    /// The text of the error, as a string.
    pub fn message(&self) -> (message: String)
        ensures
            message@ == self.text(),
    {
        match self {
            StreamError::NotAvailable => "Websocket not available".to_owned(),
            StreamError::PayloadMismatch =>
                "The received data type is different from the stream data type".to_owned(),
            StreamError::Websocket(cause) => "Websocket error: ".to_owned().concat(cause.as_str()),
        }
    }
}

/// Whether `error` is what the stream reports for the failure `cause` of the websocket: it
/// carries the text that `cause` displays.
pub open spec fn reports(cause: WebSocketError, error: StreamError) -> bool {
    match error {
        StreamError::Websocket(text) => to_string_from_display_ensures(&cause, text),
        _ => false,
    }
}

/// Turns a failure of the websocket into the error that the stream reports.
pub fn make_io_err(cause: WebSocketError) -> (error: StreamError)
    ensures
        reports(cause, error),
{
    StreamError::Websocket(cause.to_string())
}

} // verus!
