//! The error taxonomy of a chat connection: what `connect` can fail with,
//! and the single terminal error an established event sequence can end
//! with. Causes from the transport and the JSON layer are preserved as
//! opaque payloads for diagnostic chaining.
use vstd::prelude::*;

verus! {

use crate::codec::{decode_error_text, DecodeError};
use vstd::string::StringExecFns;

/// The websocket transport's error type, declared opaquely so a
/// transport failure can be carried in the library's error types as its
/// own diagnostic cause.
#[verifier::external_type_specification]
#[verifier::external_body]
pub struct ExWsError(async_tungstenite::tungstenite::Error);

/// The close frame a peer ends the connection with.
#[derive(Debug, PartialEq)]
pub struct CloseReason {
    /// The close code of the frame.
    pub code: u16,
    /// The reason text of the frame, possibly empty.
    pub reason: String,
}

/// View of [`CloseReason`].
#[verifier::ext_equal]
pub struct CloseReasonV {
    pub code: u16,
    pub reason: Seq<char>,
}

impl View for CloseReason {
    type V = CloseReasonV;

    open spec fn view(&self) -> CloseReasonV {
        CloseReasonV { code: self.code, reason: self.reason@ }
    }
}

impl DeepView for CloseReason {
    type V = CloseReasonV;

    open spec fn deep_view(&self) -> CloseReasonV {
        self@
    }
}

/// Why `connect` failed before a handle could be returned.
#[derive(Debug)]
pub enum ChatConnectError {
    /// The transport-level connection failed.
    WebSocket(async_tungstenite::tungstenite::Error),
    /// Building the handshake frame failed.
    Serde(serde_json::Error),
    /// The connection closed before the handshake was acknowledged.
    SocketClosed,
}

impl From<async_tungstenite::tungstenite::Error> for ChatConnectError {
    fn from(error: async_tungstenite::tungstenite::Error) -> (r: Self) {
        ChatConnectError::WebSocket(error)
    }
}

impl vstd::std_specs::convert::FromSpecImpl<async_tungstenite::tungstenite::Error> for ChatConnectError {
    open spec fn obeys_from_spec() -> bool {
        true
    }

    open spec fn from_spec(error: async_tungstenite::tungstenite::Error) -> Self {
        ChatConnectError::WebSocket(error)
    }
}

impl From<serde_json::Error> for ChatConnectError {
    fn from(error: serde_json::Error) -> (r: Self) {
        ChatConnectError::Serde(error)
    }
}

impl vstd::std_specs::convert::FromSpecImpl<serde_json::Error> for ChatConnectError {
    open spec fn obeys_from_spec() -> bool {
        true
    }

    open spec fn from_spec(error: serde_json::Error) -> Self {
        ChatConnectError::Serde(error)
    }
}

/// The terminal error of an event sequence; after one of these is yielded
/// the sequence ends, and none is ever retried internally.
#[derive(Debug)]
pub enum ChatMessageStreamError {
    /// The transport failed while the connection was up.
    WebSocket(async_tungstenite::tungstenite::Error),
    /// A frame was not JSON text at all.
    Serde(serde_json::Error),
    /// A frame was JSON but not a well-formed protocol message.
    Decode(DecodeError),
    /// The peer closed the connection, with its close frame when one was
    /// sent.
    SocketClosed(Option<CloseReason>),
    /// The peer left too many heartbeats unacknowledged.
    PingTimeout,
}

/// View of [`ChatMessageStreamError`]; the opaque transport and JSON
/// causes carry no structure at this level.
#[verifier::ext_equal]
pub enum StreamErrV {
    WebSocket,
    Serde,
    Decode(DecodeError),
    SocketClosed(Option<CloseReasonV>),
    PingTimeout,
}

impl View for ChatMessageStreamError {
    type V = StreamErrV;

    open spec fn view(&self) -> StreamErrV {
        match self {
            ChatMessageStreamError::WebSocket(_) => StreamErrV::WebSocket,
            ChatMessageStreamError::Serde(_) => StreamErrV::Serde,
            ChatMessageStreamError::Decode(e) => StreamErrV::Decode(*e),
            ChatMessageStreamError::SocketClosed(r) => StreamErrV::SocketClosed(r.deep_view()),
            ChatMessageStreamError::PingTimeout => StreamErrV::PingTimeout,
        }
    }
}

impl From<async_tungstenite::tungstenite::Error> for ChatMessageStreamError {
    fn from(error: async_tungstenite::tungstenite::Error) -> (r: Self) {
        ChatMessageStreamError::WebSocket(error)
    }
}

impl vstd::std_specs::convert::FromSpecImpl<async_tungstenite::tungstenite::Error> for ChatMessageStreamError {
    open spec fn obeys_from_spec() -> bool {
        true
    }

    open spec fn from_spec(error: async_tungstenite::tungstenite::Error) -> Self {
        ChatMessageStreamError::WebSocket(error)
    }
}

impl From<serde_json::Error> for ChatMessageStreamError {
    fn from(error: serde_json::Error) -> (r: Self) {
        ChatMessageStreamError::Serde(error)
    }
}

impl vstd::std_specs::convert::FromSpecImpl<serde_json::Error> for ChatMessageStreamError {
    open spec fn obeys_from_spec() -> bool {
        true
    }

    open spec fn from_spec(error: serde_json::Error) -> Self {
        ChatMessageStreamError::Serde(error)
    }
}

impl ChatConnectError {
    /// A short description of the failure, for logging; the opaque causes
    /// carry their own diagnostics.
    pub fn describe(&self) -> (r: String)
        ensures
            *self matches ChatConnectError::WebSocket(_) ==> r@ == "websocket transport error"@,
            *self matches ChatConnectError::Serde(_) ==> r@ == "could not build the handshake frame"@,
            *self == ChatConnectError::SocketClosed ==> r@ == "socket closed"@,
    {
        match self {
            ChatConnectError::WebSocket(_) => "websocket transport error".to_owned(),
            ChatConnectError::Serde(_) => "could not build the handshake frame".to_owned(),
            ChatConnectError::SocketClosed => "socket closed".to_owned(),
        }
    }
}

impl ChatMessageStreamError {
    /// A short description of the terminal error, for logging; a
    /// peer-sent close reason is carried into the text.
    pub fn describe(&self) -> (r: String)
        ensures
            *self matches ChatMessageStreamError::WebSocket(_) ==> r@
                == "websocket transport error"@,
            *self matches ChatMessageStreamError::Serde(_) ==> r@ == "frame is not valid JSON"@,
            *self matches ChatMessageStreamError::Decode(e) ==> r@ == decode_error_text(e),
         *self matches ChatMessageStreamError::SocketClosed(Some(f)) ==> r@
                == "socket was closed: "@ + f.reason@,
            *self matches ChatMessageStreamError::SocketClosed(None) ==> r@
                == "socket was closed"@,
            *self == ChatMessageStreamError::PingTimeout ==> r@
                == "server stopped responding to pings"@,
    {
        match self {
            ChatMessageStreamError::WebSocket(_) => "websocket transport error".to_owned(),
            ChatMessageStreamError::Serde(_) => "frame is not valid JSON".to_owned(),
            ChatMessageStreamError::Decode(e) => e.describe().to_owned(),
            ChatMessageStreamError::SocketClosed(Some(f)) => "socket was closed: ".to_owned()
                .concat(f.reason.as_str()),
            ChatMessageStreamError::SocketClosed(None) => "socket was closed".to_owned(),
            ChatMessageStreamError::PingTimeout => "server stopped responding to pings".to_owned(),
        }
    }
}

} // verus!
