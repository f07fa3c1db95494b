//! The inbound actor's state machine. Each loop iteration of the actor
//! races cancellation, the heartbeat timer, the next transport frame and
//! end-of-stream; whichever event wins is handed to [`InboundState::step`],
//! which is the single place where the connection's state advances. The
//! surrounding loop only performs the returned outcome: it fulfils the
//! handshake signal, forwards heartbeat probes to the outbound actor, and
//! delivers chat events to the consumer queue in order.
use vstd::prelude::*;

verus! {

use crate::codec::{decode_binary_frame, decode_text_frame, frame_decode, DecodeError, FrameError};
use crate::errors::{ChatMessageStreamError, CloseReason, CloseReasonV, StreamErrV};
use crate::heartbeat::{pong_update, tick_times_out, Ping, TickOutcome};
use crate::json::JsonV;
use crate::messages::{ChatMessage, ChatMessageV, ChatSocketMessage, MsgV};
use crate::text::{dec_str, str_eq};

/// A transport frame as the inbound actor sees it.
#[derive(Debug, PartialEq)]
pub enum WsFrame {
    /// A text frame.
    Text(String),
    /// A binary frame; both encodings are decoded identically.
    Binary(Vec<u8>),
    /// The peer's close frame, with its reason when one was sent.
    Close(Option<CloseReason>),
}

/// View of [`WsFrame`].
#[verifier::ext_equal]
pub enum WsFrameV {
    Text(Seq<char>),
    Binary(Seq<u8>),
    Close(Option<CloseReasonV>),
}

impl View for WsFrame {
    type V = WsFrameV;

    open spec fn view(&self) -> WsFrameV {
        match self {
            WsFrame::Text(s) => WsFrameV::Text(s@),
            WsFrame::Binary(b) => WsFrameV::Binary(b@),
            WsFrame::Close(r) => WsFrameV::Close(r.deep_view()),
        }
    }
}

/// The event one iteration of the inbound actor acts on: whichever of the
/// raced conditions resolved first.
#[derive(Debug)]
pub enum ReaderEvent {
    /// Cancellation was observed.
    Cancelled,
    /// The heartbeat interval elapsed.
    PingDue,
    /// The transport yielded a frame.
    Frame(WsFrame),
    /// The transport failed.
    TransportFailed(async_tungstenite::tungstenite::Error),
    /// The transport yielded no further frames.
    StreamEnded,
}

/// View of [`ReaderEvent`]; the opaque transport error carries no
/// structure at this level.
#[verifier::ext_equal]
pub enum ReaderEventV {
    Cancelled,
    PingDue,
    Frame(WsFrameV),
    TransportFailed,
    StreamEnded,
}

impl View for ReaderEvent {
    type V = ReaderEventV;

    open spec fn view(&self) -> ReaderEventV {
        match self {
            ReaderEvent::Cancelled => ReaderEventV::Cancelled,
            ReaderEvent::PingDue => ReaderEventV::PingDue,
            ReaderEvent::Frame(f) => ReaderEventV::Frame(f@),
            ReaderEvent::TransportFailed(_) => ReaderEventV::TransportFailed,
            ReaderEvent::StreamEnded => ReaderEventV::StreamEnded,
        }
    }
}

/// What the actor's loop must do after a step.
#[derive(Debug)]
pub enum StepOutcome {
    /// Stop gracefully, surfacing nothing.
    Stop,
    /// Nothing to do; keep racing.
    Continue,
    /// Hand this heartbeat probe to the outbound actor's command queue;
    /// if that queue is gone, stop gracefully instead.
    SendPing(ChatSocketMessage),
    /// The pending handshake was acknowledged: fulfil the one-shot
    /// handshake signal with success.
    AuthOk,
    /// Deliver these chat events to the consumer queue, in this order; if
    /// the consumer is gone, stop gracefully instead.
    Deliver(Vec<ChatMessage>),
    /// The peer sent a message only this client may send; the protocol
    /// leaves its handling undefined.
    Unexpected,
}

/// View of [`StepOutcome`].
#[verifier::ext_equal]
pub enum StepOutV {
    Stop,
    Continue,
    SendPing(MsgV),
    AuthOk,
    Deliver(Seq<ChatMessageV>),
    Unexpected,
}

impl View for StepOutcome {
    type V = StepOutV;

    open spec fn view(&self) -> StepOutV {
        match self {
            StepOutcome::Stop => StepOutV::Stop,
            StepOutcome::Continue => StepOutV::Continue,
            StepOutcome::SendPing(m) => StepOutV::SendPing(m@),
            StepOutcome::AuthOk => StepOutV::AuthOk,
            StepOutcome::Deliver(cs) => StepOutV::Deliver(cs.deep_view()),
            StepOutcome::Unexpected => StepOutV::Unexpected,
        }
    }
}

/// The inbound actor's state: the handshake nonce it waits to see echoed,
/// whether the handshake signal is still pending, and the heartbeat
/// state.
#[derive(Debug)]
pub struct InboundState {
    /// The nonce the authentication request carried.
    pub auth_nonce: String,
    /// Whether the one-shot handshake signal is still unfulfilled; the
    /// first matching acknowledgement wins, later ones are ignored.
    pub auth_pending: bool,
    /// Heartbeat liveness state.
    pub ping: Ping,
}

/// View of [`InboundState`].
#[verifier::ext_equal]
pub struct InboundV {
    pub auth_nonce: Seq<char>,
    pub auth_pending: bool,
    pub ping: Ping,
}

impl View for InboundState {
    type V = InboundV;

    open spec fn view(&self) -> InboundV {
        InboundV {
            auth_nonce: self.auth_nonce@,
            auth_pending: self.auth_pending,
            ping: self.ping,
        }
    }
}

/// The view of a step's result.
pub open spec fn step_result_view(r: Result<StepOutcome, ChatMessageStreamError>) -> Result<
    StepOutV,
    StreamErrV,
> {
    match r {
        Ok(o) => Ok(o@),
        Err(e) => Err(e@),
    }
}

/// How one decoded protocol message advances the state.
///
/// A handshake acknowledgement fulfils the pending handshake exactly when
/// its nonce matches; later or duplicate acknowledgements change nothing.
/// A heartbeat acknowledgement advances the heartbeat state as
/// [`pong_update`] says. A chat batch delivers exactly its events, in
/// order, and changes no state. Messages only this client may send are
/// flagged.
pub open spec fn spec_on_message(s: InboundV, m: MsgV) -> (InboundV, StepOutV) {
    match m {
        MsgV::Response { nonce } => if s.auth_pending && nonce == s.auth_nonce {
            (InboundV { auth_pending: false, ..s }, StepOutV::AuthOk)
        } else {
            (s, StepOutV::Continue)
        },
        MsgV::Pong { nonce, data } => (
            InboundV { ping: pong_update(s.ping, nonce, data.gap), ..s },
            StepOutV::Continue,
        ),
        MsgV::Chat { channel_info, data } => (s, StepOutV::Deliver(data.chats)),
        MsgV::Auth { .. } => (s, StepOutV::Unexpected),
        MsgV::Ping { .. } => (s, StepOutV::Unexpected),
    }
}

/// How a parsed frame advances the state: text that is not JSON is the
/// terminal JSON error, a JSON document that is no protocol message is
/// the terminal decode error, and a protocol message is handled by
/// [`spec_on_message`].
pub open spec fn spec_on_frame_json(s: InboundV, p: Option<JsonV>) -> (
    InboundV,
    Result<StepOutV, StreamErrV>,
) {
    match p {
        None => (s, Err(StreamErrV::Serde)),
        Some(j) => match frame_decode(j) {
            Err(de) => (s, Err(StreamErrV::Decode(de))),
            Ok(m) => {
                let (s2, o) = spec_on_message(s, m);
                (s2, Ok(o))
            },
        },
    }
}

/// How one raced event advances the state: the complete transition
/// relation of the inbound actor.
///
/// Cancellation and end-of-stream stop gracefully. An elapsed heartbeat
/// interval increments the sent counter, then fails with the
/// unresponsive-peer error exactly when more than two probes stand
/// unacknowledged, and otherwise asks for a probe whose nonce is the new
/// counter in decimal. A frame is parsed and handled by
/// [`spec_on_frame_json`]; a close frame is the terminal peer-closed
/// error carrying the peer's reason; a transport failure is the terminal
/// transport error.
pub open spec fn spec_step(s: InboundV, ev: ReaderEventV) -> (
    InboundV,
    Result<StepOutV, StreamErrV>,
) {
    match ev {
        ReaderEventV::Cancelled => (s, Ok(StepOutV::Stop)),
        ReaderEventV::PingDue => {
            let p2 = Ping { iteration: (s.ping.iteration + 1) as u64, ..s.ping };
            let s2 = InboundV { ping: p2, ..s };
            if tick_times_out(s.ping) {
                (s2, Err(StreamErrV::PingTimeout))
            } else {
                (s2, Ok(StepOutV::SendPing(MsgV::Ping { nonce: dec_str(p2.iteration as int) })))
            }
        },
        ReaderEventV::Frame(WsFrameV::Text(t)) => spec_on_frame_json(s, crate::json::parsed_json(t)),
        ReaderEventV::Frame(WsFrameV::Binary(b)) => spec_on_frame_json(
            s,
            crate::json::parsed_json_bytes(b),
        ),
        ReaderEventV::Frame(WsFrameV::Close(r)) => (s, Err(StreamErrV::SocketClosed(r))),
        ReaderEventV::TransportFailed => (s, Err(StreamErrV::WebSocket)),
        ReaderEventV::StreamEnded => (s, Ok(StepOutV::Stop)),
    }
}

impl InboundState {
    /// The state of a connection whose authentication request carried
    /// `auth_nonce`: handshake pending, fresh heartbeat state.
    pub fn new(auth_nonce: String) -> (s: InboundState)
        ensures
            s@ == (InboundV {
                auth_nonce: auth_nonce@,
                auth_pending: true,
                ping: Ping {
                    interval_secs: crate::heartbeat::DEFAULT_PING_INTERVAL_SECS,
                    iteration: 0u64,
                    acknowledged: 0u64,
                },
            }),
    {
        InboundState { auth_nonce, auth_pending: true, ping: Ping::default() }
    }

    /// Handle one decoded protocol message, as [`spec_on_message`] says.
    pub fn on_message(&mut self, m: ChatSocketMessage) -> (o: StepOutcome)
        ensures
            final(self)@ == spec_on_message(old(self)@, m@).0,
            o@ == spec_on_message(old(self)@, m@).1,
    {
        match m {
            ChatSocketMessage::Response { nonce } => {
                if self.auth_pending && str_eq(nonce.as_str(), self.auth_nonce.as_str()) {
                    self.auth_pending = false;
                    StepOutcome::AuthOk
                } else {
                    StepOutcome::Continue
                }
            },
            ChatSocketMessage::Pong { nonce, data } => {
                self.ping.acknowledge(nonce.as_str(), data.gap);
                StepOutcome::Continue
            },
            ChatSocketMessage::Chat { channel_info: _, data } => StepOutcome::Deliver(data.chats),
            ChatSocketMessage::Auth { .. } => StepOutcome::Unexpected,
            ChatSocketMessage::Ping { .. } => StepOutcome::Unexpected,
        }
    }

    /// Handle one raced event: the actor's whole transition, as
    /// [`spec_step`] says. A terminal error is reported once to the event
    /// queue by the loop, which then stops; the transport cause of a
    /// transport failure is carried through unchanged.
    pub fn step(&mut self, ev: ReaderEvent) -> (r: Result<StepOutcome, ChatMessageStreamError>)
        requires
            old(self).ping.iteration < u64::MAX,
        ensures
            final(self)@ == spec_step(old(self)@, ev@).0,
            step_result_view(r) == spec_step(old(self)@, ev@).1,
            ev matches ReaderEvent::TransportFailed(e) ==> (r matches Err(
                ChatMessageStreamError::WebSocket(e2),
            ) && e2 == e),
    {
        match ev {
            ReaderEvent::Cancelled => Ok(StepOutcome::Stop),
            ReaderEvent::PingDue => {
                match self.ping.tick() {
                    TickOutcome::Unresponsive => Err(ChatMessageStreamError::PingTimeout),
                    TickOutcome::Probe(nonce) => Ok(
                        StepOutcome::SendPing(ChatSocketMessage::Ping { nonce }),
                    ),
                }
            },
            ReaderEvent::Frame(WsFrame::Text(t)) => {
                match decode_text_frame(t.as_str()) {
                    Err(FrameError::Json(e)) => Err(ChatMessageStreamError::Serde(e)),
                    Err(FrameError::Frame(de)) => Err(ChatMessageStreamError::Decode(de)),
                    Ok(m) => Ok(self.on_message(m)),
                }
            },
            ReaderEvent::Frame(WsFrame::Binary(b)) => {
                match decode_binary_frame(b.as_slice()) {
                    Err(FrameError::Json(e)) => Err(ChatMessageStreamError::Serde(e)),
                    Err(FrameError::Frame(de)) => Err(ChatMessageStreamError::Decode(de)),
                    Ok(m) => Ok(self.on_message(m)),
                }
            },
            ReaderEvent::Frame(WsFrame::Close(r)) => Err(
                ChatMessageStreamError::SocketClosed(r),
            ),
            ReaderEvent::TransportFailed(e) => Err(ChatMessageStreamError::WebSocket(e)),
            ReaderEvent::StreamEnded => Ok(StepOutcome::Stop),
        }
    }
}

/// A chat batch of `n` events makes the actor deliver exactly `n` events
/// to the event queue, the batch's own and in the batch's order, and
/// leaves every part of the actor's state unchanged.
pub proof fn lemma_batch_delivered_in_order(s: InboundV, m: MsgV)
    requires
        m is Chat,
    ensures
        spec_on_message(s, m).0 == s,
        spec_on_message(s, m).1 matches StepOutV::Deliver(cs) && cs == m->Chat_data.chats,
{
}

/// A handshake acknowledgement resolves the pending handshake exactly
/// when its nonce is the one the authentication request carried; any
/// other acknowledgement, and any acknowledgement after the first
/// matching one, changes nothing.
pub proof fn lemma_handshake_first_match_wins(s: InboundV, nonce: Seq<char>)
    ensures
        s.auth_pending && nonce == s.auth_nonce ==> spec_on_message(
            s,
            MsgV::Response { nonce },
        ) == (InboundV { auth_pending: false, ..s }, StepOutV::AuthOk),
        !(s.auth_pending && nonce == s.auth_nonce) ==> spec_on_message(
            s,
            MsgV::Response { nonce },
        ) == (s, StepOutV::Continue),
{
}

} // verus!
