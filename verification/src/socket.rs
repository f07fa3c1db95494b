//! The connection-level pieces shared by the handle and the two actors:
//! the fixed transport endpoint, the queue capacities, the handshake
//! request, and the outbound actor's encoding step. The loops themselves
//! — transport I/O, timers, channels — live outside this crate and only
//! perform what these functions decide.
use vstd::prelude::*;

verus! {

use crate::codec::{encode_frame_text, frame_json, lemma_simple_frames_renderable};
use crate::json::json_text;
use crate::messages::{ChatSocketMessage, ChatToken, MsgV};

/// The fixed secure websocket endpoint of the chat service.
pub const CHAT_SOCKET_URL: &'static str = "wss://open-chat.trovo.live/chat";

/// The fixed nonce the authentication request carries. Correlation is
/// per-connection, so a fixed nonce is sufficient: only the one pending
/// handshake of this connection can be acknowledged with it.
pub const AUTH_NONCE: &'static str = "authenticate";

/// Capacity of the event queue toward the consumer: bounds memory when
/// the consumer is slow; producers wait rather than drop.
pub const CHAT_MESSAGES_BUFFER: usize = 32;

/// Capacity of the command queue toward the outbound actor: one, so the
/// inbound actor waits rather than flood the socket with heartbeats.
pub const SOCKET_COMMANDS_BUFFER: usize = 1;

/// The authentication request for `token`, carrying the fixed handshake
/// nonce. The token is consumed: it is not retained after the handshake
/// message is built.
pub fn auth_message(token: ChatToken) -> (m: ChatSocketMessage)
    ensures
        m@ == (MsgV::Auth { nonce: AUTH_NONCE@, data: token@ }),
{
    ChatSocketMessage::Auth { nonce: AUTH_NONCE.to_owned(), data: token }
}

/// The frame text the outbound actor writes for one command message, in
/// the order commands are received. Commands are the handshake request
/// and the inbound actor's heartbeat probes; a chat batch is never a
/// command, so encoding cannot fail.
pub fn encode_command(m: &ChatSocketMessage) -> (r: String)
    requires
        !(m@ is Chat),
    ensures
        r@ == json_text(frame_json(m@)),
{
    proof {
        lemma_simple_frames_renderable(m@);
    }
    encode_frame_text(m)
}

} // verus!
