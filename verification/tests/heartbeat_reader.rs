//! Tests of the heartbeat state and the inbound actor's state machine.
use trovo::codec::encode_frame_text;
use trovo::errors::{ChatMessageStreamError, CloseReason};
use trovo::heartbeat::{Ping, TickOutcome, DEFAULT_PING_INTERVAL_SECS};
use trovo::messages::{ChatSocketMessage, ChatToken, PongMessageData};
use trovo::reader::{InboundState, ReaderEvent, StepOutcome, WsFrame};

fn pong_text(nonce: &str, gap: u64) -> String {
    encode_frame_text(&ChatSocketMessage::Pong {
        nonce: nonce.to_string(),
        data: PongMessageData { gap },
    })
}

#[test]
fn ping_pong() {
    let mut reader = InboundState::new("authenticate".to_string());
    reader.ping = Ping {
        interval_secs: DEFAULT_PING_INTERVAL_SECS,
        iteration: 1,
        acknowledged: 0,
    };

    // Should acknowledge pongs
    assert_eq!(reader.ping.acknowledged, 0);
    assert_eq!(reader.ping.interval_secs, DEFAULT_PING_INTERVAL_SECS);
    let r = reader.step(ReaderEvent::Frame(WsFrame::Text(pong_text("1", 10))));
    assert!(matches!(r, Ok(StepOutcome::Continue)));
    assert_eq!(reader.ping.acknowledged, 1);
    assert_eq!(reader.ping.interval_secs, 10);

    // Invalid nonce shouldn't kill the reader
    reader.ping.interval_secs = DEFAULT_PING_INTERVAL_SECS;
    let r = reader.step(ReaderEvent::Frame(WsFrame::Text(pong_text("-2", 20))));
    assert!(matches!(r, Ok(StepOutcome::Continue)));
    assert_eq!(reader.ping.acknowledged, 1);
    assert_eq!(reader.ping.interval_secs, DEFAULT_PING_INTERVAL_SECS);

    // Should ignore backwards nonces
    reader.ping.interval_secs = DEFAULT_PING_INTERVAL_SECS;
    reader.ping.acknowledged = 5;
    reader.ping.iteration = 6;
    let r = reader.step(ReaderEvent::Frame(WsFrame::Text(pong_text("2", 20))));
    assert!(matches!(r, Ok(StepOutcome::Continue)));
    assert_eq!(reader.ping.acknowledged, 5);
    assert_eq!(reader.ping.interval_secs, DEFAULT_PING_INTERVAL_SECS);
}

#[test]
fn pong_acknowledgement_is_scenario_exact() {
    // acknowledged=0, interval=30s; PONG{nonce:"1", gap:10} => acknowledged 1, interval 10.
    let mut p = Ping::default();
    assert_eq!(p.acknowledged, 0);
    assert_eq!(p.interval_secs, 30);
    p.acknowledge("1", 10);
    assert_eq!(p.acknowledged, 1);
    assert_eq!(p.interval_secs, 10);

    // Unparsable nonce: state unchanged, no crash.
    p.acknowledge("-2", 99);
    assert_eq!(p.acknowledged, 1);
    assert_eq!(p.interval_secs, 10);

    // Stale counter with acknowledged=5, iteration=6: state unchanged.
    p = Ping { interval_secs: 30, iteration: 6, acknowledged: 5 };
    p.acknowledge("2", 20);
    assert_eq!(p.acknowledged, 5);
    assert_eq!(p.interval_secs, 30);
}

#[test]
fn duplicate_ack_leaves_state_unchanged() {
    let mut p = Ping { interval_secs: 30, iteration: 4, acknowledged: 3 };
    p.acknowledge("3", 12);
    assert_eq!(p.acknowledged, 3);
    assert_eq!(p.interval_secs, 30);
    assert_eq!(p.iteration, 4);
}

#[test]
fn fresh_ack_advances_to_exact_counter() {
    let mut p = Ping { interval_secs: 30, iteration: 9, acknowledged: 2 };
    p.acknowledge("7", 45);
    assert_eq!(p.acknowledged, 7);
    assert_eq!(p.interval_secs, 45);
    assert_eq!(p.iteration, 9);
}

#[test]
fn heartbeat_times_out_after_two_missed_acks() {
    let mut p = Ping::default();
    match p.tick() {
        TickOutcome::Probe(nonce) => assert_eq!(nonce, "1"),
        TickOutcome::Unresponsive => panic!("first probe must be sent"),
    }
    match p.tick() {
        TickOutcome::Probe(nonce) => assert_eq!(nonce, "2"),
        TickOutcome::Unresponsive => panic!("second probe must be sent"),
    }
    // Third tick with nothing acknowledged: 3 - 0 > 2.
    assert!(matches!(p.tick(), TickOutcome::Unresponsive));
    assert_eq!(p.iteration, 3);
}

#[test]
fn heartbeat_survives_while_acks_arrive() {
    let mut p = Ping::default();
    assert!(matches!(p.tick(), TickOutcome::Probe(_)));
    assert!(matches!(p.tick(), TickOutcome::Probe(_)));
    p.acknowledge("2", 30);
    assert!(matches!(p.tick(), TickOutcome::Probe(_)));
    assert!(matches!(p.tick(), TickOutcome::Probe(_)));
    // 5 - 2 > 2: unresponsive exactly now, not earlier.
    assert!(matches!(p.tick(), TickOutcome::Unresponsive));
}

#[test]
fn ping_due_event_sends_probe_or_times_out() {
    let mut reader = InboundState::new("authenticate".to_string());
    match reader.step(ReaderEvent::PingDue) {
        Ok(StepOutcome::SendPing(ChatSocketMessage::Ping { nonce })) => {
            assert_eq!(nonce, "1")
        }
        other => panic!("expected a probe, got {:?}", other),
    }
    reader.ping.iteration = 2;
    reader.ping.acknowledged = 0;
    let r = reader.step(ReaderEvent::PingDue);
    assert!(matches!(r, Err(ChatMessageStreamError::PingTimeout)));
    assert_eq!(reader.ping.iteration, 3);
}

#[test]
fn handshake_matching_nonce_resolves_once() {
    let mut reader = InboundState::new("authenticate".to_string());
    let text = encode_frame_text(&ChatSocketMessage::Response {
        nonce: "authenticate".to_string(),
    });
    let r = reader.step(ReaderEvent::Frame(WsFrame::Text(text.clone())));
    assert!(matches!(r, Ok(StepOutcome::AuthOk)));
    assert!(!reader.auth_pending);
    // A duplicate acknowledgement is ignored: the first match won.
    let r = reader.step(ReaderEvent::Frame(WsFrame::Text(text)));
    assert!(matches!(r, Ok(StepOutcome::Continue)));
}

#[test]
fn handshake_other_nonce_is_ignored() {
    let mut reader = InboundState::new("authenticate".to_string());
    let text = encode_frame_text(&ChatSocketMessage::Response { nonce: "other".to_string() });
    let r = reader.step(ReaderEvent::Frame(WsFrame::Text(text)));
    assert!(matches!(r, Ok(StepOutcome::Continue)));
    // The handshake stays pending; when the peer closes instead, the
    // surrounding connect call reports "closed before authenticated".
    assert!(reader.auth_pending);
}

#[test]
fn close_frame_carries_peer_reason() {
    let mut reader = InboundState::new("authenticate".to_string());
    let r = reader.step(ReaderEvent::Frame(WsFrame::Close(Some(CloseReason {
        code: 1000,
        reason: "bye".to_string(),
    }))));
    match r {
        Err(ChatMessageStreamError::SocketClosed(Some(reason))) => {
            assert_eq!(reason.reason, "bye");
            assert_eq!(reason.code, 1000);
        }
        other => panic!("expected the peer-closed error, got {:?}", other),
    }
}

#[test]
fn close_frame_without_reason() {
    let mut reader = InboundState::new("authenticate".to_string());
    let r = reader.step(ReaderEvent::Frame(WsFrame::Close(None)));
    assert!(matches!(r, Err(ChatMessageStreamError::SocketClosed(None))));
}

#[test]
fn cancellation_and_stream_end_stop_gracefully() {
    let mut reader = InboundState::new("authenticate".to_string());
    assert!(matches!(reader.step(ReaderEvent::Cancelled), Ok(StepOutcome::Stop)));
    assert!(matches!(reader.step(ReaderEvent::StreamEnded), Ok(StepOutcome::Stop)));
    assert!(reader.auth_pending);
}

#[test]
fn chat_batch_delivers_every_event_in_order() {
    let mut reader = InboundState::new("authenticate".to_string());
    let text = r#"{"type":"CHAT","channel_info":{"channel_id":"123"},"data":{"eid":"batch-1","chats":[{"type":0,"content":"first","nick_name":"a","message_id":"m1","sender_id":1},{"type":0,"content":"second","nick_name":"b","message_id":"m2","sender_id":2},{"type":5001,"content":"third","nick_name":"c","message_id":"m3","sender_id":3}]}}"#;
    let r = reader.step(ReaderEvent::Frame(WsFrame::Text(text.to_string())));
    match r {
        Ok(StepOutcome::Deliver(events)) => {
            assert_eq!(events.len(), 3);
            assert_eq!(events[0].content, "first");
            assert_eq!(events[1].content, "second");
            assert_eq!(events[2].content, "third");
            assert_eq!(events[0].message_id, "m1");
            assert_eq!(events[2].message_id, "m3");
        }
        other => panic!("expected a delivery, got {:?}", other),
    }
    // Delivering a batch changes no reader state.
    assert!(reader.auth_pending);
    assert_eq!(reader.ping, Ping::default());
}

#[test]
fn empty_batch_delivers_nothing() {
    let mut reader = InboundState::new("authenticate".to_string());
    let text = r#"{"type":"CHAT","channel_info":null,"data":{"eid":"e","chats":[]}}"#;
    match reader.step(ReaderEvent::Frame(WsFrame::Text(text.to_string()))) {
        Ok(StepOutcome::Deliver(events)) => assert_eq!(events.len(), 0),
        other => panic!("expected a delivery, got {:?}", other),
    }
}

#[test]
fn bad_json_is_a_terminal_serde_error() {
    let mut reader = InboundState::new("authenticate".to_string());
    let r = reader.step(ReaderEvent::Frame(WsFrame::Text("{not json".to_string())));
    assert!(matches!(r, Err(ChatMessageStreamError::Serde(_))));
}

#[test]
fn unknown_tag_is_a_terminal_decode_error() {
    let mut reader = InboundState::new("authenticate".to_string());
    let text = r#"{"type":"NOPE","nonce":"x"}"#;
    let r = reader.step(ReaderEvent::Frame(WsFrame::Text(text.to_string())));
    assert!(matches!(
        r,
        Err(ChatMessageStreamError::Decode(trovo::codec::DecodeError::UnknownTag))
    ));
}

#[test]
fn binary_frames_decode_identically() {
    let mut by_text = InboundState::new("authenticate".to_string());
    let mut by_bytes = InboundState::new("authenticate".to_string());
    let text = pong_text("1", 10);
    let bytes = text.clone().into_bytes();
    assert!(matches!(
        by_text.step(ReaderEvent::Frame(WsFrame::Text(text))),
        Ok(StepOutcome::Continue)
    ));
    assert!(matches!(
        by_bytes.step(ReaderEvent::Frame(WsFrame::Binary(bytes))),
        Ok(StepOutcome::Continue)
    ));
    assert_eq!(by_text.ping, by_bytes.ping);
}

#[test]
fn auth_message_carries_fixed_nonce_and_token() {
    let m = trovo::socket::auth_message(ChatToken { token: "tok-1".to_string() });
    match m {
        ChatSocketMessage::Auth { nonce, data } => {
            assert_eq!(nonce, "authenticate");
            assert_eq!(data.token, "tok-1");
        }
        other => panic!("expected the auth message, got {:?}", other),
    }
}

#[test]
fn encode_command_writes_handshake_and_probe_frames() {
    let auth = trovo::socket::auth_message(ChatToken { token: "t".to_string() });
    let text = trovo::socket::encode_command(&auth);
    let decoded = trovo::codec::decode_text_frame(&text).expect("command frames decode");
    assert_eq!(decoded, auth);

    let probe = ChatSocketMessage::Ping { nonce: "1".to_string() };
    let text = trovo::socket::encode_command(&probe);
    assert_eq!(trovo::codec::decode_text_frame(&text).unwrap(), probe);
}

#[test]
fn errors_describe_themselves() {
    let e = ChatMessageStreamError::SocketClosed(Some(CloseReason {
        code: 1000,
        reason: "bye".to_string(),
    }));
    assert_eq!(e.describe(), "socket was closed: bye");
    assert_eq!(ChatMessageStreamError::PingTimeout.describe(), "server stopped responding to pings");
    assert_eq!(
        trovo::codec::DecodeError::UnknownTag.describe(),
        "frame type names no known message"
    );
    assert_eq!(
        trovo::errors::ChatConnectError::SocketClosed.describe(),
        "socket closed"
    );
}
