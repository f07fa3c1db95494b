//! Tests of the frame codec: decoding each message shape from literal
//! frame text, the decode errors, case-insensitive tags, and the
//! encode/decode round trip through real JSON rendering and parsing.
use trovo::codec::{decode_binary_frame, decode_text_frame, encode_frame, encode_frame_text, DecodeError, FrameError};
use trovo::json::JsonValue;
use trovo::messages::{
    ChannelInfo, ChatMessage, ChatMessageData, ChatMessageType, ChatSocketMessage, ChatToken,
    PongMessageData,
};

fn decode_text(text: &str) -> Result<ChatSocketMessage, DecodeError> {
    match decode_text_frame(text) {
        Ok(m) => Ok(m),
        Err(FrameError::Frame(e)) => Err(e),
        Err(FrameError::Json(e)) => panic!("test frames are valid JSON: {}", e),
    }
}

#[test]
fn decodes_auth_frame() {
    let m = decode_text(r#"{"type":"AUTH","nonce":"n1","data":{"token":"tok"}}"#).unwrap();
    assert_eq!(
        m,
        ChatSocketMessage::Auth {
            nonce: "n1".to_string(),
            data: ChatToken { token: "tok".to_string() },
        }
    );
}

#[test]
fn decodes_response_frame() {
    let m = decode_text(r#"{"type":"RESPONSE","nonce":"authenticate"}"#).unwrap();
    assert_eq!(m, ChatSocketMessage::Response { nonce: "authenticate".to_string() });
}

#[test]
fn decodes_pong_frame() {
    let m = decode_text(r#"{"type":"PONG","nonce":"7","data":{"gap":45}}"#).unwrap();
    assert_eq!(
        m,
        ChatSocketMessage::Pong {
            nonce: "7".to_string(),
            data: PongMessageData { gap: 45 },
        }
    );
}

#[test]
fn tag_matching_ignores_ascii_case() {
    let m = decode_text(r#"{"type":"pong","nonce":"1","data":{"gap":10}}"#).unwrap();
    assert!(matches!(m, ChatSocketMessage::Pong { .. }));
    let m = decode_text(r#"{"type":"Response","nonce":"x"}"#).unwrap();
    assert!(matches!(m, ChatSocketMessage::Response { .. }));
}

#[test]
fn field_order_does_not_matter() {
    let m = decode_text(r#"{"nonce":"n","data":{"token":"t"},"type":"AUTH"}"#).unwrap();
    assert!(matches!(m, ChatSocketMessage::Auth { .. }));
}

#[test]
fn unknown_fields_are_ignored() {
    let m = decode_text(r#"{"type":"PING","nonce":"1","extra":42}"#).unwrap();
    assert_eq!(m, ChatSocketMessage::Ping { nonce: "1".to_string() });
}

#[test]
fn unknown_tag_is_rejected_not_ignored() {
    assert_eq!(decode_text(r#"{"type":"EVENT","nonce":"1"}"#), Err(DecodeError::UnknownTag));
}

#[test]
fn missing_tag_is_rejected() {
    assert_eq!(decode_text(r#"{"nonce":"1"}"#), Err(DecodeError::MissingTag));
    assert_eq!(decode_text(r#"{"type":3,"nonce":"1"}"#), Err(DecodeError::MissingTag));
}

#[test]
fn non_object_frame_is_rejected() {
    assert_eq!(decode_text(r#"[1,2,3]"#), Err(DecodeError::NotAnObject));
    assert_eq!(decode_text(r#""PING""#), Err(DecodeError::NotAnObject));
}

#[test]
fn missing_or_mistyped_fields_are_rejected() {
    assert_eq!(decode_text(r#"{"type":"PONG","nonce":"1"}"#), Err(DecodeError::BadField));
    assert_eq!(
        decode_text(r#"{"type":"PONG","nonce":"1","data":{"gap":"10"}}"#),
        Err(DecodeError::BadField)
    );
    assert_eq!(
        decode_text(r#"{"type":"PONG","nonce":"1","data":{"gap":-5}}"#),
        Err(DecodeError::BadField)
    );
    assert_eq!(decode_text(r#"{"type":"AUTH","nonce":"1","data":{}}"#), Err(DecodeError::BadField));
    assert_eq!(decode_text(r#"{"type":"RESPONSE"}"#), Err(DecodeError::BadField));
}

#[test]
fn decodes_full_chat_event() {
    let text = r#"{"type":"CHAT","channel_info":{"channel_id":"c9"},"data":{"eid":"e1","chats":[{"type":5003,"content":"hi","nick_name":"nick","avatar":"http://a","sub_lv":"sub_L1","medals":["m1","m2"],"decos":["d"],"roles":["mod","follower"],"message_id":"id-1","sender_id":-4,"content_data":{"gift_id":"g","n":2},"custom_role":"[]"}]}}"#;
    let m = decode_text(text).unwrap();
    match m {
        ChatSocketMessage::Chat { channel_info, data } => {
            assert_eq!(
                channel_info,
                Some(ChannelInfo { channel_id: "c9".to_string() })
            );
            assert_eq!(data.eid, "e1");
            assert_eq!(data.chats.len(), 1);
            let c = &data.chats[0];
            assert_eq!(c.type_, ChatMessageType::Follow);
            assert_eq!(c.content, "hi");
            assert_eq!(c.nick_name, "nick");
            assert_eq!(c.avatar.as_deref(), Some("http://a"));
            assert_eq!(c.sub_lv.as_deref(), Some("sub_L1"));
            assert_eq!(c.medals, vec!["m1".to_string(), "m2".to_string()]);
            assert_eq!(c.decos, vec!["d".to_string()]);
            assert_eq!(c.roles, vec!["mod".to_string(), "follower".to_string()]);
            assert_eq!(c.message_id, "id-1");
            assert_eq!(c.sender_id, -4);
            assert_eq!(c.custom_role.as_deref(), Some("[]"));
            assert_eq!(c.content_data.len(), 2);
            assert!(c
                .content_data
                .iter()
                .any(|kv| kv.0 == "gift_id" && kv.1 == JsonValue::Str("g".to_string())));
            assert!(c.content_data.iter().any(|kv| kv.0 == "n" && kv.1 == JsonValue::Int(2)));
        }
        other => panic!("expected a chat batch, got {:?}", other),
    }
}

#[test]
fn optional_chat_fields_default() {
    let text = r#"{"type":"CHAT","channel_info":null,"data":{"eid":"e","chats":[{"type":0,"content":"x","nick_name":"n","message_id":"m","sender_id":0}]}}"#;
    match decode_text(text).unwrap() {
        ChatSocketMessage::Chat { channel_info, data } => {
            assert_eq!(channel_info, None);
            let c = &data.chats[0];
            assert_eq!(c.avatar, None);
            assert_eq!(c.sub_lv, None);
            assert_eq!(c.custom_role, None);
            assert!(c.medals.is_empty());
            assert!(c.decos.is_empty());
            assert!(c.roles.is_empty());
            assert!(c.content_data.is_empty());
        }
        other => panic!("expected a chat batch, got {:?}", other),
    }
}

#[test]
fn absent_chats_list_is_an_empty_batch() {
    let text = r#"{"type":"CHAT","channel_info":null,"data":{"eid":"e"}}"#;
    match decode_text(text).unwrap() {
        ChatSocketMessage::Chat { data, .. } => assert!(data.chats.is_empty()),
        other => panic!("expected a chat batch, got {:?}", other),
    }
}

#[test]
fn unknown_chat_type_code_is_rejected() {
    let text = r#"{"type":"CHAT","channel_info":null,"data":{"eid":"e","chats":[{"type":3,"content":"x","nick_name":"n","message_id":"m","sender_id":0}]}}"#;
    assert_eq!(decode_text(text), Err(DecodeError::BadField));
}

#[test]
fn chat_type_codes_round_trip() {
    assert_eq!(ChatMessageType::of_code(0), Some(ChatMessageType::Normal));
    assert_eq!(ChatMessageType::of_code(9), Some(ChatMessageType::MagicBulletScreen));
    assert_eq!(ChatMessageType::of_code(5001), Some(ChatMessageType::Subscription));
    assert_eq!(ChatMessageType::of_code(5009), Some(ChatMessageType::CustomSpell));
    assert_eq!(ChatMessageType::of_code(3), None);
    assert_eq!(ChatMessageType::of_code(6000), None);
    assert_eq!(ChatMessageType::Raid.code(), 5008);
    assert_eq!(ChatMessageType::of_code(ChatMessageType::Spell.code()), Some(ChatMessageType::Spell));
}

#[test]
fn encoded_frames_decode_back_unchanged() {
    let messages = vec![
        ChatSocketMessage::Auth {
            nonce: "authenticate".to_string(),
            data: ChatToken { token: "secret".to_string() },
        },
        ChatSocketMessage::Response { nonce: "authenticate".to_string() },
        ChatSocketMessage::Ping { nonce: "12".to_string() },
        ChatSocketMessage::Pong {
            nonce: "12".to_string(),
            data: PongMessageData { gap: 60 },
        },
        ChatSocketMessage::Chat {
            channel_info: Some(ChannelInfo { channel_id: "77".to_string() }),
            data: ChatMessageData {
                eid: "e".to_string(),
                chats: vec![ChatMessage {
                    type_: ChatMessageType::Welcome,
                    content: "hello \"world\"".to_string(),
                    nick_name: "ünïcode".to_string(),
                    avatar: None,
                    sub_lv: Some("sub_L2".to_string()),
                    medals: vec!["m".to_string()],
                    decos: vec![],
                    roles: vec!["mod".to_string()],
                    message_id: "mid".to_string(),
                    sender_id: 42,
                    content_data: vec![("k".to_string(), JsonValue::Bool(true))],
                    custom_role: None,
                }],
            },
        },
    ];
    for m in messages {
        let text = encode_frame_text(&m);
        assert_eq!(decode_text_frame(&text).unwrap(), m);
        // Binary frames are the same text in bytes and decode identically.
        assert_eq!(decode_binary_frame(text.as_bytes()).unwrap(), m);
    }
}

#[test]
fn encode_builds_a_tagged_object() {
    let j = encode_frame(&ChatSocketMessage::Ping { nonce: "3".to_string() });
    match j {
        JsonValue::Obj(fields) => {
            assert_eq!(fields[0].0, "type");
            assert_eq!(fields[0].1, JsonValue::Str("PING".to_string()));
            assert_eq!(fields[1].0, "nonce");
            assert_eq!(fields[1].1, JsonValue::Str("3".to_string()));
        }
        other => panic!("expected an object frame, got {:?}", other),
    }
}
