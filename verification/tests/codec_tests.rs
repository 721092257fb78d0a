use aero::codec::{decode_frame, ProtocolError};
use aero::models::{ID, MessageType, WsDispatch, WsIncomingMessage, WsOutgoingMessage};
use aero::reconcile::{apply_frame, Publication};
use aero::state::SessionState;
use aero::wire::encode_outgoing;

#[test]
fn decodes_heartbeat_ack() {
    let f = decode_frame("{\"opcode\":\"2\"}").unwrap();
    assert!(matches!(f, WsIncomingMessage::HeartbeatAck));
}

#[test]
fn decodes_heartbeat_ack_with_whitespace() {
    let f = decode_frame("  { \"opcode\" : \"2\" }  ").unwrap();
    assert!(matches!(f, WsIncomingMessage::HeartbeatAck));
}

#[test]
fn decodes_hello() {
    let f = decode_frame("{\"opcode\":\"4\",\"data\":{\"heartbeat_interval\":60000}}").unwrap();
    match f {
        WsIncomingMessage::Hello { data } => assert_eq!(data.heartbeat_interval, 60000),
        _ => panic!("expected hello"),
    }
}

#[test]
fn decodes_room_join_dispatch() {
    let raw = "{\"opcode\":\"0\",\"event_name\":\"RoomJoin\",\"data\":{\"id\":\"r2\",\"name\":\"General\",\"description\":\"the lobby\",\"owner_id\":\"u1\",\"type\":0,\"me\":{\"permission_level\":3}}}";
    let f = decode_frame(raw).unwrap();
    match f {
        WsIncomingMessage::WsDispatch(WsDispatch::RoomJoin { room }) => {
            assert_eq!(room.id, ID::new("r2".to_string()));
            assert_eq!(room.name, "General");
            assert_eq!(room.description, "the lobby");
            assert_eq!(room.owner_id, ID::new("u1".to_string()));
            assert_eq!(room.room_type, 0);
            assert_eq!(room.me.permission_level, 3);
            assert!(room.last_message.is_none());
        }
        _ => panic!("expected room join"),
    }
}

#[test]
fn decodes_message_create_dispatch() {
    let raw = "{\"opcode\":\"0\",\"event_name\":\"MessageCreate\",\"data\":{\"id\":\"m1\",\"content\":\"hi there\",\"room_id\":\"r1\",\"author\":{\"id\":\"u1\",\"username\":\"kim\",\"name\":\"Kim\"},\"type\":\"0\"}}";
    let f = decode_frame(raw).unwrap();
    match f {
        WsIncomingMessage::WsDispatch(WsDispatch::MessageCreate { message }) => {
            assert_eq!(message.id, ID::new("m1".to_string()));
            assert_eq!(message.content, "hi there");
            assert_eq!(message.room_id, ID::new("r1".to_string()));
            assert_eq!(message.author.id, ID::new("u1".to_string()));
            assert_eq!(message.author.username.as_deref(), Some("kim"));
            assert_eq!(message.author.name, "Kim");
            assert!(matches!(message.message_type, MessageType::Standard));
        }
        _ => panic!("expected message create"),
    }
}

#[test]
fn decodes_author_without_username() {
    let raw = "{\"opcode\":\"0\",\"event_name\":\"MessageCreate\",\"data\":{\"id\":\"m1\",\"content\":\"x\",\"room_id\":\"r1\",\"author\":{\"id\":\"u1\",\"name\":\"Kim\"},\"type\":\"0\"}}";
    let f = decode_frame(raw).unwrap();
    match f {
        WsIncomingMessage::WsDispatch(WsDispatch::MessageCreate { message }) => {
            assert!(message.author.username.is_none());
        }
        _ => panic!("expected message create"),
    }
}

#[test]
fn decodes_null_username() {
    let raw = "{\"opcode\":\"0\",\"event_name\":\"MessageCreate\",\"data\":{\"id\":\"m1\",\"content\":\"x\",\"room_id\":\"r1\",\"author\":{\"id\":\"u1\",\"username\":null,\"name\":\"Kim\"},\"type\":\"0\"}}";
    let f = decode_frame(raw).unwrap();
    match f {
        WsIncomingMessage::WsDispatch(WsDispatch::MessageCreate { message }) => {
            assert!(message.author.username.is_none());
        }
        _ => panic!("expected message create"),
    }
}

#[test]
fn decodes_string_escapes() {
    let raw = "{\"opcode\":\"0\",\"event_name\":\"MessageCreate\",\"data\":{\"id\":\"m1\",\"content\":\"a \\\"quote\\\" and \\\\ slash \\/ and\\nnewline\\ttab\\rreturn\",\"room_id\":\"r1\",\"author\":{\"id\":\"u1\",\"name\":\"K\"},\"type\":\"0\"}}";
    let f = decode_frame(raw).unwrap();
    match f {
        WsIncomingMessage::WsDispatch(WsDispatch::MessageCreate { message }) => {
            assert_eq!(message.content, "a \"quote\" and \\ slash / and\nnewline\ttab\rreturn");
        }
        _ => panic!("expected message create"),
    }
}

#[test]
fn decodes_room_with_last_message() {
    let raw = "{\"opcode\":\"0\",\"event_name\":\"RoomJoin\",\"data\":{\"id\":\"r2\",\"name\":\"n\",\"description\":\"d\",\"owner_id\":\"u1\",\"type\":1,\"me\":{\"permission_level\":2},\"last_message\":{\"id\":\"m9\",\"content\":\"latest\",\"room_id\":\"r2\",\"author\":{\"id\":\"u1\",\"name\":\"K\"},\"type\":\"0\"}}}";
    let f = decode_frame(raw).unwrap();
    match f {
        WsIncomingMessage::WsDispatch(WsDispatch::RoomJoin { room }) => {
            assert_eq!(room.room_type, 1);
            let lm = room.last_message.expect("last message kept");
            assert_eq!(lm.id, ID::new("m9".to_string()));
            assert_eq!(lm.content, "latest");
        }
        _ => panic!("expected room join"),
    }
}

#[test]
fn decodes_room_with_null_last_message() {
    let raw = "{\"opcode\":\"0\",\"event_name\":\"RoomJoin\",\"data\":{\"id\":\"r2\",\"name\":\"n\",\"description\":\"d\",\"owner_id\":\"u1\",\"type\":0,\"me\":{\"permission_level\":2},\"last_message\":null}}";
    let f = decode_frame(raw).unwrap();
    match f {
        WsIncomingMessage::WsDispatch(WsDispatch::RoomJoin { room }) => {
            assert!(room.last_message.is_none());
        }
        _ => panic!("expected room join"),
    }
}

#[test]
fn unrecognized_opcode_is_protocol_error() {
    assert_eq!(decode_frame("{\"opcode\":\"9\"}"), Err(ProtocolError::UnrecognizedOpcode));
}

#[test]
fn unrecognized_event_is_protocol_error() {
    let raw = "{\"opcode\":\"0\",\"event_name\":\"RoomLeave\",\"data\":{}}";
    assert_eq!(decode_frame(raw), Err(ProtocolError::UnrecognizedEvent));
}

#[test]
fn malformed_frames_are_rejected() {
    assert_eq!(decode_frame(""), Err(ProtocolError::Malformed));
    assert_eq!(decode_frame("not json"), Err(ProtocolError::Malformed));
    assert_eq!(decode_frame("{\"opcode\":\"2\""), Err(ProtocolError::Malformed));
    assert_eq!(decode_frame("{\"opcode\":\"2\"} trailing"), Err(ProtocolError::Malformed));
    assert_eq!(decode_frame("{\"opcode\":2}"), Err(ProtocolError::Malformed));
    assert_eq!(
        decode_frame("{\"opcode\":\"4\",\"data\":{\"heartbeat_interval\":\"x\"}}"),
        Err(ProtocolError::Malformed),
    );
}

#[test]
fn room_type_outside_byte_range_is_malformed() {
    let raw = "{\"opcode\":\"0\",\"event_name\":\"RoomJoin\",\"data\":{\"id\":\"r2\",\"name\":\"n\",\"description\":\"d\",\"owner_id\":\"u1\",\"type\":300,\"me\":{\"permission_level\":3}}}";
    assert_eq!(decode_frame(raw), Err(ProtocolError::Malformed));
}

#[test]
fn protocol_error_leaves_state_unchanged() {
    let mut state = SessionState::new();
    state.auth_token = Some("tok".to_string());
    let r = apply_frame(&mut state, "{\"opcode\":\"9\"}");
    assert_eq!(r, Err(ProtocolError::UnrecognizedOpcode));
    assert_eq!(state.auth_token.as_deref(), Some("tok"));
    assert_eq!(state.rooms.len(), 0);
}

#[test]
fn inbound_room_join_frame_updates_rooms_with_one_publication() {
    let mut state = SessionState::new();
    let raw = "{\"opcode\":\"0\",\"event_name\":\"RoomJoin\",\"data\":{\"id\":\"r2\",\"name\":\"General\",\"description\":\"d\",\"owner_id\":\"u1\",\"type\":0,\"me\":{\"permission_level\":1}}}";
    let p = apply_frame(&mut state, raw).unwrap();
    assert_eq!(p, Publication::Rooms);
    assert_eq!(state.rooms.len(), 1);
    assert_eq!(state.rooms.get(&ID::new("r2".to_string())).unwrap().name, "General");
}

#[test]
fn encodes_heartbeat_frame_exactly() {
    let out: String = encode_outgoing(&WsOutgoingMessage::Heartbeat).into_iter().collect();
    assert_eq!(out, "{\"opcode\":\"1\"}");
}

#[test]
fn encodes_identify_frame_exactly() {
    let out: String = encode_outgoing(&WsOutgoingMessage::Identify { token: "secret".to_string() })
        .into_iter()
        .collect();
    assert_eq!(out, "{\"opcode\":\"3\",\"data\":{\"token\":\"secret\"}}");
}

#[test]
fn encodes_identify_with_escaped_token() {
    let out: String = encode_outgoing(&WsOutgoingMessage::Identify {
        token: "a\"b\\c".to_string(),
    })
        .into_iter()
        .collect();
    assert_eq!(out, "{\"opcode\":\"3\",\"data\":{\"token\":\"a\\\"b\\\\c\"}}");
}
