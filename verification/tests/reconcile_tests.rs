use aero::models::{ID, User, Room, RoomMe, Message, MessageType, WsDispatch, WsIncomingMessage};
use aero::reconcile::{apply, Publication};
use aero::state::SessionState;

fn user(id: &str, name: &str) -> User {
    User {
        id: ID::new(id.to_string()),
        username: None,
        name: name.to_string(),
    }
}

fn room(id: &str, name: &str) -> Room {
    Room {
        id: ID::new(id.to_string()),
        name: name.to_string(),
        description: String::new(),
        owner_id: ID::new("u1".to_string()),
        room_type: 0,
        me: RoomMe { permission_level: 1 },
        last_message: None,
    }
}

fn message(id: &str, room_id: &str, content: &str) -> Message {
    Message {
        id: ID::new(id.to_string()),
        content: content.to_string(),
        room_id: ID::new(room_id.to_string()),
        author: user("u1", "Author"),
        message_type: MessageType::Standard,
    }
}

fn message_create(id: &str, room_id: &str, content: &str) -> WsIncomingMessage {
    WsIncomingMessage::WsDispatch(WsDispatch::MessageCreate {
        message: message(id, room_id, content),
    })
}

fn room_join(id: &str, name: &str) -> WsIncomingMessage {
    WsIncomingMessage::WsDispatch(WsDispatch::RoomJoin { room: room(id, name) })
}

#[test]
fn message_creates_with_distinct_ids_one_entry_each() {
    let mut state = SessionState::new();
    apply(&mut state, message_create("m1", "r1", "first"));
    apply(&mut state, message_create("m2", "r1", "second"));
    apply(&mut state, message_create("m3", "r2", "third"));
    let r1 = state.messages.room_messages(&ID::new("r1".to_string())).unwrap();
    assert_eq!(r1.len(), 2);
    assert_eq!(r1.get(&ID::new("m1".to_string())).unwrap().content, "first");
    assert_eq!(r1.get(&ID::new("m2".to_string())).unwrap().content, "second");
    let r2 = state.messages.room_messages(&ID::new("r2".to_string())).unwrap();
    assert_eq!(r2.len(), 1);
    assert_eq!(r2.get(&ID::new("m3".to_string())).unwrap().content, "third");
}

#[test]
fn message_create_last_write_wins_for_same_id() {
    let mut state = SessionState::new();
    apply(&mut state, message_create("m1", "r1", "first"));
    apply(&mut state, message_create("m1", "r1", "rewritten"));
    let r1 = state.messages.room_messages(&ID::new("r1".to_string())).unwrap();
    assert_eq!(r1.len(), 1);
    assert_eq!(r1.get(&ID::new("m1".to_string())).unwrap().content, "rewritten");
}

#[test]
fn room_join_last_write_wins_and_others_untouched() {
    let mut state = SessionState::new();
    apply(&mut state, room_join("r1", "old name"));
    apply(&mut state, room_join("r2", "other"));
    apply(&mut state, room_join("r1", "new name"));
    assert_eq!(state.rooms.len(), 2);
    let r1 = state.rooms.get(&ID::new("r1".to_string())).unwrap();
    assert_eq!(r1.name, "new name");
    let r2 = state.rooms.get(&ID::new("r2".to_string())).unwrap();
    assert_eq!(r2.name, "other");
}

#[test]
fn heartbeat_ack_leaves_state_unchanged() {
    let mut state = SessionState::new();
    state.auth_token = Some("tok".to_string());
    apply(&mut state, room_join("r1", "room one"));
    apply(&mut state, message_create("m1", "r1", "hello"));
    let p = apply(&mut state, WsIncomingMessage::HeartbeatAck);
    assert_eq!(p, Publication::NoChange);
    assert_eq!(state.auth_token.as_deref(), Some("tok"));
    assert!(state.current_user.is_none());
    assert!(state.transport.is_none());
    assert_eq!(state.rooms.len(), 1);
    assert_eq!(state.rooms.get(&ID::new("r1".to_string())).unwrap().name, "room one");
    let r1 = state.messages.room_messages(&ID::new("r1".to_string())).unwrap();
    assert_eq!(r1.len(), 1);
    assert_eq!(r1.get(&ID::new("m1".to_string())).unwrap().content, "hello");
}

#[test]
fn message_create_applied_twice_is_idempotent() {
    let mut once = SessionState::new();
    apply(&mut once, message_create("m1", "r1", "hello"));
    let mut twice = SessionState::new();
    apply(&mut twice, message_create("m1", "r1", "hello"));
    apply(&mut twice, message_create("m1", "r1", "hello"));
    let o = once.messages.room_messages(&ID::new("r1".to_string())).unwrap();
    let t = twice.messages.room_messages(&ID::new("r1".to_string())).unwrap();
    assert_eq!(o.len(), t.len());
    assert_eq!(
        o.get(&ID::new("m1".to_string())).unwrap().content,
        t.get(&ID::new("m1".to_string())).unwrap().content,
    );
}

#[test]
fn hello_is_informational_and_leaves_state_unchanged() {
    let mut state = SessionState::new();
    apply(&mut state, room_join("r1", "room one"));
    let p = apply(&mut state, WsIncomingMessage::Hello {
        data: aero::models::WsHello { heartbeat_interval: 45000 },
    });
    assert_eq!(p, Publication::NoChange);
    assert_eq!(state.rooms.len(), 1);
    assert!(state.auth_token.is_none());
}

#[test]
fn each_dispatch_publishes_exactly_one_mapping() {
    let mut state = SessionState::new();
    assert_eq!(apply(&mut state, room_join("r1", "a")), Publication::Rooms);
    assert_eq!(apply(&mut state, message_create("m1", "r1", "x")), Publication::Messages);
    assert_eq!(apply(&mut state, WsIncomingMessage::HeartbeatAck), Publication::NoChange);
}
