use aero::bootstrap::{bootstrap_step, BootstrapAction, BootstrapEvent, BootstrapPhase};
use aero::heartbeat::{HeartbeatDriver, HEARTBEAT_INTERVAL_MS};
use aero::models::{ID, Room, RoomMe, User, WsOutgoingMessage};
use aero::state::{IdMap, MeResponse, SessionState, TransportHandle};
use aero::wire::{encode_outgoing, OutboundWire};

fn sample_user() -> User {
    User {
        id: ID::new("u1".to_string()),
        username: Some("kim".to_string()),
        name: "Kim".to_string(),
    }
}

fn sample_room(id: &str, name: &str) -> Room {
    Room {
        id: ID::new(id.to_string()),
        name: name.to_string(),
        description: "d".to_string(),
        owner_id: ID::new("u1".to_string()),
        room_type: 0,
        me: RoomMe { permission_level: 1 },
        last_message: None,
    }
}

#[test]
fn login_then_snapshot_populates_state() {
    let mut state = SessionState::new();
    let (phase, action) = bootstrap_step(
        BootstrapPhase::Unauthenticated,
        &mut state,
        BootstrapEvent::StoredCredential { token: None },
    );
    assert_eq!(phase, BootstrapPhase::Unauthenticated);
    assert!(matches!(action, BootstrapAction::AwaitLogin));

    let (phase, action) = bootstrap_step(
        phase,
        &mut state,
        BootstrapEvent::LoginSubmitted {
            email: "kim@example.test".to_string(),
            password: "pw".to_string(),
        },
    );
    assert_eq!(phase, BootstrapPhase::Authenticating);
    assert!(matches!(action, BootstrapAction::SubmitLogin { .. }));

    let (phase, action) = bootstrap_step(
        phase,
        &mut state,
        BootstrapEvent::LoginSucceeded { token: "tok-1".to_string() },
    );
    assert_eq!(phase, BootstrapPhase::FetchingSnapshot);
    assert!(matches!(action, BootstrapAction::FetchSnapshot));
    assert_eq!(state.auth_token.as_deref(), Some("tok-1"));

    let mut rooms: IdMap<Room> = IdMap::empty();
    rooms.insert(ID::new("r1".to_string()), sample_room("r1", "General"));
    let (phase, action) = bootstrap_step(
        phase,
        &mut state,
        BootstrapEvent::SnapshotFetched { me: MeResponse { user: sample_user(), rooms } },
    );
    assert_eq!(phase, BootstrapPhase::Connecting);
    assert!(matches!(action, BootstrapAction::Connect));
    assert_eq!(state.current_user.as_ref().unwrap().name, "Kim");
    assert_eq!(state.rooms.len(), 1);
    assert_eq!(state.rooms.get(&ID::new("r1".to_string())).unwrap().name, "General");

    let (phase, action) = bootstrap_step(
        phase,
        &mut state,
        BootstrapEvent::Connected {
            handle: TransportHandle { endpoint: "chat".to_string() },
        },
    );
    assert_eq!(phase, BootstrapPhase::Identifying);
    match action {
        BootstrapAction::SendIdentify { token } => assert_eq!(token, "tok-1"),
        _ => panic!("expected identify"),
    }
    assert!(state.transport.is_some());

    let (phase, action) = bootstrap_step(phase, &mut state, BootstrapEvent::IdentifySent);
    assert_eq!(phase, BootstrapPhase::SteadyState);
    assert!(matches!(action, BootstrapAction::RunSession));
}

#[test]
fn stored_credential_skips_login() {
    let mut state = SessionState::new();
    let (phase, action) = bootstrap_step(
        BootstrapPhase::Unauthenticated,
        &mut state,
        BootstrapEvent::StoredCredential { token: Some("tok-9".to_string()) },
    );
    assert_eq!(phase, BootstrapPhase::FetchingSnapshot);
    assert!(matches!(action, BootstrapAction::FetchSnapshot));
    assert_eq!(state.auth_token.as_deref(), Some("tok-9"));
}

#[test]
fn failed_login_stays_unauthenticated() {
    let mut state = SessionState::new();
    let (phase, action) = bootstrap_step(
        BootstrapPhase::Authenticating,
        &mut state,
        BootstrapEvent::LoginFailed,
    );
    assert_eq!(phase, BootstrapPhase::Unauthenticated);
    assert!(matches!(action, BootstrapAction::ReportLoginError));
    assert!(state.auth_token.is_none());
}

#[test]
fn connect_failure_is_fatal() {
    let mut state = SessionState::new();
    let (phase, action) = bootstrap_step(
        BootstrapPhase::Connecting,
        &mut state,
        BootstrapEvent::ConnectFailed,
    );
    assert_eq!(phase, BootstrapPhase::Failed);
    assert!(matches!(action, BootstrapAction::Abort));
}

#[test]
fn heartbeat_emits_floor_of_duration_over_interval() {
    let mut d = HeartbeatDriver::new(10);
    d.start();
    let mut total: u64 = 0;
    let mut now: u64 = 0;
    while now <= 95 {
        total += d.catch_up(now);
        now += 5;
    }
    assert_eq!(total, 9);
}

#[test]
fn heartbeat_first_fire_is_at_interval_not_zero() {
    let mut d = HeartbeatDriver::new(10);
    d.start();
    assert_eq!(d.catch_up(0), 0);
    assert_eq!(d.catch_up(9), 0);
    assert_eq!(d.catch_up(10), 1);
}

#[test]
fn heartbeat_stops_emitting_once_stopped() {
    let mut d = HeartbeatDriver::new(10);
    d.start();
    assert_eq!(d.catch_up(30), 3);
    d.stop();
    assert!(!d.is_running());
    assert_eq!(d.catch_up(100), 0);
}

#[test]
fn default_interval_is_sixty_seconds() {
    assert_eq!(HEARTBEAT_INTERVAL_MS, 60000);
    let mut d = HeartbeatDriver::new(HEARTBEAT_INTERVAL_MS);
    assert!(!d.is_running());
    d.start();
    assert!(d.is_running());
    assert_eq!(d.catch_up(179999), 2);
}

#[test]
fn concurrent_sends_serialize_without_interleaving() {
    let heartbeat = WsOutgoingMessage::Heartbeat;
    let identify = WsOutgoingMessage::Identify { token: "tok".to_string() };
    let hb: String = encode_outgoing(&heartbeat).into_iter().collect();
    let idf: String = encode_outgoing(&identify).into_iter().collect();

    let mut wire = OutboundWire::new();
    wire.send(&heartbeat);
    wire.send(&identify);
    let got: String = wire.transcript().iter().collect();
    assert_eq!(got, format!("{hb}{idf}"));

    let mut wire = OutboundWire::new();
    wire.send(&identify);
    wire.send(&heartbeat);
    let got: String = wire.transcript().iter().collect();
    assert_eq!(got, format!("{idf}{hb}"));
}

#[test]
fn wire_transcript_grows_by_whole_frames() {
    let mut wire = OutboundWire::new();
    wire.send(&WsOutgoingMessage::Heartbeat);
    let after_one: String = wire.transcript().iter().collect();
    wire.send(&WsOutgoingMessage::Heartbeat);
    let after_two: String = wire.transcript().iter().collect();
    assert!(after_two.starts_with(&after_one));
    assert_eq!(after_two.len(), 2 * after_one.len());
}
