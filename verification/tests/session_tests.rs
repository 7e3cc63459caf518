//! Tests of the session state machine, from handshake gate to broadcast:
//! frame parsing, the unauthorized paths, and the device-to-users relay.

use wms_api::handshake::handle_websocket_header_inspection;
use wms_api::model::Connection;
use wms_api::model::Device;
use wms_api::model::Timestamp;
use wms_api::model::User;
use wms_api::registry::WebSocketManager;
use wms_api::session::parse_data_frame;
use wms_api::session::step;
use wms_api::session::DisconnectKind;
use wms_api::session::Identity;
use wms_api::session::IdentityKind;
use wms_api::session::ResolveOutcome;
use wms_api::session::SessionAction;
use wms_api::session::SessionCloseCode;
use wms_api::session::SessionEvent;
use wms_api::session::SessionPhase;
use wms_api::session::TopologyOutcome;

fn sample_time() -> Timestamp {
    Timestamp { year: 2024, month: 3, day: 9, hour: 8, minute: 5, second: 30 }
}

fn sample_device(id: &str, token: &str) -> Device {
    Device { id: id.to_string(), created_at: sample_time(), access_token: token.to_string() }
}

fn sample_user(id: &str, token: &str) -> User {
    User {
        id: id.to_string(),
        username: Some("someone".to_string()),
        password: None,
        email: "someone@example.com".to_string(),
        verification_token: None,
        access_token: Some(token.to_string()),
        created_at: sample_time(),
        access_token_expire: None,
    }
}

fn membership(room: &str, user: &str, device: &str) -> Connection {
    Connection {
        room_id: room.to_string(),
        user_id: user.to_string(),
        device_id: device.to_string(),
    }
}

#[test]
fn data_frame_parsing() {
    assert_eq!(parse_data_frame("data:42.5").unwrap(), "42.5");
    assert_eq!(parse_data_frame("data:a:b").unwrap(), "a");
    assert_eq!(parse_data_frame("data:").unwrap(), "");
    assert_eq!(parse_data_frame("database:x").unwrap(), "x");
    assert!(parse_data_frame("data").is_none());
    assert!(parse_data_frame("hello").is_none());
    assert!(parse_data_frame("dat:x").is_none());
    assert!(parse_data_frame("").is_none());
}

#[test]
fn rejected_header_closes_before_any_upgrade() {
    let headers = vec![("cookie".to_string(), "theme=dark".to_string())];
    let outcome = handle_websocket_header_inspection(&headers);
    let rejection = match outcome {
        Err(r) => r,
        Ok(_) => panic!("a cookie without a token must be rejected"),
    };
    assert_eq!(rejection.status, 401);
    let (phase, action) = step(
        SessionPhase::Connecting,
        SessionEvent::HeaderInspected { outcome: Err(rejection) },
    );
    assert!(matches!(phase, SessionPhase::Closed));
    match action {
        SessionAction::RejectUpgrade { rejection } => {
            assert_eq!(rejection.status, 401);
            assert_eq!(rejection.body, "No Token Provided!");
        },
        _ => panic!("the connection must be rejected, nothing else"),
    }
}

#[test]
fn unknown_token_closes_with_policy_violation_before_the_read_loop() {
    let (phase, action) = step(
        SessionPhase::Authenticating { access_token: "nobody".to_string() },
        SessionEvent::IdentityResolved { outcome: ResolveOutcome::NotFound },
    );
    assert!(matches!(phase, SessionPhase::Closed));
    match action {
        SessionAction::CloseConnection { directive } => {
            assert_eq!(directive.code, SessionCloseCode::Policy);
            assert_eq!(directive.reason, "You're unauthorized");
        },
        _ => panic!("an unknown token must close the connection"),
    }
}

#[test]
fn resolver_fault_closes_with_the_generic_error_code() {
    let (phase, action) = step(
        SessionPhase::Authenticating { access_token: "t".to_string() },
        SessionEvent::IdentityResolved { outcome: ResolveOutcome::Fault },
    );
    assert!(matches!(phase, SessionPhase::Closed));
    match action {
        SessionAction::CloseConnection { directive } => {
            assert_eq!(directive.code, SessionCloseCode::Error);
            assert_eq!(directive.reason, "There's an unexpected error");
        },
        _ => panic!("a resolver fault must close the connection"),
    }
}

#[test]
fn empty_membership_set_is_unauthorized() {
    let identity = Identity::User(sample_user("u1", "U1"));
    let (phase, action) = step(
        SessionPhase::ResolvingTopology { identity },
        SessionEvent::TopologyReturned {
            outcome: TopologyOutcome::Memberships { connections: vec![] },
        },
    );
    assert!(matches!(phase, SessionPhase::Closed));
    match action {
        SessionAction::CloseConnection { directive } => {
            assert_eq!(directive.code, SessionCloseCode::Policy);
            assert_eq!(directive.reason, "You're unauthorized");
        },
        _ => panic!("an empty membership set must close the connection"),
    }
}

#[test]
fn device_data_frame_reaches_the_room_user() {
    // The device D1 and the user U1 both belong to room R1.
    let mut registry = WebSocketManager::new();

    // The device connects: gate, upgrade, resolution, registration.
    let device_headers = vec![("cookie".to_string(), "access_token=D1".to_string())];
    let device_token = handle_websocket_header_inspection(&device_headers).unwrap();
    assert_eq!(device_token, "D1");
    let (phase, action) = step(
        SessionPhase::Connecting,
        SessionEvent::HeaderInspected { outcome: Ok(device_token) },
    );
    assert!(matches!(action, SessionAction::ProceedUpgrade));
    let (phase, action) = step(phase, SessionEvent::UpgradeCompleted);
    match &action {
        SessionAction::ResolveIdentity { access_token } => assert_eq!(access_token, "D1"),
        _ => panic!("the resolver must be queried after the upgrade"),
    }
    let (phase, _) = step(
        phase,
        SessionEvent::IdentityResolved {
            outcome: ResolveOutcome::Found { identity: Identity::Device(sample_device("dev-1", "D1")) },
        },
    );
    let (phase, action) = step(
        phase,
        SessionEvent::TopologyReturned {
            outcome: TopologyOutcome::Memberships {
                connections: vec![membership("R1", "u1", "dev-1")],
            },
        },
    );
    let device_handle: u64 = 1;
    match action {
        SessionAction::Register { kind, rooms } => {
            assert_eq!(kind, IdentityKind::Device);
            assert_eq!(rooms, vec!["R1".to_string()]);
            for room in rooms {
                registry.new_device_connection(room, device_handle).unwrap();
            }
        },
        _ => panic!("a non-empty topology must register the device"),
    }
    let (device_phase, _) = step(phase, SessionEvent::RegistrationCompleted);

    // The user connects the same way.
    let user_headers = vec![("cookie".to_string(), "access_token=U1".to_string())];
    let user_token = handle_websocket_header_inspection(&user_headers).unwrap();
    let (phase, _) = step(
        SessionPhase::Connecting,
        SessionEvent::HeaderInspected { outcome: Ok(user_token) },
    );
    let (phase, _) = step(phase, SessionEvent::UpgradeCompleted);
    let (phase, _) = step(
        phase,
        SessionEvent::IdentityResolved {
            outcome: ResolveOutcome::Found { identity: Identity::User(sample_user("u1", "U1")) },
        },
    );
    let (phase, action) = step(
        phase,
        SessionEvent::TopologyReturned {
            outcome: TopologyOutcome::Memberships {
                connections: vec![membership("R1", "u1", "dev-1")],
            },
        },
    );
    let user_handle: u64 = 2;
    let user_addr = "127.0.0.1:50000".to_string();
    match action {
        SessionAction::Register { kind, rooms } => {
            assert_eq!(kind, IdentityKind::User);
            for room in rooms {
                registry.new_user_connection(room, user_addr.clone(), user_handle).unwrap();
            }
        },
        _ => panic!("a non-empty topology must register the user"),
    }
    let (_user_phase, _) = step(phase, SessionEvent::RegistrationCompleted);

    // The device sends a data frame; the payload must reach the user.
    let (_, action) = step(
        device_phase,
        SessionEvent::TextFrameReceived { text: "data:42.5".to_string() },
    );
    match action {
        SessionAction::Broadcast { rooms, payload } => {
            assert_eq!(rooms, vec!["R1".to_string()]);
            assert_eq!(payload, "42.5");
            let mut received = Vec::new();
            for room in rooms {
                for delivery in registry.send_user_message(&room, &payload).unwrap() {
                    received.push(delivery);
                }
            }
            assert_eq!(received.len(), 1);
            assert_eq!(received[0].ws_sender, user_handle);
            assert_eq!(received[0].text, "42.5");
        },
        _ => panic!("a device data frame must be broadcast"),
    }
}

#[test]
fn user_frames_and_unrecognized_device_frames_are_only_observed() {
    let identity = Identity::User(sample_user("u1", "U1"));
    let ms = vec![membership("R1", "u1", "dev-1")];
    let (phase, action) = step(
        SessionPhase::Active { identity, memberships: ms },
        SessionEvent::TextFrameReceived { text: "data:9".to_string() },
    );
    assert!(matches!(action, SessionAction::Observe));
    let (_, action) = step(
        phase,
        SessionEvent::TextFrameReceived { text: "hello".to_string() },
    );
    assert!(matches!(action, SessionAction::Observe));

    let identity = Identity::Device(sample_device("dev-1", "D1"));
    let ms = vec![membership("R1", "u1", "dev-1")];
    let (_, action) = step(
        SessionPhase::Active { identity, memberships: ms },
        SessionEvent::TextFrameReceived { text: "telemetry".to_string() },
    );
    assert!(matches!(action, SessionAction::Observe));
}

#[test]
fn transport_end_deregisters_and_finishes() {
    let identity = Identity::Device(sample_device("dev-1", "D1"));
    let ms = vec![membership("R1", "u1", "dev-1")];
    let (phase, action) = step(
        SessionPhase::Active { identity, memberships: ms },
        SessionEvent::TransportEnded { kind: DisconnectKind::Expected },
    );
    assert!(matches!(phase, SessionPhase::Closing));
    match action {
        SessionAction::Deregister { kind, rooms } => {
            assert_eq!(kind, IdentityKind::Device);
            assert_eq!(rooms, vec!["R1".to_string()]);
        },
        _ => panic!("the session must deregister its rooms on transport end"),
    }
    let (phase, action) = step(phase, SessionEvent::DeregistrationCompleted);
    assert!(matches!(phase, SessionPhase::Closed));
    assert!(matches!(action, SessionAction::Finished));
}

#[test]
fn unexpected_events_abandon_the_connection() {
    let (phase, action) = step(SessionPhase::Connecting, SessionEvent::RegistrationCompleted);
    assert!(matches!(phase, SessionPhase::Closed));
    assert!(matches!(action, SessionAction::AbandonConnection));
    let (phase, action) = step(SessionPhase::Closed, SessionEvent::UpgradeCompleted);
    assert!(matches!(phase, SessionPhase::Closed));
    assert!(matches!(action, SessionAction::AbandonConnection));
}
