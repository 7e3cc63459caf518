//! Tests of the connection registry: registration, replacement, broadcast,
//! deregistration and shutdown.

use wms_api::registry::RegistryError;
use wms_api::registry::WebSocketManager;

#[test]
fn device_reregistration_replaces_and_reports_prior_handle() {
    let mut m = WebSocketManager::new();
    let first = m.new_device_connection(String::from("R1"), 1).unwrap();
    assert_eq!(first, None);
    let second = m.new_device_connection(String::from("R1"), 2).unwrap();
    assert_eq!(second, Some(1));
    assert!(m.has_device_connection("R1"));
    let out = m.send_device_message("R1", "ping").unwrap();
    assert_eq!(out.ws_sender, 2);
    assert_eq!(out.text, "ping");
}

#[test]
fn broadcast_to_unknown_room_reports_no_such_room() {
    let m = WebSocketManager::new();
    let r = m.send_user_message("R9", "payload");
    assert_eq!(r.unwrap_err(), RegistryError::NoSuchRoom);
}

#[test]
fn broadcast_after_last_user_leaves_reports_no_such_room() {
    let mut m = WebSocketManager::new();
    m.new_user_connection(String::from("R1"), String::from("10.0.0.1:1"), 7).unwrap();
    m.remove_user_connection("R1", "10.0.0.1:1").unwrap();
    assert_eq!(m.user_connection_count("R1"), None);
    let r = m.send_user_message("R1", "payload");
    assert_eq!(r.unwrap_err(), RegistryError::NoSuchRoom);
}

#[test]
fn n_registrations_mean_n_deliveries() {
    let mut m = WebSocketManager::new();
    for i in 0..5u64 {
        m.new_user_connection(String::from("R1"), format!("addr-{}", i), 100 + i).unwrap();
    }
    assert_eq!(m.user_connection_count("R1"), Some(5));
    let deliveries = m.send_user_message("R1", "hello").unwrap();
    assert_eq!(deliveries.len(), 5);
    let mut handles: Vec<u64> = deliveries.iter().map(|d| d.ws_sender).collect();
    handles.sort();
    assert_eq!(handles, vec![100, 101, 102, 103, 104]);
    for d in &deliveries {
        assert_eq!(d.text, "hello");
    }
}

#[test]
fn reregistering_same_address_does_not_grow_the_room() {
    let mut m = WebSocketManager::new();
    m.new_user_connection(String::from("R1"), String::from("a"), 1).unwrap();
    m.new_user_connection(String::from("R1"), String::from("a"), 2).unwrap();
    assert_eq!(m.user_connection_count("R1"), Some(1));
    let deliveries = m.send_user_message("R1", "x").unwrap();
    assert_eq!(deliveries.len(), 1);
    assert_eq!(deliveries[0].ws_sender, 2);
}

#[test]
fn deregistering_unknown_entries_reports_not_found_without_panicking() {
    let mut m = WebSocketManager::new();
    assert_eq!(m.remove_user_connection("R1", "a").unwrap_err(), RegistryError::NoSuchRoom);
    m.new_user_connection(String::from("R1"), String::from("a"), 1).unwrap();
    assert_eq!(
        m.remove_user_connection("R1", "b").unwrap_err(),
        RegistryError::NoSuchConnection
    );
    assert_eq!(m.remove_device_connection("R1").unwrap_err(), RegistryError::NoSuchRoom);
}

#[test]
fn shutdown_closes_every_handle_and_refuses_later_operations() {
    let mut m = WebSocketManager::new();
    m.new_device_connection(String::from("R1"), 1).unwrap();
    m.new_user_connection(String::from("R1"), String::from("a"), 2).unwrap();
    m.new_user_connection(String::from("R2"), String::from("b"), 3).unwrap();
    let mut handles = m.shutdown();
    handles.sort();
    assert_eq!(handles, vec![1, 2, 3]);
    assert!(m.is_shut_down());
    assert_eq!(
        m.new_device_connection(String::from("R1"), 9).unwrap_err(),
        RegistryError::Closed
    );
    assert_eq!(
        m.new_user_connection(String::from("R1"), String::from("c"), 9).unwrap_err(),
        RegistryError::Closed
    );
    assert_eq!(m.send_user_message("R1", "x").unwrap_err(), RegistryError::Closed);
    assert_eq!(m.send_device_message("R1", "x").unwrap_err(), RegistryError::Closed);
}

#[test]
fn removing_one_user_session_leaves_the_other_reachable() {
    let mut m = WebSocketManager::new();
    m.new_user_connection(String::from("R1"), String::from("u1a"), 11).unwrap();
    m.new_user_connection(String::from("R1"), String::from("u1b"), 12).unwrap();
    let both = m.send_user_message("R1", "first").unwrap();
    assert_eq!(both.len(), 2);
    m.remove_user_connection("R1", "u1a").unwrap();
    let rest = m.send_user_message("R1", "second").unwrap();
    assert_eq!(rest.len(), 1);
    assert_eq!(rest[0].ws_sender, 12);
    assert_eq!(rest[0].addr, "u1b");
    assert_eq!(rest[0].text, "second");
}

#[test]
fn a_replaced_device_session_cannot_evict_its_replacement() {
    let mut m = WebSocketManager::new();
    m.new_device_connection(String::from("R1"), 1).unwrap();
    m.new_device_connection(String::from("R1"), 2).unwrap();
    // The first session tears down late; the slot now belongs to handle 2.
    assert_eq!(
        m.remove_own_device_connection("R1", 1).unwrap_err(),
        RegistryError::NoSuchConnection
    );
    assert!(m.has_device_connection("R1"));
    m.remove_own_device_connection("R1", 2).unwrap();
    assert!(!m.has_device_connection("R1"));
    assert_eq!(
        m.remove_own_device_connection("R1", 2).unwrap_err(),
        RegistryError::NoSuchRoom
    );
}

#[test]
fn send_to_missing_device_reports_no_such_room() {
    let m = WebSocketManager::new();
    assert_eq!(m.send_device_message("R1", "x").unwrap_err(), RegistryError::NoSuchRoom);
}

#[test]
fn registry_error_descriptions() {
    assert_eq!(RegistryError::Closed.describe(), "the registry is shut down");
    assert_eq!(
        RegistryError::NoSuchRoom.describe(),
        "there's no recorded web socket connection with that ID"
    );
    assert_eq!(
        RegistryError::NoSuchConnection.describe(),
        "there's no user data with that address in this room"
    );
}
