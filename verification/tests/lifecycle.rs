// These tests run without a presence consumer listening on the local IPC
// channel, so every connect attempt fails; that is exactly the environment
// the precondition errors and the failure-path guarantees are about.

use rich_presence::ActivityType;
use rich_presence::DiscordRpcClient;
use rich_presence::PresenceError;
use rich_presence::RichPresenceConfig;
use rich_presence::RichPresenceManager;

fn some_config() -> RichPresenceConfig {
    RichPresenceConfig {
        application_id: None,
        activity_type: ActivityType::Playing,
        details: Some(String::from("Exploring")),
        state: None,
        assets: None,
        timestamps: None,
        buttons: None,
        party: None,
        secrets: None,
    }
}

#[test]
fn new_manager_is_uninitialized() {
    let manager = RichPresenceManager::new();
    assert!(!manager.is_connected());
    assert_eq!(manager.get_app_id(), "");
}

#[test]
fn default_manager_matches_new() {
    let manager = RichPresenceManager::default();
    assert!(!manager.is_connected());
    assert_eq!(manager.get_app_id(), "");
}

#[test]
fn update_presence_before_initialize_fails_not_initialized() {
    let mut manager = RichPresenceManager::new();
    let r = manager.update_presence(&some_config());
    assert!(matches!(r, Err(PresenceError::NotInitialized)));
    assert!(!manager.is_connected());
}

#[test]
fn wrapper_update_presence_before_connect_fails_not_connected() {
    let mut client = DiscordRpcClient::new("123").expect("constructing never fails");
    assert!(!client.is_connected());
    let r = client.update_presence(&some_config());
    assert!(matches!(r, Err(PresenceError::NotConnected)));
    assert!(!client.is_connected());
}

#[test]
fn failed_initialize_still_records_app_id() {
    let mut manager = RichPresenceManager::new();
    let r = manager.initialize("123");
    assert!(matches!(r, Err(PresenceError::Transport(_))));
    assert!(!manager.is_connected());
    assert_eq!(manager.get_app_id(), "123");
}

#[test]
fn initialize_twice_records_latest_app_id() {
    let mut manager = RichPresenceManager::new();
    let _ = manager.initialize("first-app");
    let _ = manager.initialize("second-app");
    assert_eq!(manager.get_app_id(), "second-app");
    assert!(!manager.is_connected());
}

#[test]
fn disconnect_is_idempotent() {
    let mut manager = RichPresenceManager::new();
    assert!(manager.disconnect().is_ok());
    assert!(!manager.is_connected());
    assert!(manager.disconnect().is_ok());
    assert!(!manager.is_connected());
}

#[test]
fn disconnect_after_failed_initialize_is_idempotent() {
    let mut manager = RichPresenceManager::new();
    let _ = manager.initialize("123");
    assert!(manager.disconnect().is_ok());
    assert!(!manager.is_connected());
    assert!(manager.disconnect().is_ok());
    assert!(!manager.is_connected());
    assert_eq!(manager.get_app_id(), "123");
}

#[test]
fn app_id_survives_disconnect() {
    let mut manager = RichPresenceManager::new();
    let _ = manager.initialize("kept-app");
    let _ = manager.disconnect();
    assert_eq!(manager.get_app_id(), "kept-app");
}

#[test]
fn wrapper_disconnect_without_connect_is_a_no_op() {
    let mut client = DiscordRpcClient::new("123").expect("constructing never fails");
    assert!(client.disconnect().is_ok());
    assert!(!client.is_connected());
    assert!(client.disconnect().is_ok());
    assert!(!client.is_connected());
}

#[test]
fn connect_without_consumer_reports_transport_error() {
    let mut client = DiscordRpcClient::new("123").expect("constructing never fails");
    let r = client.connect();
    assert!(matches!(r, Err(PresenceError::Transport(_))));
    assert!(!client.is_connected());
}

#[test]
fn error_descriptions_name_the_failure() {
    assert_eq!(PresenceError::NotConnected.describe(), "client is not connected");
    assert_eq!(PresenceError::NotInitialized.describe(), "client is not initialized");
}
