use presence_engine::connection::{ConnectionManager, PresenceError, TransportOp};
use presence_engine::fields::{CalendarDate, TimestampMode};
use presence_engine::session::Session;
use presence_engine::timestamp::{resolve_timestamp, SessionClock};

fn today() -> CalendarDate {
    CalendarDate { year: 2021, month: 6, day: 15 }
}

#[test]
fn scenario_connect_with_empty_identity_fails() {
    let session = Session::start(None, today(), 1_000);
    let r = session.connect_begin();
    assert_eq!(r, Err(PresenceError::ConnectionError));
    assert!(!session.connected());
}

#[test]
fn connect_binds_identity_on_successful_handshake() {
    let mut session = Session::start(None, today(), 1_000);
    session.fields.identity = "123".to_string();
    assert_eq!(session.connect_begin(), Ok(()));
    assert_eq!(session.connect_finish(true), Ok(()));
    assert!(session.connected());
}

#[test]
fn failed_handshake_leaves_session_disconnected() {
    let mut session = Session::start(None, today(), 1_000);
    session.fields.identity = "123".to_string();
    assert_eq!(session.connect_begin(), Ok(()));
    assert_eq!(session.connect_finish(false), Err(PresenceError::ConnectionError));
    assert!(!session.connected());
}

#[test]
fn disconnect_fails_open_on_close_failure() {
    let mut session = Session::start(None, today(), 1_000);
    session.fields.identity = "123".to_string();
    session.connect_begin().unwrap();
    session.connect_finish(true).unwrap();
    let r = session.disconnect(false);
    assert_eq!(r, Err(PresenceError::DisconnectionError));
    assert!(!session.connected());
}

#[test]
fn disconnect_succeeds_when_close_succeeds() {
    let mut session = Session::start(None, today(), 1_000);
    session.fields.identity = "123".to_string();
    session.connect_begin().unwrap();
    session.connect_finish(true).unwrap();
    assert_eq!(session.disconnect(true), Ok(()));
    assert!(!session.connected());
}

#[test]
fn scenario_identity_change_closes_once_and_reopens_once() {
    let mut session = Session::start(None, today(), 1_000);
    session.fields.identity = "A".to_string();
    session.connect_begin().unwrap();
    session.connect_finish(true).unwrap();

    session.fields.identity = "B".to_string();
    let plan = session.ensure_identity_plan();
    assert_eq!(plan, vec![TransportOp::Close, TransportOp::Open]);

    // the caller performs the close, then the reopen and its handshake
    session.disconnect(true).unwrap();
    session.connect_finish(true).unwrap();
    assert!(session.connected());
    // a further push needs no reconnect: the handle is bound to "B" now
    assert!(session.ensure_identity_plan().is_empty());
}

#[test]
fn ensure_identity_is_noop_when_identity_matches() {
    // disconnected: nothing to close or reopen, whatever the identity
    let mut session = Session::start(None, today(), 1_000);
    session.fields.identity = "A".to_string();
    assert!(session.ensure_identity_plan().is_empty());

    // connected under the same identity: still a no-op
    session.connect_begin().unwrap();
    session.connect_finish(true).unwrap();
    assert!(session.ensure_identity_plan().is_empty());
}

#[test]
fn successful_send_stamps_last_update() {
    let mut session = Session::start(None, today(), 1_000);
    session.fields.identity = "123".to_string();
    session.connect_begin().unwrap();
    session.connect_finish(true).unwrap();
    assert_eq!(session.clock.last_update_at, 1_000);
    assert_eq!(session.send_finish(5_000, true), Ok(()));
    assert_eq!(session.clock.last_update_at, 5_000);
    assert_eq!(session.clock.session_started_at, 1_000);
    assert!(session.connected());
}

#[test]
fn failed_send_reports_error_and_changes_nothing() {
    let mut session = Session::start(None, today(), 1_000);
    session.fields.identity = "123".to_string();
    session.connect_begin().unwrap();
    session.connect_finish(true).unwrap();
    let r = session.send_finish(5_000, false);
    assert_eq!(r, Err(PresenceError::SendError));
    assert_eq!(session.clock.last_update_at, 1_000);
    assert!(session.connected());
}

#[test]
fn since_last_update_after_send_is_at_least_send_instant() {
    let mut session = Session::start(None, today(), 1_000);
    session.fields.identity = "123".to_string();
    session.connect_begin().unwrap();
    session.connect_finish(true).unwrap();
    let sent_at = 7_777;
    session.send_finish(sent_at, true).unwrap();
    let r = resolve_timestamp(
        TimestampMode::SinceLastUpdate,
        &session.fields.custom_date,
        &session.clock,
        8_000,
        0,
    );
    assert!(r.unwrap() >= sent_at);
}

#[test]
fn manager_alone_tracks_state() {
    let mut mgr = ConnectionManager::new();
    assert!(!mgr.is_connected());
    assert_eq!(mgr.connect_begin(&String::new()), Err(PresenceError::ConnectionError));
    assert_eq!(mgr.connect_begin(&"55".to_string()), Ok(()));
    assert_eq!(mgr.connect_finish("55".to_string(), true), Ok(()));
    assert!(mgr.is_connected());
    let mut clock = SessionClock { session_started_at: 0, last_update_at: 0 };
    assert_eq!(mgr.send_finish(&mut clock, 9, true), Ok(()));
    assert_eq!(clock.last_update_at, 9);
    assert_eq!(mgr.disconnect(true), Ok(()));
    assert!(!mgr.is_connected());
}

#[test]
fn load_preset_is_consumed_one_shot() {
    let mut session = Session::start(None, today(), 1_000);
    session.fields.details = "Coding".to_string();
    let mut preset = presence_engine::preset::PresetRecord {
        identity: None,
        details: None,
        state: None,
        party_size: None,
        party_capacity: None,
        large_image_key: None,
        large_image_label: None,
        small_image_key: None,
        small_image_label: None,
        button1_label: None,
        button1_url: None,
        button2_label: None,
        button2_url: None,
        timestamp_mode: TimestampMode::NoTimestamp,
    };
    preset.state = Some("Idle".to_string());
    session.load_preset(preset);
    assert_eq!(session.fields.state, "Idle");
    assert_eq!(session.fields.details, "Coding");
}
