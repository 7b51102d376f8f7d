use mpd_bot::mpd_client::{operation_course, reconnect_needed, MpdClient, MpdError, OperationCourse};
use mpd_bot::voice::VoiceBridge;

#[test]
fn reconnect_only_after_two_failed_probes() {
    assert!(!reconnect_needed(true, true));
    assert!(!reconnect_needed(true, false));
    assert!(!reconnect_needed(false, true));
    assert!(reconnect_needed(false, false));
}

#[test]
fn one_reconnect_attempt_per_operation() {
    // any probe alive: no reconnect
    assert_eq!(operation_course(true, true, false), OperationCourse::Direct);
    assert_eq!(operation_course(false, true, false), OperationCourse::Direct);
    // two dead probes: exactly one reconnect attempt before the operation
    assert_eq!(
        operation_course(false, false, true),
        OperationCourse::ReconnectFirst
    );
    // and a failed reconnect fails the operation
    assert_eq!(
        operation_course(false, false, false),
        OperationCourse::FailConnection
    );
}

#[test]
fn connect_against_no_address_fails_with_connection_error() {
    match MpdClient::connect(String::new()) {
        Err(MpdError::Connection) => {}
        _ => panic!("an empty address cannot open a session"),
    }
}

#[test]
fn voice_sessions_are_one_per_guild() {
    let mut bridge = VoiceBridge::new();
    assert!(!bridge.has_session(7));
    assert_eq!(bridge.session_channel(7), None);

    bridge.record_join(7, 100);
    assert!(bridge.has_session(7));
    assert_eq!(bridge.session_channel(7), Some(100));
    assert!(!bridge.has_session(8));

    // a later join replaces the guild's session rather than adding one
    bridge.record_join(7, 200);
    assert_eq!(bridge.session_channel(7), Some(200));

    bridge.record_quit(7);
    assert!(!bridge.has_session(7));

    // quitting without a session is harmless
    bridge.record_quit(7);
    assert!(!bridge.has_session(7));
}
