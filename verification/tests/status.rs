use ssh_engine::status::{copy_status, next_status, status_from_label, status_label, SessionEvent};
use ssh_engine::ConnectionStatus;

fn error(text: &str) -> ConnectionStatus {
    ConnectionStatus::Error(text.to_string())
}

#[test]
fn the_way_to_connected_leads_through_connecting() {
    let start = ConnectionStatus::Disconnected;
    let connecting = next_status(&start, SessionEvent::ConnectRequested).unwrap();
    assert_eq!(connecting, ConnectionStatus::Connecting);
    let connected = next_status(&connecting, SessionEvent::Established).unwrap();
    assert_eq!(connected, ConnectionStatus::Connected);
    assert_eq!(next_status(&start, SessionEvent::Established), None);
    assert_eq!(next_status(&error("x"), SessionEvent::Established), None);
    assert_eq!(next_status(&connected, SessionEvent::Established), None);
}

#[test]
fn a_connect_attempt_can_fail() {
    assert_eq!(
        next_status(
            &ConnectionStatus::Connecting,
            SessionEvent::ConnectFailed("auth failed".to_string())
        ),
        Some(error("auth failed"))
    );
    assert_eq!(
        next_status(&ConnectionStatus::Connected, SessionEvent::ConnectFailed("x".to_string())),
        None
    );
}

#[test]
fn a_connected_session_ends_by_disconnect_eof_or_failure() {
    let connected = ConnectionStatus::Connected;
    assert_eq!(
        next_status(&connected, SessionEvent::DisconnectRequested),
        Some(ConnectionStatus::Disconnected)
    );
    assert_eq!(
        next_status(&connected, SessionEvent::RemoteEof),
        Some(ConnectionStatus::Disconnected)
    );
    assert_eq!(
        next_status(&connected, SessionEvent::IoFailed("reset".to_string())),
        Some(error("reset"))
    );
    assert_eq!(next_status(&connected, SessionEvent::ConnectRequested), None);
}

#[test]
fn terminal_states_wait_for_the_caller() {
    for status in [ConnectionStatus::Disconnected, error("x")] {
        assert_eq!(next_status(&status, SessionEvent::RemoteEof), None);
        assert_eq!(next_status(&status, SessionEvent::IoFailed("y".to_string())), None);
        assert_eq!(next_status(&status, SessionEvent::Established), None);
        assert_eq!(next_status(&status, SessionEvent::ConnectFailed("y".to_string())), None);
        assert_eq!(
            next_status(&status, SessionEvent::ConnectRequested),
            Some(ConnectionStatus::Connecting)
        );
        assert_eq!(
            next_status(&status, SessionEvent::DisconnectRequested),
            Some(ConnectionStatus::Disconnected)
        );
    }
}

#[test]
fn a_connect_attempt_is_not_disturbed_by_other_events() {
    let connecting = ConnectionStatus::Connecting;
    assert_eq!(next_status(&connecting, SessionEvent::ConnectRequested), None);
    assert_eq!(next_status(&connecting, SessionEvent::RemoteEof), None);
    assert_eq!(next_status(&connecting, SessionEvent::DisconnectRequested), None);
    assert_eq!(next_status(&connecting, SessionEvent::IoFailed("x".to_string())), None);
}

#[test]
fn labels_of_statuses() {
    assert_eq!(status_label(&ConnectionStatus::Connected), "connected");
    assert_eq!(status_label(&ConnectionStatus::Disconnected), "disconnected");
    assert_eq!(status_label(&ConnectionStatus::Connecting), "connecting");
    assert_eq!(status_label(&error("boom")), "error");
}

#[test]
fn statuses_from_labels() {
    assert_eq!(status_from_label("connecting", Some("x")), ConnectionStatus::Connecting);
    assert_eq!(status_from_label("connected", None), ConnectionStatus::Connected);
    assert_eq!(status_from_label("disconnected", None), ConnectionStatus::Disconnected);
    assert_eq!(status_from_label("error", Some("boom")), error("boom"));
    assert_eq!(status_from_label("error", None), error("Unknown error"));
    assert_eq!(status_from_label("Connected", None), error("Unknown error"));
    assert_eq!(status_from_label("", Some("")), error(""));
}

#[test]
fn a_copy_is_the_same_status() {
    for status in [
        ConnectionStatus::Connected,
        ConnectionStatus::Disconnected,
        ConnectionStatus::Connecting,
        error("boom"),
    ] {
        assert_eq!(copy_status(&status), status);
    }
}
