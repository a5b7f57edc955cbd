//! The connection lifecycle and the workspace layout that follows it.

use pgui::database::types::QueryExecutionResult;
use pgui::state::connection::{
    needs_stored_password, resolve_password, ConnectionState, ConnectionStatus,
    NO_PASSWORD_MESSAGE,
};
use pgui::storage::types::ConnectionInfo;
use pgui::workspace::layout::{table_columns_error, PanelToggle, Workspace, WorkspaceContent};

#[test]
fn a_typed_password_is_used_as_is() {
    let info = ConnectionInfo::default();
    assert!(!needs_stored_password(&info));
    let r = resolve_password(info, None).unwrap();
    assert_eq!(r.password, "test");
}

#[test]
fn a_missing_password_comes_from_the_keyring() {
    let mut info = ConnectionInfo::default();
    info.password = String::new();
    assert!(needs_stored_password(&info));
    let r = resolve_password(info.clone(), Some("kept".to_string())).unwrap();
    assert_eq!(r.password, "kept");
    let e = resolve_password(info, None).unwrap_err();
    assert_eq!(e, NO_PASSWORD_MESSAGE);
    assert!(e.starts_with("No password on file for this connection. Type one in the form and click Connect"));
}

#[test]
fn connecting_then_losing_the_connection() {
    let mut s = ConnectionState::new();
    assert_eq!(s.connection_state, ConnectionStatus::Disconnected);
    s.connect();
    assert_eq!(s.connection_state, ConnectionStatus::Connecting);
    s.connected(ConnectionInfo::default());
    assert_eq!(s.connection_state, ConnectionStatus::Connected);
    assert!(s.monitor(true));
    assert!(!s.monitor(false));
    assert_eq!(s.connection_state, ConnectionStatus::Disconnected);
    assert!(s.active_connection.is_none());
}

#[test]
fn a_refused_connection_is_reported() {
    let mut s = ConnectionState::new();
    s.connect();
    let m = s.connect_failed("password authentication failed");
    assert_eq!(m, "Connect failed: password authentication failed");
    assert_eq!(s.connection_state, ConnectionStatus::Disconnected);
    assert!(s.active_connection.is_none());
    s.connect();
    assert_eq!(s.password_missing(), NO_PASSWORD_MESSAGE);
    assert_eq!(s.connection_state, ConnectionStatus::Disconnected);
}

#[test]
fn monitoring_stops_when_the_connection_is_closed_elsewhere() {
    let mut s = ConnectionState::new();
    s.connected(ConnectionInfo::default());
    s.begin_disconnect();
    assert_eq!(s.connection_state, ConnectionStatus::Disconnecting);
    assert!(!s.monitor(true));
    s.disconnect_finished(false);
    assert_eq!(s.connection_state, ConnectionStatus::Disconnecting);
    s.disconnect_finished(true);
    assert_eq!(s.connection_state, ConnectionStatus::Disconnected);
}

#[test]
fn changing_database_reopens_the_same_server() {
    let mut s = ConnectionState::new();
    assert!(s.change_database("other".to_string()).is_none());
    s.connected(ConnectionInfo::default());
    let next = s.change_database("analytics".to_string()).unwrap();
    assert_eq!(next.database, "analytics");
    assert_eq!(next.hostname, "localhost");
    assert_eq!(next.id, s.active_connection.as_ref().unwrap().id);
}

#[test]
fn saved_connection_changes_update_the_list() {
    let mut s = ConnectionState::new();
    s.connected(ConnectionInfo::default());
    s.add_connection(vec![ConnectionInfo::default()]);
    assert_eq!(s.saved_connections.len(), 1);
    assert!(s.active_connection.is_none());
    let c = ConnectionInfo::default();
    let id = c.id;
    s.update_connection(vec![], c);
    assert_eq!(s.active_connection.as_ref().map(|c| c.id), Some(id));
    s.delete_connection(vec![ConnectionInfo::default(), ConnectionInfo::default()]);
    assert_eq!(s.saved_connections.len(), 2);
    assert!(s.active_connection.is_some());
}

#[test]
fn the_window_follows_the_connection_phase() {
    let mut w = Workspace::new();
    assert!(w.show_tables && !w.show_agent && !w.show_history);
    assert_eq!(w.content(), WorkspaceContent::ConnectionManager);
    w.observe_connection_state(ConnectionStatus::Connecting);
    assert_eq!(w.content(), WorkspaceContent::Loading);
    w.observe_connection_state(ConnectionStatus::Connected);
    assert_eq!(w.content(), WorkspaceContent::Connected);
    w.observe_connection_state(ConnectionStatus::Disconnecting);
    assert_eq!(w.content(), WorkspaceContent::Loading);
    w.toggle(PanelToggle::Agent(true));
    w.toggle(PanelToggle::Tables(false));
    w.toggle(PanelToggle::History(true));
    assert!(!w.show_tables && w.show_agent && w.show_history);
}

#[test]
fn failing_to_load_columns_is_shown_as_an_error() {
    match table_columns_error("no such table") {
        QueryExecutionResult::Error(e) => {
            assert_eq!(e.message, "Failed to load table columns: no such table");
            assert_eq!(e.execution_time_ms, 0);
        }
        _ => panic!("expected an error"),
    }
}
