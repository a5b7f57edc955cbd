//! The decisions of the SSH tunnel and of the database front door.

use pgui::database::manager::{
    disconnect_outcome, endpoint, needs_tunnel, pool_settings, stream_support, tunnel_target,
    NOT_CONNECTED,
};
use pgui::ssh::config::{SshAuth, SshConfig};
use pgui::ssh::tunnel::{
    key_rejected_message, local_read_step, missing_key_message, remote_read_step,
    server_address, unreachable_server_message, worker_step, worker_thread_name, AcceptOutcome,
    AgentAuth, PipeStep, ReadOutcome, WorkerStep, LISTEN_ADDRESS,
};
use pgui::storage::types::{ConnectionInfo, DatabaseDriver};

#[test]
fn addresses_and_messages() {
    let cfg = SshConfig { host: "bastion".to_string(), port: 2222, username: "deploy".to_string(), auth: SshAuth::Agent };
    assert_eq!(server_address(&cfg), "bastion:2222");
    assert_eq!(worker_thread_name(49152), "ssh-tunnel:49152");
    assert_eq!(LISTEN_ADDRESS, "127.0.0.1:0");
    assert_eq!(unreachable_server_message("bastion:2222"), "Failed to connect to SSH server at bastion:2222");
    assert_eq!(missing_key_message("/k"), "SSH private key not found: /k");
    assert_eq!(
        key_rejected_message("deploy", "/k"),
        "SSH key authentication failed for user 'deploy' using '/k'"
    );
}

#[test]
fn agent_identities_are_tried_until_one_is_accepted() {
    let mut a = AgentAuth::new();
    assert!(!a.record(Err("denied".to_string())));
    assert!(!a.record(Err("still denied".to_string())));
    assert_eq!(a.verdict(3).unwrap_err(), "SSH agent authentication failed: still denied");
    assert!(a.record(Ok(())));
    assert!(a.verdict(3).is_ok());
    assert_eq!(AgentAuth::new().verdict(0).unwrap_err(), "SSH agent has no identities loaded");
    assert_eq!(AgentAuth::new().verdict(1).unwrap_err(), "SSH agent authentication failed");
}

#[test]
fn the_worker_stops_on_shutdown_or_failure() {
    assert_eq!(worker_step(true, &AcceptOutcome::Accepted, false), WorkerStep::Stop);
    assert_eq!(worker_step(false, &AcceptOutcome::Accepted, false), WorkerStep::OpenChannel);
    assert_eq!(worker_step(false, &AcceptOutcome::Accepted, true), WorkerStep::Stop);
    assert_eq!(worker_step(false, &AcceptOutcome::WouldBlock, false), WorkerStep::Wait);
    assert_eq!(worker_step(false, &AcceptOutcome::Failed("x".to_string()), false), WorkerStep::Stop);
}

#[test]
fn pipes_forward_until_either_side_ends() {
    assert_eq!(local_read_step(&ReadOutcome::Data(10)), PipeStep::Forward(10));
    assert_eq!(local_read_step(&ReadOutcome::Data(0)), PipeStep::Finish);
    assert_eq!(local_read_step(&ReadOutcome::WouldBlock), PipeStep::Idle);
    assert_eq!(local_read_step(&ReadOutcome::Failed("reset".to_string())), PipeStep::Fail("reset".to_string()));
    assert_eq!(remote_read_step(&Ok(5), false), PipeStep::Forward(5));
    assert_eq!(remote_read_step(&Ok(0), false), PipeStep::Idle);
    assert_eq!(remote_read_step(&Ok(0), true), PipeStep::Finish);
    assert_eq!(remote_read_step(&Err("closed".to_string()), false), PipeStep::Fail("closed".to_string()));
}

#[test]
fn the_pool_is_opened_on_the_right_endpoint() {
    let mut info = ConnectionInfo::default();
    info.hostname = "db.private".to_string();
    info.port = 5433;
    assert!(!needs_tunnel(&info));
    assert_eq!(endpoint(&info, None), ("db.private".to_string(), 5433));
    assert_eq!(endpoint(&info, Some(40000)), ("127.0.0.1".to_string(), 40000));
    info.port = 70000;
    assert_eq!(tunnel_target(&info), ("db.private".to_string(), 70000usize as u16));
    info.ssh = Some(SshConfig::default());
    assert!(needs_tunnel(&info));
}

#[test]
fn pools_and_missing_pools() {
    assert_eq!(pool_settings(true).max_connections, 1);
    assert_eq!(pool_settings(false).max_connections, 5);
    assert_eq!(pool_settings(false).acquire_timeout_secs, 10);
    assert!(disconnect_outcome(true).is_ok());
    assert_eq!(disconnect_outcome(false).unwrap_err(), "No active database connection to disconnect");
    assert!(stream_support(Some(DatabaseDriver::Postgres)).is_ok());
    assert_eq!(
        stream_support(Some(DatabaseDriver::MySql)).unwrap_err(),
        "Streaming export is not yet implemented for MySQL"
    );
    assert_eq!(stream_support(None).unwrap_err(), NOT_CONNECTED);
}
