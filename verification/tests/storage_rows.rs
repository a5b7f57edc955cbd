//! Saved connections and their rows: writing a connection and reading its
//! row back, keyring entry names, and the save plan.

use pgui::ssh::config::{SshAuth, SshConfig};
use pgui::storage::connections::{
    connection_id_text, name_in_use, parse_connection_id, optional_row_to_info, passphrase_update, password_entry_key, plan_save,
    row_for_write, row_to_info, rows_to_infos, ssh_fields_for_write, ssh_keypass_key,
    ConnectionRow, SecretUpdate, StorageError, KEYRING_SERVICE,
};
use pgui::storage::schema::{migrations, probe_sql, SELECT_COLS};
use pgui::storage::types::{ConnectionInfo, DatabaseDriver, SslMode};

fn info(name: &str, driver: DatabaseDriver, port: usize, ssh: Option<SshConfig>) -> ConnectionInfo {
    let mut c = ConnectionInfo::default();
    c.name = name.to_string();
    c.driver = driver;
    c.port = port;
    c.ssh = ssh;
    c
}

fn legacy_row() -> ConnectionRow {
    ConnectionRow {
        id: "00000000-0000-0000-0000-000000000001".to_string(),
        name: "legacy-pg".to_string(),
        driver: "postgres".to_string(),
        hostname: "db.example.com".to_string(),
        username: "alice".to_string(),
        database: "appdb".to_string(),
        port: 5432,
        ssl_mode: "prefer".to_string(),
        ssh_enabled: 0,
        ssh_host: None,
        ssh_port: None,
        ssh_username: None,
        ssh_auth_type: None,
        ssh_key_path: None,
    }
}

#[test]
fn legacy_row_reads_with_defaults() {
    let back = row_to_info(legacy_row()).unwrap();
    assert_eq!(back.id, 1);
    assert_eq!(back.name, "legacy-pg");
    assert_eq!(back.driver, DatabaseDriver::Postgres);
    assert_eq!(back.port, 5432);
    assert_eq!(back.ssl_mode, SslMode::Prefer);
    assert!(back.ssh.is_none(), "legacy row should have no SSH");
    // The password is loaded on demand from the keyring, not from the row.
    assert_eq!(back.password, "");
}

#[test]
fn postgres_without_tunnel_roundtrips_through_its_row() {
    let mut c = info("pg-direct", DatabaseDriver::Postgres, 5432, None);
    c.hostname = "localhost".to_string();
    c.username = "alice".to_string();
    c.password = "supersecret".to_string();
    c.database = "appdb".to_string();
    let row = row_for_write(&c);
    assert_eq!(row.driver, "postgres");
    assert_eq!(row.ssl_mode, "prefer");
    assert_eq!(row.ssh_enabled, 0);
    let back = row_to_info(row).unwrap();
    assert_eq!(back.id, c.id);
    assert_eq!(back.name, "pg-direct");
    assert_eq!(back.hostname, "localhost");
    assert_eq!(back.username, "alice");
    assert_eq!(back.database, "appdb");
    assert_eq!(back.port, 5432);
    assert!(back.ssh.is_none());
    assert!(back.password.is_empty(), "password loaded on-demand, not eagerly");
}

#[test]
fn mysql_with_key_file_tunnel_roundtrips_through_its_row() {
    let ssh = SshConfig {
        host: "bastion.internal".to_string(),
        port: 2222,
        username: "deploy".to_string(),
        auth: SshAuth::KeyFile { path: "/Users/me/.ssh/id_ed25519".to_string() },
    };
    let mut c = info("mysql-via-bastion", DatabaseDriver::MySql, 3306, Some(ssh.clone()));
    c.hostname = "10.0.0.42".to_string();
    let row = row_for_write(&c);
    assert_eq!(row.driver, "mysql");
    assert_eq!(row.ssh_enabled, 1);
    assert_eq!(row.ssh_auth_type.as_deref(), Some("key_file"));
    assert_eq!(row.ssh_key_path.as_deref(), Some("/Users/me/.ssh/id_ed25519"));
    let back = row_to_info(row).unwrap();
    assert_eq!(back.driver, DatabaseDriver::MySql);
    assert_eq!(back.hostname, "10.0.0.42");
    assert_eq!(back.ssh, Some(ssh));
}

#[test]
fn mysql_with_agent_tunnel_roundtrips_through_its_row() {
    let ssh = SshConfig {
        host: "jump.example.com".to_string(),
        port: 22,
        username: "ops".to_string(),
        auth: SshAuth::Agent,
    };
    let c = info("mysql-agent", DatabaseDriver::MySql, 3306, Some(ssh.clone()));
    let row = row_for_write(&c);
    assert_eq!(row.ssh_key_path, None);
    let back = row_to_info(row).unwrap();
    assert_eq!(back.ssh, Some(ssh));
}

#[test]
fn missing_ssh_port_reads_as_22() {
    let mut row = legacy_row();
    row.ssh_enabled = 1;
    row.ssh_host = Some("h".to_string());
    row.ssh_username = Some("u".to_string());
    row.ssh_auth_type = Some("agent".to_string());
    let back = row_to_info(row).unwrap();
    let ssh = back.ssh.unwrap();
    assert_eq!(ssh.port, 22);
    assert_eq!(ssh.auth, SshAuth::Agent);
}

#[test]
fn invalid_uuid_is_rejected() {
    let mut row = legacy_row();
    row.id = "not-a-uuid".to_string();
    let err = row_to_info(row).unwrap_err();
    assert!(matches!(err, StorageError::InvalidUuid));
    assert_eq!(err.message(), "Invalid UUID in database");
}

#[test]
fn loading_stops_at_the_first_bad_row() {
    let good = legacy_row();
    let mut bad = legacy_row();
    bad.id = "x".to_string();
    assert!(rows_to_infos(vec![good.clone(), bad]).is_err());
    let all = rows_to_infos(vec![good.clone(), good]).unwrap();
    assert_eq!(all.len(), 2);
    assert!(optional_row_to_info(None).unwrap().is_none());
    assert!(optional_row_to_info(Some(legacy_row())).unwrap().is_some());
}

#[test]
fn duplicate_name_is_refused_before_writing() {
    let mut c = info("dup", DatabaseDriver::Postgres, 5432, None);
    let err = plan_save(&c, true).unwrap_err();
    assert!(err.message().contains("already exists"), "expected already-exists error, got: {}", err.message());
    assert_eq!(err.message(), "A connection with the name 'dup' already exists");
    c.password = String::new();
    let plan = plan_save(&c, false).unwrap();
    assert!(plan.password.is_none());
    assert_eq!(plan.row.name, "dup");
    c.password = "ephemeral".to_string();
    assert_eq!(plan_save(&c, false).unwrap().password.as_deref(), Some("ephemeral"));
}

#[test]
fn name_counts_decide_whether_a_name_is_taken() {
    assert!(name_in_use(1));
    assert!(!name_in_use(0));
}

#[test]
fn keyring_entries_are_named_after_the_connection() {
    assert_eq!(KEYRING_SERVICE, "pgui");
    assert_eq!(password_entry_key(1), "00000000-0000-0000-0000-000000000001");
    assert_eq!(
        ssh_keypass_key(0xa1a2a3a4b1b2c1c2d1d2d3d4d5d6d7d8),
        "a1a2a3a4-b1b2-c1c2-d1d2-d3d4d5d6d7d8:ssh-keypass"
    );
    assert_ne!(password_entry_key(7), ssh_keypass_key(7));
}

#[test]
fn typed_passphrase_is_stored_and_empty_one_clears() {
    assert!(matches!(passphrase_update(""), SecretUpdate::Clear));
    match passphrase_update("hunter2") {
        SecretUpdate::Store(p) => assert_eq!(p, "hunter2"),
        SecretUpdate::Clear => panic!("expected a stored passphrase"),
    }
}

#[test]
fn agent_tunnel_writes_no_key_path() {
    let cols = ssh_fields_for_write(&Some(SshConfig::default()));
    assert_eq!(cols.ssh_enabled, 1);
    assert_eq!(cols.ssh_port, Some(22));
    assert_eq!(cols.ssh_auth_type.as_deref(), Some("agent"));
    assert!(cols.ssh_key_path.is_none());
    assert_eq!(ssh_fields_for_write(&None).ssh_enabled, 0);
}

#[test]
fn migrations_add_every_later_column() {
    let cols: Vec<&str> = migrations().iter().map(|m| m.column).collect();
    assert_eq!(
        cols,
        vec![
            "ssl_mode",
            "driver",
            "ssh_enabled",
            "ssh_host",
            "ssh_port",
            "ssh_username",
            "ssh_auth_type",
            "ssh_key_path"
        ]
    );
    assert_eq!(probe_sql("ssh_host"), "SELECT ssh_host FROM connections LIMIT 1");
    assert!(SELECT_COLS.starts_with("id, name, driver"));
}

#[test]
fn connection_ids_are_stored_as_hyphenated_uuids() {
    let id: u128 = 0x67e55044_10b1_426f_9247_bb680e5fe0c8;
    let text = connection_id_text(id);
    assert_eq!(text, "67e55044-10b1-426f-9247-bb680e5fe0c8");
    assert_eq!(parse_connection_id(&text), Some(id));
    assert_eq!(parse_connection_id("not a uuid"), None);
}
