//! Driver, SSL mode and connect-option tests for the saved connection types.

use pgui::ssh::config::{SshAuth, SshConfig};
use pgui::storage::types::{ConnectionInfo, DatabaseDriver, SslMode};

// ============================================================================
// DatabaseDriver
// ============================================================================

#[test]
fn database_driver_db_str_roundtrip() {
    for d in DatabaseDriver::all() {
        assert_eq!(DatabaseDriver::from_db_str(d.to_db_str()), d);
    }
    // Unknown values fall back to Postgres for forward-compat.
    assert_eq!(
        DatabaseDriver::from_db_str("future-driver"),
        DatabaseDriver::Postgres
    );
    // Empty string -> Postgres (avoids panicking on legacy rows).
    assert_eq!(DatabaseDriver::from_db_str(""), DatabaseDriver::Postgres);
}

#[test]
fn database_driver_index_roundtrip() {
    for d in DatabaseDriver::all() {
        assert_eq!(DatabaseDriver::from_index(d.to_index()), d);
    }
    // Out-of-range -> Postgres.
    assert_eq!(DatabaseDriver::from_index(99), DatabaseDriver::Postgres);
}

#[test]
fn database_driver_default_ports() {
    assert_eq!(DatabaseDriver::Postgres.default_port(), 5432);
    assert_eq!(DatabaseDriver::MySql.default_port(), 3306);
}

#[test]
fn database_driver_default_is_postgres() {
    assert_eq!(DatabaseDriver::default(), DatabaseDriver::Postgres);
}

#[test]
fn database_driver_select_item_titles() {
    assert_eq!(DatabaseDriver::Postgres.as_str().to_string(), "PostgreSQL");
    assert_eq!(DatabaseDriver::MySql.as_str().to_string(), "MySQL");
}

// ============================================================================
// SslMode
// ============================================================================

#[test]
fn ssl_mode_db_str_roundtrip() {
    for m in SslMode::all() {
        assert_eq!(SslMode::from_db_str(m.to_db_str()), m);
    }
    assert_eq!(SslMode::from_db_str("banana"), SslMode::Prefer);
}

#[test]
fn ssl_mode_index_roundtrip() {
    for m in SslMode::all() {
        assert_eq!(SslMode::from_index(m.to_index()), m);
    }
    assert_eq!(SslMode::from_index(42), SslMode::Prefer);
}

#[test]
fn ssl_mode_pg_mappings_complete() {
    let cases = [
        (SslMode::Disable, "Disable"),
        (SslMode::Prefer, "Prefer"),
        (SslMode::Require, "Require"),
        (SslMode::VerifyCa, "VerifyCa"),
        (SslMode::VerifyFull, "VerifyFull"),
    ];
    for (m, expected) in cases {
        assert_eq!(format!("{:?}", m.to_pg_ssl_mode()), expected);
    }
}

#[test]
fn ssl_mode_mysql_mappings_complete() {
    let cases = [
        (SslMode::Disable, "Disabled"),
        (SslMode::Prefer, "Preferred"),
        (SslMode::Require, "Required"),
        (SslMode::VerifyCa, "VerifyCa"),
        (SslMode::VerifyFull, "VerifyIdentity"),
    ];
    for (m, expected) in cases {
        assert_eq!(format!("{:?}", m.to_mysql_ssl_mode()), expected);
    }
}

// ============================================================================
// ConnectionInfo
// ============================================================================

#[test]
fn connection_info_default_has_no_ssh() {
    let info = ConnectionInfo::default();
    assert!(info.ssh.is_none());
    assert_eq!(info.driver, DatabaseDriver::Postgres);
}

#[test]
fn pg_connect_options_use_overridden_host_port() {
    let mut info = ConnectionInfo::default();
    info.hostname = "db.internal".to_string();
    info.port = 5432;
    let opts = info.to_pg_connect_options_for("127.0.0.1", 49152);
    assert_eq!(opts.get_host(), "127.0.0.1");
    assert_eq!(opts.get_port(), 49152);
}

#[test]
fn mysql_connect_options_use_overridden_host_port() {
    let mut info = ConnectionInfo::default();
    info.driver = DatabaseDriver::MySql;
    info.hostname = "mysql.internal".to_string();
    info.port = 3306;
    info.username = "app".to_string();
    info.database = "appdb".to_string();
    let opts = info.to_mysql_connect_options_for("127.0.0.1", 50001);
    assert_eq!(opts.get_host(), "127.0.0.1");
    assert_eq!(opts.get_port(), 50001);
}

#[test]
fn pg_connect_options_carry_credentials_and_database() {
    let mut info = ConnectionInfo::default();
    info.username = "alice".to_string();
    info.database = "appdb".to_string();
    info.password = "secret".to_string();
    let opts = info.to_pg_connect_options_for("db", 5432);
    assert_eq!(opts.get_username(), "alice");
    assert_eq!(opts.get_database(), Some("appdb"));
}

#[test]
fn empty_database_falls_back_to_server_default_pg() {
    let mut info = ConnectionInfo::default();
    info.database = String::new();
    let opts = info.to_pg_connect_options_for("db", 5432);
    assert_eq!(opts.get_database(), None);
}

#[test]
fn empty_database_falls_back_to_server_default_mysql() {
    let mut info = ConnectionInfo::default();
    info.driver = DatabaseDriver::MySql;
    info.database = String::new();
    let opts = info.to_mysql_connect_options_for("db", 3306);
    assert_eq!(opts.get_database(), None);
}

// ============================================================================
// Further cases
// ============================================================================

#[test]
fn direct_connect_options_use_saved_endpoint() {
    let mut info = ConnectionInfo::default();
    info.hostname = "pg.example".to_string();
    info.port = 6543;
    info.ssl_mode = SslMode::Require;
    let opts = info.to_pg_connect_options();
    assert_eq!(opts.get_host(), "pg.example");
    assert_eq!(opts.get_port(), 6543);
    assert_eq!(format!("{:?}", opts.ssl_mode), "Require");
    let my = info.to_mysql_connect_options();
    assert_eq!(my.get_host(), "pg.example");
    assert_eq!(format!("{:?}", my.ssl_mode), "Required");
}

#[test]
fn connection_info_new_is_postgres_without_tunnel() {
    let info = ConnectionInfo::new(
        "prod".to_string(),
        "db".to_string(),
        "u".to_string(),
        "p".to_string(),
        "d".to_string(),
        5433,
        SslMode::Disable,
    );
    assert_eq!(info.driver, DatabaseDriver::Postgres);
    assert_eq!(info.port, 5433);
    assert!(info.ssh.is_none());
    // A random (version 4) id.
    assert_eq!((info.id >> 76) & 0xf, 4);
}

#[test]
fn connection_info_duplicate_keeps_every_field() {
    let mut info = ConnectionInfo::default();
    info.ssh = Some(SshConfig {
        host: "jump".to_string(),
        port: 2200,
        username: "ops".to_string(),
        auth: SshAuth::KeyFile { path: "/k".to_string() },
    });
    let copy = info.duplicate();
    assert_eq!(copy.id, info.id);
    assert_eq!(copy.name, info.name);
    assert_eq!(copy.ssh, info.ssh);
}

#[test]
fn ssl_mode_titles_and_descriptions() {
    assert_eq!(SslMode::Disable.as_str(), "Disable");
    assert_eq!(SslMode::VerifyFull.to_db_str(), "verify-full");
    assert_eq!(SslMode::default(), SslMode::Prefer);
    assert!(!SslMode::Require.description().is_empty());
}

#[test]
fn default_connection_has_a_random_v4_id() {
    let info = ConnectionInfo::default();
    assert_eq!((info.id >> 76) & 0xf, 4);
}
