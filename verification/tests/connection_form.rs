//! The connection form: loading, editing, validating and submitting.

use pgui::ssh::config::{SshAuth, SshConfig};
use pgui::storage::types::{ConnectionInfo, DatabaseDriver, SslMode};
use pgui::workspace::connection_form::{
    parse_port, parse_ssh_port, ConnectionForm, FormError, SshAuthOption,
};

fn filled() -> ConnectionForm {
    let mut f = ConnectionForm::view(None, false);
    f.inputs.name = "prod".to_string();
    f.inputs.hostname = "db".to_string();
    f.inputs.username = "u".to_string();
    f.inputs.password = "p".to_string();
    f
}

fn saved(ssh: Option<SshConfig>) -> ConnectionInfo {
    let mut c = ConnectionInfo::default();
    c.id = 42;
    c.driver = DatabaseDriver::MySql;
    c.port = 3307;
    c.ssh = ssh;
    c
}

#[test]
fn a_new_form_starts_with_the_postgres_port() {
    let f = ConnectionForm::view(None, false);
    assert_eq!(f.driver, DatabaseDriver::Postgres);
    assert_eq!(f.inputs.port, "5432");
    assert_eq!(f.inputs.name, "");
    assert!(!f.ssh_enabled);
    assert_eq!(f.heading(), "Add Connection");
}

#[test]
fn editing_loads_the_connection_and_its_tunnel() {
    let ssh = SshConfig {
        host: "bastion".to_string(),
        port: 2222,
        username: "deploy".to_string(),
        auth: SshAuth::KeyFile { path: "/k".to_string() },
    };
    let f = ConnectionForm::view(Some(saved(Some(ssh))), true);
    assert_eq!(f.driver, DatabaseDriver::MySql);
    assert_eq!(f.inputs.port, "3307");
    assert_eq!(f.inputs.hostname, "localhost");
    assert!(f.ssh_enabled);
    assert_eq!(f.inputs.ssh_port, "2222");
    assert_eq!(f.inputs.ssh_key_path, "/k");
    assert!(f.ssh_passphrase_known);
    assert!(f.shows_key_fields());
    assert_eq!(f.passphrase_hint(), Some("Saved passphrase will be used; type to override."));
    assert_eq!(f.heading(), "Edit Connection");
}

#[test]
fn switching_driver_swaps_an_unedited_port() {
    let mut f = ConnectionForm::view(None, false);
    f.on_driver_change("mysql");
    assert_eq!(f.driver, DatabaseDriver::MySql);
    assert_eq!(f.inputs.port, "3306");
    f.on_driver_change("postgres");
    assert_eq!(f.inputs.port, "5432");
    f.inputs.port = String::new();
    f.on_driver_change("mysql");
    assert_eq!(f.inputs.port, "3306");
}

#[test]
fn switching_driver_keeps_a_typed_port() {
    let mut f = ConnectionForm::view(None, false);
    f.inputs.port = "6000".to_string();
    f.on_driver_change("mysql");
    assert_eq!(f.driver, DatabaseDriver::MySql);
    assert_eq!(f.inputs.port, "6000");
    f.on_driver_change("anything-else");
    assert_eq!(f.driver, DatabaseDriver::Postgres);
    assert_eq!(f.inputs.port, "6000");
}

#[test]
fn missing_fields_are_reported_first() {
    let mut f = filled();
    f.inputs.username = String::new();
    f.inputs.port = "abc".to_string();
    let e = f.get_connection(None).unwrap_err();
    assert_eq!(e, FormError::MissingFields);
    assert_eq!(e.message(), "Not all fields have values. Please try again.");
}

#[test]
fn the_port_must_be_between_1_and_65535() {
    for bad in ["0", "65536", "abc", "-1", "99999999999999999999999"] {
        let mut f = filled();
        f.inputs.port = bad.to_string();
        assert_eq!(f.get_connection(None).unwrap_err(), FormError::InvalidPort, "{}", bad);
    }
    assert_eq!(FormError::InvalidPort.message(), "Invalid port number.");
    assert_eq!(parse_port("65535"), Some(65535));
    assert_eq!(parse_port("+1"), Some(1));
    assert_eq!(parse_port(""), None);
}

#[test]
fn a_valid_form_makes_a_connection() {
    let f = filled();
    let c = f.get_connection(None).unwrap();
    assert_eq!(c.name, "prod");
    assert_eq!(c.hostname, "db");
    assert_eq!(c.password, "p");
    assert_eq!(c.port, 5432);
    assert_eq!(c.database, "");
    assert_eq!(c.ssl_mode, SslMode::Prefer);
    assert_eq!(c.driver, DatabaseDriver::Postgres);
    assert!(c.ssh.is_none());
    assert_eq!((c.id >> 76) & 0xf, 4);
    let fixed = f.build_connection(None, 9).unwrap();
    assert_eq!(fixed.id, 9);
}

#[test]
fn an_edited_connection_keeps_its_id_and_stored_password() {
    let mut f = ConnectionForm::view(Some(saved(None)), false);
    f.inputs.password = String::new();
    assert!(f.needs_stored_password());
    let c = f.get_connection(Some("from-keyring".to_string())).unwrap();
    assert_eq!(c.id, 42);
    assert_eq!(c.password, "from-keyring");
    // Nothing stored and nothing typed: a field is missing.
    assert_eq!(f.get_connection(None).unwrap_err(), FormError::MissingFields);
}

#[test]
fn ssh_section_is_validated_when_enabled() {
    let mut f = filled();
    f.ssh_enabled = true;
    assert_eq!(f.get_connection(None).unwrap_err(), FormError::MissingSshHostOrUser);
    f.inputs.ssh_host = "jump".to_string();
    f.inputs.ssh_username = "ops".to_string();
    f.inputs.ssh_port = "0".to_string();
    assert_eq!(f.get_connection(None).unwrap_err(), FormError::InvalidSshPort);
    f.inputs.ssh_port = String::new();
    f.on_ssh_auth_change("key_file");
    assert_eq!(f.get_connection(None).unwrap_err(), FormError::MissingKeyPath);
    f.inputs.ssh_key_path = "/id".to_string();
    let c = f.get_connection(None).unwrap();
    assert_eq!(
        c.ssh,
        Some(SshConfig {
            host: "jump".to_string(),
            port: 22,
            username: "ops".to_string(),
            auth: SshAuth::KeyFile { path: "/id".to_string() },
        })
    );
    assert_eq!(FormError::MissingKeyPath.message(), "Private key path is required for key-file authentication.");
    assert_eq!(parse_ssh_port(""), Some(22));
    assert_eq!(parse_ssh_port("2200"), Some(2200));
    assert_eq!(parse_ssh_port("70000"), None);
}

#[test]
fn connecting_clears_the_form_and_keeps_the_passphrase_to_store() {
    let mut f = filled();
    f.ssh_enabled = true;
    f.inputs.ssh_host = "jump".to_string();
    f.inputs.ssh_username = "ops".to_string();
    f.ssh_auth = SshAuth::KeyFile { path: String::new() };
    f.inputs.ssh_key_path = "/id".to_string();
    f.inputs.ssh_key_passphrase = "secret".to_string();
    let s = f.connect(None).unwrap();
    assert_eq!(s.ssh_passphrase.as_deref(), Some("secret"));
    assert_eq!(s.connection.name, "prod");
    assert_eq!(f.inputs.name, "");
    assert!(!f.ssh_enabled);
    assert!(f.active_connection.is_none());
}

#[test]
fn a_failed_submission_leaves_the_form_alone() {
    let mut f = filled();
    f.inputs.port = "x".to_string();
    assert!(f.save_connection(None).is_err());
    assert_eq!(f.inputs.name, "prod");
    assert!(f.update_connection(None).is_err());
}

#[test]
fn deleting_hands_back_the_edited_connection() {
    let mut f = ConnectionForm::view(Some(saved(None)), false);
    let c = f.delete_connection().unwrap();
    assert_eq!(c.id, 42);
    assert!(f.active_connection.is_none());
    assert!(f.delete_connection().is_none());
}

#[test]
fn only_one_connection_test_runs_at_a_time() {
    let mut f = filled();
    assert!(matches!(f.test_connection(None), Some(Ok(_))));
    assert!(f.is_testing);
    assert!(f.test_connection(None).is_none());
    let n = f.finish_test(Err("refused".to_string()));
    assert!(!n.success);
    assert_eq!(n.message, "Connection failed: refused");
    assert!(!f.is_testing);
    let n = f.finish_test(Ok(()));
    assert_eq!(n.message, "Connection successful!");
}

#[test]
fn clearing_resets_inputs_and_tunnel() {
    let mut f = ConnectionForm::view(Some(saved(Some(SshConfig::default()))), true);
    f.clear();
    assert_eq!(f.inputs.port, "");
    assert!(!f.ssh_enabled);
    assert_eq!(f.ssh_auth, SshAuth::Agent);
    assert!(!f.ssh_passphrase_known);
    assert!(f.active_connection.is_none());
    assert_eq!(f.driver, DatabaseDriver::MySql);
}

#[test]
fn set_connection_follows_the_driver_and_resets_ssh() {
    let mut f = ConnectionForm::view(None, false);
    f.ssh_enabled = true;
    f.set_connection(saved(None), true);
    assert_eq!(f.driver, DatabaseDriver::MySql);
    assert!(!f.ssh_enabled);
    assert!(!f.ssh_passphrase_known);
    assert_eq!(f.active_connection.as_ref().map(|c| c.id), Some(42));
    assert_eq!(f.inputs.port, "3307");
}

#[test]
fn ssh_auth_choices() {
    assert_eq!(SshAuthOption::all(), vec![SshAuthOption::Agent, SshAuthOption::KeyFile]);
    assert_eq!(SshAuthOption::Agent.label(), "SSH Agent");
    assert_eq!(SshAuthOption::KeyFile.label(), "Private Key File");
    assert_eq!(SshAuthOption::KeyFile.value(), "key_file");
    assert_eq!(SshAuthOption::from_auth(&SshAuth::Agent), SshAuthOption::Agent);
    assert_eq!(SshAuthOption::from_auth(&SshAuth::KeyFile { path: "/p".to_string() }).index(), 1);
}

#[test]
fn a_reopened_connection_submits_unchanged() {
    let mut c = saved(Some(SshConfig {
        host: "jump".to_string(),
        port: 2201,
        username: "ops".to_string(),
        auth: SshAuth::KeyFile { path: "/id".to_string() },
    }));
    c.ssl_mode = SslMode::VerifyFull;
    c.database = "appdb".to_string();
    let f = ConnectionForm::view(Some(c.clone()), false);
    let back = f.get_connection(None).unwrap();
    assert_eq!(back.id, c.id);
    assert_eq!(back.name, c.name);
    assert_eq!(back.driver, c.driver);
    assert_eq!(back.hostname, c.hostname);
    assert_eq!(back.password, c.password);
    assert_eq!(back.database, c.database);
    assert_eq!(back.port, c.port);
    assert_eq!(back.ssh, c.ssh);
    assert_eq!(back.ssl_mode, SslMode::Prefer);
}
