//! Tests of the SSH tunnel configuration types.

use pgui::ssh::config::{SshAuth, SshConfig};

#[test]
fn default_port_is_22() {
    assert_eq!(SshConfig::default().port, 22);
}

#[test]
fn default_auth_is_agent() {
    assert!(matches!(SshConfig::default().auth, SshAuth::Agent));
}

#[test]
fn ssh_auth_partial_eq() {
    let a = SshAuth::KeyFile {
        path: "/a".to_string(),
    };
    let b = SshAuth::KeyFile {
        path: "/a".to_string(),
    };
    let c = SshAuth::KeyFile {
        path: "/b".to_string(),
    };
    assert_eq!(a, b);
    assert_ne!(a, c);
    assert_ne!(a, SshAuth::Agent);
}

#[test]
fn ssh_auth_tags() {
    assert_eq!(SshAuth::Agent.as_str(), "agent");
    assert_eq!(SshAuth::KeyFile { path: "/x".to_string() }.as_str(), "key_file");
    assert_eq!(SshAuth::default(), SshAuth::Agent);
}
