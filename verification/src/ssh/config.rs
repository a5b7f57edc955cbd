//! SSH connection configuration.
use vstd::prelude::*;

verus! {

/// How to authenticate to the SSH server.
///
/// Only key-based authentication is supported; password auth for SSH
/// itself is out of scope.
#[derive(Debug, Clone, PartialEq)]
pub enum SshAuth {
    /// Authenticate using a private key file. The optional passphrase lives
    /// in the system keyring, not in this value.
    KeyFile { path: String },
    /// Authenticate via the running SSH agent (`SSH_AUTH_SOCK`).
    Agent,
}

impl SshAuth {
    /// The tag used for this variant when it is stored.
    pub open spec fn tag(&self) -> Seq<char> {
        match self {
            SshAuth::KeyFile { .. } => "key_file"@,
            SshAuth::Agent => "agent"@,
        }
    }

    pub fn as_str(&self) -> (s: &'static str)
        ensures
            s@ == self.tag(),
    {
        match self {
            SshAuth::KeyFile { .. } => "key_file",
            SshAuth::Agent => "agent",
        }
    }

    /// A copy of this value with equal fields.
    pub fn duplicate(&self) -> (r: SshAuth)
        ensures
            r == *self,
    {
        match self {
            SshAuth::KeyFile { path } => SshAuth::KeyFile { path: path.clone() },
            SshAuth::Agent => SshAuth::Agent,
        }
    }
}

impl Default for SshAuth {
    fn default() -> (r: Self)
        ensures
            r == SshAuth::Agent,
    {
        SshAuth::Agent
    }
}

/// SSH tunnel configuration. The key passphrase is not stored here; it is
/// loaded from the keyring when the tunnel is opened.
#[derive(Debug, Clone, PartialEq)]
pub struct SshConfig {
    pub host: String,
    pub port: u16,
    pub username: String,
    pub auth: SshAuth,
}

impl SshConfig {
    /// A copy of this value with equal fields.
    pub fn duplicate(&self) -> (r: SshConfig)
        ensures
            r == *self,
    {
        SshConfig {
            host: self.host.clone(),
            port: self.port,
            username: self.username.clone(),
            auth: self.auth.duplicate(),
        }
    }
}

impl Default for SshConfig {
    fn default() -> (r: Self)
        ensures
            r.host@ == Seq::<char>::empty(),
            r.port == 22,
            r.username@ == Seq::<char>::empty(),
            r.auth == SshAuth::Agent,
    {
        SshConfig { host: String::new(), port: 22, username: String::new(), auth: SshAuth::Agent }
    }
}

} // verus!
