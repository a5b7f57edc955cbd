//! The connection form: what the user has typed, and how it becomes a
//! validated [`ConnectionInfo`].
//!
//! Layout of the form:
//! 1. Driver selector (Postgres / MySQL); switching it swaps the port to the
//!    new driver's default unless the user typed a port of their own.
//! 2. Standard fields (name, host, port, user, password, database).
//! 3. Optional SSH tunnel section (toggle, host/port/user, authentication).
use vstd::prelude::*;
use crate::ssh::config::{SshAuth, SshConfig};
use crate::storage::types::{ConnectionInfo, DatabaseDriver, SslMode, new_uuid_v4};
use crate::storage::connections::same_ssh;
use crate::text::{
    concat, decimal, decimal_text, lemma_parse_decimal, parse_usize, parse_usize_spec, str_eq,
};

verus! {

/// Events the form reports to whoever embeds it.
pub enum ConnectionSavedEvent {
    ConnectionSaved,
    ConnectionSavedError { error: String },
}

/// The two choices of the SSH authentication selector.
#[derive(Debug, Clone, Copy, PartialEq, Eq, Structural)]
pub enum SshAuthOption {
    Agent,
    KeyFile,
}

impl SshAuthOption {
    pub open spec fn label_of(self) -> Seq<char> {
        match self {
            SshAuthOption::Agent => "SSH Agent"@,
            SshAuthOption::KeyFile => "Private Key File"@,
        }
    }

    pub open spec fn value_of(self) -> Seq<char> {
        match self {
            SshAuthOption::Agent => "agent"@,
            SshAuthOption::KeyFile => "key_file"@,
        }
    }

    /// The text shown for this choice.
    pub fn label(&self) -> (s: &'static str)
        ensures
            s@ == self.label_of(),
    {
        match self {
            SshAuthOption::Agent => "SSH Agent",
            SshAuthOption::KeyFile => "Private Key File",
        }
    }

    /// The value the selector reports for this choice.
    pub fn value(&self) -> (s: &'static str)
        ensures
            s@ == self.value_of(),
    {
        match self {
            SshAuthOption::Agent => "agent",
            SshAuthOption::KeyFile => "key_file",
        }
    }

    /// All choices, in the order the selector lists them.
    pub fn all() -> (v: Vec<SshAuthOption>)
        ensures
            v@ == seq![SshAuthOption::Agent, SshAuthOption::KeyFile],
    {
        vec![SshAuthOption::Agent, SshAuthOption::KeyFile]
    }

    /// The choice matching an authentication method.
    pub fn from_auth(auth: &SshAuth) -> (o: Self)
        ensures
            (o is Agent) == (*auth is Agent),
    {
        match auth {
            SshAuth::Agent => SshAuthOption::Agent,
            SshAuth::KeyFile { .. } => SshAuthOption::KeyFile,
        }
    }

    /// The choice's position in [`SshAuthOption::all`].
    pub fn index(&self) -> (i: usize)
        ensures
            i == (if *self is Agent { 0usize } else { 1usize }),
    {
        match self {
            SshAuthOption::Agent => 0,
            SshAuthOption::KeyFile => 1,
        }
    }
}

/// Why the form's contents do not make a connection.
#[derive(Debug, Clone, Copy, PartialEq, Eq, Structural)]
pub enum FormError {
    /// A required field (name, host, user, password, port) is empty.
    MissingFields,
    /// The port is not a number from 1 to 65535.
    InvalidPort,
    /// SSH is enabled but its host or user is empty.
    MissingSshHostOrUser,
    /// The SSH port is neither empty nor a number from 1 to 65535.
    InvalidSshPort,
    /// Key-file authentication is chosen but no key path was given.
    MissingKeyPath,
}

impl FormError {
    pub open spec fn message_of(self) -> Seq<char> {
        match self {
            FormError::MissingFields => "Not all fields have values. Please try again."@,
            FormError::InvalidPort => "Invalid port number."@,
            FormError::MissingSshHostOrUser =>
                "SSH host and username are required when SSH is enabled."@,
            FormError::InvalidSshPort => "Invalid SSH port."@,
            FormError::MissingKeyPath =>
                "Private key path is required for key-file authentication."@,
        }
    }

    /// The notification shown for this error.
    pub fn message(&self) -> (s: &'static str)
        ensures
            s@ == self.message_of(),
    {
        match self {
            FormError::MissingFields => "Not all fields have values. Please try again.",
            FormError::InvalidPort => "Invalid port number.",
            FormError::MissingSshHostOrUser =>
                "SSH host and username are required when SSH is enabled.",
            FormError::InvalidSshPort => "Invalid SSH port.",
            FormError::MissingKeyPath =>
                "Private key path is required for key-file authentication.",
        }
    }
}

/// The database port typed as `s`: a number from 1 to 65535.
pub open spec fn port_value(s: Seq<char>) -> Option<usize> {
    match parse_usize_spec(s) {
        Some(n) => if 1 <= n <= 65535 { Some(n) } else { None },
        None => None,
    }
}

/// The SSH port typed as `s`: 22 when empty, else a number from 1 to 65535.
pub open spec fn ssh_port_value(s: Seq<char>) -> Option<u16> {
    if s.len() == 0 {
        Some(22u16)
    } else {
        match port_value(s) {
            Some(n) => Some(n as u16),
            None => None,
        }
    }
}

/// A port typed as the decimal digits of a number is accepted exactly when
/// the number is from 1 to 65535; an empty SSH port means 22.
pub proof fn lemma_port_text_accepted(n: usize)
    ensures
        port_value(decimal(n as nat)) == (if 1 <= n <= 65535 {
            Some(n)
        } else {
            None
        }),
        1 <= n <= 65535 ==> ssh_port_value(decimal(n as nat)) == Some(n as u16),
        ssh_port_value(Seq::empty()) == Some(22u16),
{
    lemma_parse_decimal(n);
}

/// Parses a port typed into the form.
pub fn parse_port(s: &str) -> (r: Option<usize>)
    ensures
        r == port_value(s@),
{
    match parse_usize(s) {
        Some(n) => if 1 <= n && n <= 65535 { Some(n) } else { None },
        None => None,
    }
}

/// Parses the SSH port typed into the form.
pub fn parse_ssh_port(s: &str) -> (r: Option<u16>)
    ensures
        r == ssh_port_value(s@),
{
    if s.is_empty() {
        Some(22)
    } else {
        match parse_port(s) {
            Some(n) => Some(n as u16),
            None => None,
        }
    }
}

/// The text of every input of the form.
#[derive(Debug, Clone)]
pub struct FormInputs {
    pub name: String,
    pub hostname: String,
    pub username: String,
    pub password: String,
    pub database: String,
    pub port: String,
    pub ssh_host: String,
    pub ssh_port: String,
    pub ssh_username: String,
    pub ssh_key_path: String,
    pub ssh_key_passphrase: String,
}

impl FormInputs {
    /// Every input empty.
    pub open spec fn all_empty(self) -> bool {
        &&& self.name@.len() == 0
        &&& self.hostname@.len() == 0
        &&& self.username@.len() == 0
        &&& self.password@.len() == 0
        &&& self.database@.len() == 0
        &&& self.port@.len() == 0
        &&& self.ssh_host@.len() == 0
        &&& self.ssh_port@.len() == 0
        &&& self.ssh_username@.len() == 0
        &&& self.ssh_key_path@.len() == 0
        &&& self.ssh_key_passphrase@.len() == 0
    }

    /// A form with every input empty.
    pub fn empty() -> (f: Self)
        ensures
            f.all_empty(),
    {
        FormInputs {
            name: String::new(),
            hostname: String::new(),
            username: String::new(),
            password: String::new(),
            database: String::new(),
            port: String::new(),
            ssh_host: String::new(),
            ssh_port: String::new(),
            ssh_username: String::new(),
            ssh_key_path: String::new(),
            ssh_key_passphrase: String::new(),
        }
    }
}

/// What the user typed for the password, or, when that is empty and an
/// existing connection is being edited, the password stored for it.
pub open spec fn effective_password(
    typed: Seq<char>,
    editing: bool,
    stored: Option<String>,
) -> Seq<char> {
    if typed.len() > 0 {
        typed
    } else if editing {
        match stored {
            Some(p) => p@,
            None => Seq::empty(),
        }
    } else {
        typed
    }
}

/// The state of the connection form.
#[derive(Debug, Clone)]
pub struct ConnectionForm {
    pub inputs: FormInputs,
    pub driver: DatabaseDriver,
    pub ssh_enabled: bool,
    /// The chosen SSH authentication. For key files, the path used when
    /// connecting is the one in `inputs.ssh_key_path`.
    pub ssh_auth: SshAuth,
    /// Set when editing a connection whose key passphrase is already in
    /// the keyring; then it need not be typed again.
    pub ssh_passphrase_known: bool,
    pub active_connection: Option<ConnectionInfo>,
    pub is_testing: bool,
}

impl ConnectionForm {
    /// The SSH section's validation error, if SSH is enabled and it has one.
    pub open spec fn ssh_error(self) -> Option<FormError> {
        if !self.ssh_enabled {
            None
        } else if self.inputs.ssh_host@.len() == 0 || self.inputs.ssh_username@.len() == 0 {
            Some(FormError::MissingSshHostOrUser)
        } else if ssh_port_value(self.inputs.ssh_port@) is None {
            Some(FormError::InvalidSshPort)
        } else if self.ssh_auth is KeyFile && self.inputs.ssh_key_path@.len() == 0 {
            Some(FormError::MissingKeyPath)
        } else {
            None
        }
    }

    /// `c` is the tunnel configuration the SSH section describes.
    pub open spec fn ssh_built(self, c: SshConfig) -> bool {
        &&& c.host@ == self.inputs.ssh_host@
        &&& ssh_port_value(self.inputs.ssh_port@) == Some(c.port)
        &&& c.username@ == self.inputs.ssh_username@
        &&& match c.auth {
            SshAuth::Agent => self.ssh_auth is Agent,
            SshAuth::KeyFile { path } => self.ssh_auth is KeyFile && path@
                == self.inputs.ssh_key_path@,
        }
    }

    /// The password the form submits, given the one stored for the
    /// connection being edited.
    pub open spec fn password_for(self, stored: Option<String>) -> Seq<char> {
        effective_password(self.inputs.password@, self.active_connection is Some, stored)
    }

    /// The form's validation error, if any, in the order the checks run.
    pub open spec fn connection_error(self, stored: Option<String>) -> Option<FormError> {
        if self.inputs.name@.len() == 0 || self.inputs.hostname@.len() == 0
            || self.inputs.username@.len() == 0 || self.password_for(stored).len() == 0
            || self.inputs.port@.len() == 0 {
            Some(FormError::MissingFields)
        } else if port_value(self.inputs.port@) is None {
            Some(FormError::InvalidPort)
        } else {
            self.ssh_error()
        }
    }

    /// `c` is the connection the form describes, apart from its id.
    pub open spec fn built(self, stored: Option<String>, c: ConnectionInfo) -> bool {
        &&& c.name@ == self.inputs.name@
        &&& c.driver == self.driver
        &&& c.hostname@ == self.inputs.hostname@
        &&& c.username@ == self.inputs.username@
        &&& c.password@ == self.password_for(stored)
        &&& c.database@ == self.inputs.database@
        &&& port_value(self.inputs.port@) == Some(c.port)
        &&& c.ssl_mode == SslMode::Prefer
        &&& match c.ssh {
            None => !self.ssh_enabled,
            Some(t) => self.ssh_enabled && self.ssh_built(t),
        }
    }

    /// The tunnel configuration of the SSH section: `None` when SSH is off.
    pub fn build_ssh_config(&self) -> (r: Result<Option<SshConfig>, FormError>)
        ensures
            match r {
                Ok(None) => !self.ssh_enabled,
                Ok(Some(c)) => self.ssh_enabled && self.ssh_error() is None && self.ssh_built(c),
                Err(e) => self.ssh_error() == Some(e),
            },
            self.ssh_error() is None ==> r is Ok,
    {
        if !self.ssh_enabled {
            return Ok(None);
        }
        if self.inputs.ssh_host.as_str().is_empty() || self.inputs.ssh_username.as_str().is_empty() {
            return Err(FormError::MissingSshHostOrUser);
        }
        let port = match parse_ssh_port(self.inputs.ssh_port.as_str()) {
            Some(p) => p,
            None => {
                return Err(FormError::InvalidSshPort);
            },
        };
        let auth = match &self.ssh_auth {
            SshAuth::Agent => SshAuth::Agent,
            SshAuth::KeyFile { .. } => {
                if self.inputs.ssh_key_path.as_str().is_empty() {
                    return Err(FormError::MissingKeyPath);
                }
                SshAuth::KeyFile { path: self.inputs.ssh_key_path.clone() }
            },
        };
        Ok(
            Some(
                SshConfig {
                    host: self.inputs.ssh_host.clone(),
                    port,
                    username: self.inputs.ssh_username.clone(),
                    auth,
                },
            ),
        )
    }

    /// Whether submitting needs the password stored for the connection
    /// being edited: the password input is empty and a connection is open
    /// in the form.
    pub fn needs_stored_password(&self) -> (b: bool)
        ensures
            b == (self.inputs.password@.len() == 0 && self.active_connection is Some),
    {
        self.inputs.password.as_str().is_empty() && self.active_connection.is_some()
    }

    /// The connection the form describes, with the given id. `stored` is
    /// the password kept for the connection being edited, consulted only
    /// when the password input is empty.
    pub fn build_connection(&self, stored: Option<String>, id: u128) -> (r: Result<
        ConnectionInfo,
        FormError,
    >)
        ensures
            match r {
                Ok(c) => self.connection_error(stored) is None && self.built(stored, c) && c.id
                    == id,
                Err(e) => self.connection_error(stored) == Some(e),
            },
    {
        let password = if self.inputs.password.as_str().is_empty() {
            if self.active_connection.is_some() {
                match stored {
                    Some(p) => p,
                    None => String::new(),
                }
            } else {
                self.inputs.password.clone()
            }
        } else {
            self.inputs.password.clone()
        };
        assert(password@ == self.password_for(stored));
        if self.inputs.name.as_str().is_empty() || self.inputs.hostname.as_str().is_empty()
            || self.inputs.username.as_str().is_empty() || password.as_str().is_empty()
            || self.inputs.port.as_str().is_empty() {
            return Err(FormError::MissingFields);
        }
        let port = match parse_port(self.inputs.port.as_str()) {
            Some(p) => p,
            None => {
                return Err(FormError::InvalidPort);
            },
        };
        let ssh = match self.build_ssh_config() {
            Ok(s) => s,
            Err(e) => {
                return Err(e);
            },
        };
        Ok(
            ConnectionInfo {
                id,
                name: self.inputs.name.clone(),
                driver: self.driver,
                hostname: self.inputs.hostname.clone(),
                username: self.inputs.username.clone(),
                password,
                database: self.inputs.database.clone(),
                port,
                ssl_mode: SslMode::Prefer,
                ssh,
            },
        )
    }

    /// The connection the form describes. An edited connection keeps its
    /// id; a new one gets a fresh random id.
    pub fn get_connection(&self, stored: Option<String>) -> (r: Result<ConnectionInfo, FormError>)
        ensures
            match r {
                Ok(c) => self.connection_error(stored) is None && self.built(stored, c) && (
                match self.active_connection {
                    Some(a) => c.id == a.id,
                    None => (c.id >> 76u128) & 0xf == 4,
                }),
                Err(e) => self.connection_error(stored) == Some(e),
            },
    {
        let id = match &self.active_connection {
            Some(a) => a.id,
            None => new_uuid_v4(),
        };
        self.build_connection(stored, id)
    }
}

/// A form with an empty name, host, user or port, or with no password to
/// submit, is refused for missing fields. The password submitted is the
/// one typed; when an existing connection is edited and none is typed, the
/// stored one. A filled form with SSH off is accepted exactly when its port
/// is valid, and refused for the port otherwise.
pub proof fn lemma_form_validation(f: ConnectionForm, stored: Option<String>)
    ensures
        f.inputs.name@.len() == 0 || f.inputs.hostname@.len() == 0 || f.inputs.username@.len()
            == 0 || f.inputs.port@.len() == 0 || f.password_for(stored).len() == 0
            ==> f.connection_error(stored) == Some(FormError::MissingFields),
        f.inputs.password@.len() > 0 ==> f.password_for(stored) == f.inputs.password@,
        f.inputs.password@.len() == 0 && f.active_connection is Some && stored is Some
            ==> f.password_for(stored) == (stored->0)@,
        f.inputs.password@.len() == 0 && f.active_connection is None ==> f.password_for(
            stored,
        ).len() == 0,
        f.inputs.name@.len() > 0 && f.inputs.hostname@.len() > 0 && f.inputs.username@.len() > 0
            && f.inputs.port@.len() > 0 && f.password_for(stored).len() > 0 && !f.ssh_enabled
            ==> f.connection_error(stored) == (if port_value(f.inputs.port@) is Some {
            None
        } else {
            Some(FormError::InvalidPort)
        }),
{
}

/// The driver a value of the driver selector stands for.
pub open spec fn driver_for_value(value: Seq<char>) -> DatabaseDriver {
    if value == "mysql"@ {
        DatabaseDriver::MySql
    } else {
        DatabaseDriver::Postgres
    }
}

/// The port input after switching from driver `prev` to `next`: an empty
/// port, or one still at `prev`'s default, becomes `next`'s default; any
/// other port is the user's own and stays.
pub open spec fn port_after_switch(
    port: Seq<char>,
    prev: DatabaseDriver,
    next: DatabaseDriver,
) -> Seq<char> {
    if port.len() == 0 || port == decimal(prev.port_of() as nat) {
        decimal(next.port_of() as nat)
    } else {
        port
    }
}

/// Switching the driver away and back again restores the first driver's
/// default port, when the port had not been edited.
pub proof fn lemma_driver_switch_restores_default(
    port: Seq<char>,
    first: DatabaseDriver,
    second: DatabaseDriver,
)
    requires
        port.len() == 0 || port == decimal(first.port_of() as nat),
    ensures
        port_after_switch(port_after_switch(port, first, second), second, first) == decimal(
            first.port_of() as nat,
        ),
{
}

/// A port the user typed (neither empty nor the previous driver's default)
/// is never changed by switching the driver.
pub proof fn lemma_custom_port_kept(port: Seq<char>, prev: DatabaseDriver, next: DatabaseDriver)
    requires
        port.len() > 0,
        port != decimal(prev.port_of() as nat),
    ensures
        port_after_switch(port, prev, next) == port,
{
}

/// A connection and the SSH key passphrase to store for it.
#[derive(Debug, Clone)]
pub struct FormSubmission {
    pub connection: ConnectionInfo,
    pub ssh_passphrase: Option<String>,
}

/// The passphrase worth storing for `c`: the typed one, when `c` uses key
/// file authentication and something was typed.
pub open spec fn passphrase_for(typed: Seq<char>, c: ConnectionInfo, p: Option<String>) -> bool {
    match p {
        Some(s) => (c.ssh matches Some(t) && t.auth is KeyFile) && typed.len() > 0 && s@ == typed,
        None => !((c.ssh matches Some(t) && t.auth is KeyFile) && typed.len() > 0),
    }
}

/// The form right after clearing `before`: every input empty, SSH off and
/// no connection open; the driver and a running test are kept.
pub open spec fn cleared(before: ConnectionForm, after: ConnectionForm) -> bool {
    &&& after.inputs.all_empty()
    &&& !after.ssh_enabled
    &&& after.ssh_auth == SshAuth::Agent
    &&& !after.ssh_passphrase_known
    &&& after.active_connection is None
    &&& after.driver == before.driver
    &&& after.is_testing == before.is_testing
}

/// The form after loading `c` into `before`: the standard inputs show `c`,
/// and when `c` has a tunnel, the SSH section shows it too.
pub open spec fn populated(
    before: ConnectionForm,
    c: ConnectionInfo,
    passphrase_known: bool,
    after: ConnectionForm,
) -> bool {
    &&& after.inputs.name@ == c.name@
    &&& after.inputs.hostname@ == c.hostname@
    &&& after.inputs.username@ == c.username@
    &&& after.inputs.password@ == c.password@
    &&& after.inputs.database@ == c.database@
    &&& after.inputs.port@ == decimal(c.port as nat)
    &&& after.inputs.ssh_key_passphrase == before.inputs.ssh_key_passphrase
    &&& after.driver == before.driver
    &&& after.active_connection == before.active_connection
    &&& after.is_testing == before.is_testing
    &&& match c.ssh {
        None => {
            &&& after.ssh_enabled == before.ssh_enabled
            &&& after.ssh_auth == before.ssh_auth
            &&& after.ssh_passphrase_known == before.ssh_passphrase_known
            &&& after.inputs.ssh_host == before.inputs.ssh_host
            &&& after.inputs.ssh_port == before.inputs.ssh_port
            &&& after.inputs.ssh_username == before.inputs.ssh_username
            &&& after.inputs.ssh_key_path == before.inputs.ssh_key_path
        },
        Some(t) => {
            &&& after.ssh_enabled
            &&& after.ssh_auth == t.auth
            &&& after.ssh_passphrase_known == passphrase_known
            &&& after.inputs.ssh_host@ == t.host@
            &&& after.inputs.ssh_port@ == decimal(t.port as nat)
            &&& after.inputs.ssh_username@ == t.username@
            &&& match t.auth {
                SshAuth::KeyFile { path } => after.inputs.ssh_key_path@ == path@,
                SshAuth::Agent => after.inputs.ssh_key_path == before.inputs.ssh_key_path,
            }
        },
    }
}

/// `f` is the form [`ConnectionForm::view`] opens for `connection` (a new
/// connection when `None`), given whether a key passphrase is saved.
pub open spec fn opened(
    connection: Option<ConnectionInfo>,
    passphrase_known: bool,
    f: ConnectionForm,
) -> bool {
    &&& !f.is_testing
    &&& f.inputs.ssh_key_passphrase@.len() == 0
    &&& match connection {
        None => {
            &&& f.driver == DatabaseDriver::Postgres
            &&& f.inputs.port@ == decimal(DatabaseDriver::Postgres.port_of() as nat)
            &&& f.inputs.name@.len() == 0 && f.inputs.hostname@.len() == 0
            &&& f.inputs.username@.len() == 0 && f.inputs.password@.len() == 0
            &&& f.inputs.database@.len() == 0 && f.inputs.ssh_host@.len() == 0
            &&& f.inputs.ssh_port@.len() == 0 && f.inputs.ssh_username@.len() == 0
            &&& f.inputs.ssh_key_path@.len() == 0
            &&& !f.ssh_enabled && f.ssh_auth == SshAuth::Agent
            &&& !f.ssh_passphrase_known && f.active_connection is None
        },
        Some(c) => {
            &&& f.driver == c.driver
            &&& f.active_connection == Some(c)
            &&& f.inputs.name@ == c.name@
            &&& f.inputs.hostname@ == c.hostname@
            &&& f.inputs.username@ == c.username@
            &&& f.inputs.password@ == c.password@
            &&& f.inputs.database@ == c.database@
            &&& f.inputs.port@ == decimal(c.port as nat)
            &&& match c.ssh {
                None => {
                    &&& !f.ssh_enabled && f.ssh_auth == SshAuth::Agent
                    &&& !f.ssh_passphrase_known
                    &&& f.inputs.ssh_host@.len() == 0 && f.inputs.ssh_port@.len() == 0
                    &&& f.inputs.ssh_username@.len() == 0
                    &&& f.inputs.ssh_key_path@.len() == 0
                },
                Some(t) => {
                    &&& f.ssh_enabled && f.ssh_auth == t.auth
                    &&& f.ssh_passphrase_known == passphrase_known
                    &&& f.inputs.ssh_host@ == t.host@
                    &&& f.inputs.ssh_port@ == decimal(t.port as nat)
                    &&& f.inputs.ssh_username@ == t.username@
                    &&& match t.auth {
                        SshAuth::KeyFile { path } => f.inputs.ssh_key_path@ == path@,
                        SshAuth::Agent => f.inputs.ssh_key_path@.len() == 0,
                    }
                },
            }
        },
    }
}

/// The settings a connection needs for the form to accept it: name, host,
/// user and password present, a port from 1 to 65535, and for a tunnel a
/// host, a user, a port from 1 and, with key files, a key path.
pub open spec fn submittable(c: ConnectionInfo) -> bool {
    &&& c.name@.len() > 0
    &&& c.hostname@.len() > 0
    &&& c.username@.len() > 0
    &&& c.password@.len() > 0
    &&& 1 <= c.port <= 65535
    &&& match c.ssh {
        None => true,
        Some(t) => {
            &&& t.host@.len() > 0
            &&& t.username@.len() > 0
            &&& t.port >= 1
            &&& match t.auth {
                SshAuth::KeyFile { path } => path@.len() > 0,
                SshAuth::Agent => true,
            }
        },
    }
}

/// Opening a saved connection in the form and submitting it unchanged is
/// accepted and gives the same connection back, except that the form
/// always asks for SSL mode Prefer.
pub proof fn lemma_reopened_connection_submits_unchanged(
    c: ConnectionInfo,
    passphrase_known: bool,
    f: ConnectionForm,
    stored: Option<String>,
    r: ConnectionInfo,
)
    requires
        opened(Some(c), passphrase_known, f),
        submittable(c),
    ensures
        f.connection_error(stored) is None,
        f.built(stored, r) ==> {
            &&& r.name@ == c.name@
            &&& r.driver == c.driver
            &&& r.hostname@ == c.hostname@
            &&& r.username@ == c.username@
            &&& r.password@ == c.password@
            &&& r.database@ == c.database@
            &&& r.port == c.port
            &&& r.ssl_mode == SslMode::Prefer
            &&& same_ssh(r.ssh, c.ssh)
        },
{
    lemma_parse_decimal(c.port);
    match c.ssh {
        Some(t) => {
            lemma_parse_decimal(t.port as usize);
            assert(decimal(t.port as nat).len() > 0) by {
                assert(parse_usize_spec(decimal(t.port as nat)) is Some);
            }
        },
        None => {},
    }
}

impl ConnectionForm {
    /// A form for a new connection (`None`) or for editing `connection`.
    /// `passphrase_known` says whether the keyring holds a key passphrase
    /// for the connection being edited.
    pub fn view(connection: Option<ConnectionInfo>, passphrase_known: bool) -> (f: Self)
        ensures
            opened(connection, passphrase_known, f),
    {
        let driver = match &connection {
            Some(c) => c.driver,
            None => DatabaseDriver::Postgres,
        };
        let (ssh_enabled, ssh_auth) = match &connection {
            Some(c) => match &c.ssh {
                Some(t) => (true, t.auth.duplicate()),
                None => (false, SshAuth::Agent),
            },
            None => (false, SshAuth::Agent),
        };
        let active_connection = match &connection {
            Some(c) => Some(c.duplicate()),
            None => None,
        };
        let mut form = ConnectionForm {
            inputs: FormInputs::empty(),
            driver,
            ssh_enabled,
            ssh_auth,
            ssh_passphrase_known: false,
            active_connection,
            is_testing: false,
        };
        match connection {
            Some(c) => {
                form.populate_from(c, passphrase_known);
            },
            None => {
                form.inputs.port = decimal_text(driver.default_port() as u128);
            },
        }
        form
    }

    /// Loads `connection` into the inputs. `passphrase_known` says whether
    /// the keyring holds a key passphrase for it; it is consulted only when
    /// the connection has a tunnel.
    pub fn populate_from(&mut self, connection: ConnectionInfo, passphrase_known: bool)
        ensures
            populated(*old(self), connection, passphrase_known, *final(self)),
    {
        self.inputs.name = connection.name.clone();
        self.inputs.hostname = connection.hostname.clone();
        self.inputs.username = connection.username.clone();
        self.inputs.password = connection.password.clone();
        self.inputs.database = connection.database.clone();
        self.inputs.port = decimal_text(connection.port as u128);
        match &connection.ssh {
            Some(t) => {
                self.ssh_enabled = true;
                self.inputs.ssh_host = t.host.clone();
                self.inputs.ssh_port = decimal_text(t.port as u128);
                self.inputs.ssh_username = t.username.clone();
                self.ssh_auth = t.auth.duplicate();
                match &t.auth {
                    SshAuth::KeyFile { path } => {
                        self.inputs.ssh_key_path = path.clone();
                    },
                    SshAuth::Agent => {},
                }
                self.ssh_passphrase_known = passphrase_known;
            },
            None => {},
        }
    }

    /// Empties every input, turns SSH off and closes the edited connection.
    pub fn clear(&mut self)
        ensures
            cleared(*old(self), *final(self)),
    {
        self.inputs = FormInputs::empty();
        self.ssh_enabled = false;
        self.ssh_auth = SshAuth::Agent;
        self.ssh_passphrase_known = false;
        self.active_connection = None;
    }

    /// Opens `connection` for editing: the driver follows it, the SSH
    /// section is reset and then filled from it.
    pub fn set_connection(&mut self, connection: ConnectionInfo, passphrase_known: bool)
        ensures
            final(self).driver == connection.driver,
            final(self).active_connection == Some(connection),
            populated(
                ConnectionForm {
                    driver: connection.driver,
                    ssh_enabled: false,
                    ssh_auth: SshAuth::Agent,
                    ssh_passphrase_known: false,
                    active_connection: Some(connection),
                    ..*old(self)
                },
                connection,
                passphrase_known,
                *final(self),
            ),
    {
        self.driver = connection.driver;
        self.ssh_enabled = false;
        self.ssh_auth = SshAuth::Agent;
        self.ssh_passphrase_known = false;
        self.active_connection = Some(connection.duplicate());
        self.populate_from(connection, passphrase_known);
    }

    /// Reacts to the driver selector: `value` is the chosen driver's
    /// stored name. The port follows the driver unless the user edited it.
    pub fn on_driver_change(&mut self, value: &str)
        ensures
            final(self).driver == driver_for_value(value@),
            final(self).inputs.port@ == port_after_switch(
                old(self).inputs.port@,
                old(self).driver,
                final(self).driver,
            ),
            *final(self) == (ConnectionForm {
                driver: final(self).driver,
                inputs: FormInputs { port: final(self).inputs.port, ..old(self).inputs },
                ..*old(self)
            }),
    {
        let next = if str_eq(value, "mysql") {
            DatabaseDriver::MySql
        } else {
            DatabaseDriver::Postgres
        };
        proof {
            reveal_strlit("mysql");
        }
        let prev = self.driver;
        self.driver = next;
        let prev_default = decimal_text(prev.default_port() as u128);
        if self.inputs.port.as_str().is_empty() || str_eq(
            self.inputs.port.as_str(),
            prev_default.as_str(),
        ) {
            self.inputs.port = decimal_text(next.default_port() as u128);
        }
    }

    /// Reacts to the SSH authentication selector: `"key_file"` chooses the
    /// key file typed in the form, anything else the agent.
    pub fn on_ssh_auth_change(&mut self, value: &str)
        ensures
            value@ == "key_file"@ ==> (final(self).ssh_auth matches SshAuth::KeyFile { path }
                && path@ == old(self).inputs.ssh_key_path@),
            value@ != "key_file"@ ==> final(self).ssh_auth == SshAuth::Agent,
            *final(self) == (ConnectionForm { ssh_auth: final(self).ssh_auth, ..*old(self) }),
    {
        if str_eq(value, "key_file") {
            self.ssh_auth = SshAuth::KeyFile { path: self.inputs.ssh_key_path.clone() };
        } else {
            self.ssh_auth = SshAuth::Agent;
        }
    }

    /// The key passphrase to store for `connection`: the typed one, when the
    /// connection authenticates with a key file and something was typed.
    pub fn passphrase_to_persist(&self, connection: &ConnectionInfo) -> (p: Option<String>)
        ensures
            passphrase_for(self.inputs.ssh_key_passphrase@, *connection, p),
    {
        match &connection.ssh {
            Some(t) => match &t.auth {
                SshAuth::KeyFile { .. } => {
                    if self.inputs.ssh_key_passphrase.as_str().is_empty() {
                        None
                    } else {
                        Some(self.inputs.ssh_key_passphrase.clone())
                    }
                },
                SshAuth::Agent => None,
            },
            None => None,
        }
    }
}

/// What submitting the form gives, given the form before it.
pub open spec fn submitted(
    before: ConnectionForm,
    stored: Option<String>,
    r: Result<FormSubmission, FormError>,
) -> bool {
    match r {
        Ok(s) => {
            &&& before.connection_error(stored) is None
            &&& before.built(stored, s.connection)
            &&& match before.active_connection {
                Some(a) => s.connection.id == a.id,
                None => (s.connection.id >> 76u128) & 0xf == 4,
            }
            &&& passphrase_for(before.inputs.ssh_key_passphrase@, s.connection, s.ssh_passphrase)
        },
        Err(e) => before.connection_error(stored) == Some(e),
    }
}

/// How a finished connection test is reported.
#[derive(Debug, Clone)]
pub struct TestNotice {
    pub success: bool,
    pub message: String,
}

impl ConnectionForm {
    fn submission(&self, stored: Option<String>) -> (r: Result<FormSubmission, FormError>)
        ensures
            submitted(*self, stored, r),
    {
        match self.get_connection(stored) {
            Ok(connection) => {
                let ssh_passphrase = self.passphrase_to_persist(&connection);
                Ok(FormSubmission { connection, ssh_passphrase })
            },
            Err(e) => Err(e),
        }
    }

    /// "Connect": validates the form; on success the form is cleared and
    /// the connection (with any passphrase to store) is handed back.
    pub fn connect(&mut self, stored: Option<String>) -> (r: Result<FormSubmission, FormError>)
        ensures
            submitted(*old(self), stored, r),
            r is Ok ==> cleared(*old(self), *final(self)),
            r is Err ==> *final(self) == *old(self),
    {
        let r = self.submission(stored);
        if r.is_ok() {
            self.clear();
        }
        r
    }

    /// "Save": validates the form; on success the form is cleared and the
    /// new connection is handed back to be stored.
    pub fn save_connection(&mut self, stored: Option<String>) -> (r: Result<
        FormSubmission,
        FormError,
    >)
        ensures
            submitted(*old(self), stored, r),
            r is Ok ==> cleared(*old(self), *final(self)),
            r is Err ==> *final(self) == *old(self),
    {
        let r = self.submission(stored);
        if r.is_ok() {
            self.clear();
        }
        r
    }

    /// "Update": validates the form and hands back the edited connection;
    /// the form stays as it is.
    pub fn update_connection(&self, stored: Option<String>) -> (r: Result<
        FormSubmission,
        FormError,
    >)
        ensures
            submitted(*self, stored, r),
    {
        self.submission(stored)
    }

    /// "Delete": hands back the connection being edited, if any, and
    /// clears the form.
    pub fn delete_connection(&mut self) -> (r: Option<ConnectionInfo>)
        ensures
            r == old(self).active_connection,
            r is Some ==> cleared(*old(self), *final(self)),
            r is None ==> *final(self) == *old(self),
    {
        match self.active_connection.take() {
            Some(c) => {
                self.clear();
                Some(c)
            },
            None => None,
        }
    }

    /// "Test Connection": ignored (`None`) while a test is running;
    /// otherwise validates the form and, on success, marks a test as
    /// running.
    pub fn test_connection(&mut self, stored: Option<String>) -> (r: Option<
        Result<FormSubmission, FormError>,
    >)
        ensures
            old(self).is_testing ==> r is None && *final(self) == *old(self),
            !old(self).is_testing ==> (r matches Some(s) && submitted(*old(self), stored, s) && (
            *final(self) == (ConnectionForm { is_testing: s is Ok, ..*old(self) }))),
    {
        if self.is_testing {
            return None;
        }
        let r = self.submission(stored);
        if r.is_ok() {
            self.is_testing = true;
        }
        Some(r)
    }

    /// Ends a running test and says how to report its outcome (`Err`
    /// carries the failure's text).
    pub fn finish_test(&mut self, outcome: Result<(), String>) -> (n: TestNotice)
        ensures
            *final(self) == (ConnectionForm { is_testing: false, ..*old(self) }),
            n.success == outcome is Ok,
            match outcome {
                Ok(_) => n.message@ == "Connection successful!"@,
                Err(e) => n.message@ == "Connection failed: "@ + e@,
            },
    {
        self.is_testing = false;
        match outcome {
            Ok(_) => TestNotice { success: true, message: "Connection successful!".to_owned() },
            Err(e) => TestNotice { success: false, message: concat("Connection failed: ", e.as_str()) },
        }
    }

    /// The form's title: adding a new connection or editing one.
    pub fn heading(&self) -> (s: &'static str)
        ensures
            self.active_connection is Some ==> s@ == "Edit Connection"@,
            self.active_connection is None ==> s@ == "Add Connection"@,
    {
        if self.active_connection.is_some() {
            "Edit Connection"
        } else {
            "Add Connection"
        }
    }

    /// Whether the key path and passphrase inputs are shown.
    pub fn shows_key_fields(&self) -> (b: bool)
        ensures
            b == self.ssh_auth is KeyFile,
    {
        match self.ssh_auth {
            SshAuth::KeyFile { .. } => true,
            SshAuth::Agent => false,
        }
    }

    /// The hint under the passphrase input, shown when a saved passphrase
    /// exists.
    pub fn passphrase_hint(&self) -> (h: Option<&'static str>)
        ensures
            self.ssh_passphrase_known ==> (h matches Some(t) && t@
                == "Saved passphrase will be used; type to override."@),
            !self.ssh_passphrase_known ==> h is None,
    {
        if self.ssh_passphrase_known {
            Some("Saved passphrase will be used; type to override.")
        } else {
            None
        }
    }
}

} // verus!
