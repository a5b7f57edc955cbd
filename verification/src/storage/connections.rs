//! Mapping between saved connections and their SQLite rows, and the
//! keyring layout for their secrets.
//!
//! Layout of secrets in the system keyring (service `pgui`):
//! - `<connection-id>`              -> database password
//! - `<connection-id>:ssh-keypass`  -> SSH private-key passphrase (optional)
use vstd::prelude::*;
use crate::ssh::config::{SshAuth, SshConfig};
use crate::storage::types::{ConnectionInfo, DatabaseDriver, SslMode, uuid_parse, uuid_parse_str, uuid_text, uuid_to_string};
use crate::text::{concat, str_eq};

verus! {

/// Keyring service name under which all secrets are stored.
pub const KEYRING_SERVICE: &'static str = "pgui";

/// Suffix appended to a connection id to form its passphrase entry.
pub const SSH_KEYPASS_SUFFIX: &'static str = ":ssh-keypass";

/// Every column of a row of the `connections` table, as read or written.
#[derive(Debug, Clone)]
pub struct ConnectionRow {
    pub id: String,
    pub name: String,
    pub driver: String,
    pub hostname: String,
    pub username: String,
    pub database: String,
    pub port: i64,
    pub ssl_mode: String,
    pub ssh_enabled: i64,
    pub ssh_host: Option<String>,
    pub ssh_port: Option<i64>,
    pub ssh_username: Option<String>,
    pub ssh_auth_type: Option<String>,
    pub ssh_key_path: Option<String>,
}

fn dup_opt(o: &Option<String>) -> (r: Option<String>)
    ensures
        r == *o,
{
    match o {
        Some(s) => Some(s.clone()),
        None => None,
    }
}

impl ConnectionRow {
    /// A copy of this row with equal fields.
    pub fn duplicate(&self) -> (r: Self)
        ensures
            r == *self,
    {
        ConnectionRow {
            id: self.id.clone(),
            name: self.name.clone(),
            driver: self.driver.clone(),
            hostname: self.hostname.clone(),
            username: self.username.clone(),
            database: self.database.clone(),
            port: self.port,
            ssl_mode: self.ssl_mode.clone(),
            ssh_enabled: self.ssh_enabled,
            ssh_host: dup_opt(&self.ssh_host),
            ssh_port: self.ssh_port,
            ssh_username: dup_opt(&self.ssh_username),
            ssh_auth_type: dup_opt(&self.ssh_auth_type),
            ssh_key_path: dup_opt(&self.ssh_key_path),
        }
    }
}

/// The SSH columns of a row.
#[derive(Debug, Clone)]
pub struct SshColumns {
    pub ssh_enabled: i64,
    pub ssh_host: Option<String>,
    pub ssh_port: Option<i64>,
    pub ssh_username: Option<String>,
    pub ssh_auth_type: Option<String>,
    pub ssh_key_path: Option<String>,
}

/// Errors of the connection store that arise in the mapping and checks.
#[derive(Debug, Clone)]
pub enum StorageError {
    /// The stored id is not a UUID.
    InvalidUuid,
    /// Another saved connection already uses this name.
    DuplicateName { name: String },
}

impl StorageError {
    /// The error's message.
    pub fn message(&self) -> (m: String)
        ensures
            match self {
                StorageError::InvalidUuid => m@ == "Invalid UUID in database"@,
                StorageError::DuplicateName { name } => m@
                    == "A connection with the name '"@ + name@ + "' already exists"@,
            },
    {
        match self {
            StorageError::InvalidUuid => "Invalid UUID in database".to_owned(),
            StorageError::DuplicateName { name } => {
                let a = concat("A connection with the name '", name.as_str());
                concat(a.as_str(), "' already exists")
            },
        }
    }
}

// ---------------------------------------------------------------------------
// Specifications
// ---------------------------------------------------------------------------

/// The characters of an optional string, empty when absent.
pub open spec fn opt_text(o: Option<String>) -> Seq<char> {
    match o {
        Some(s) => s@,
        None => Seq::empty(),
    }
}

/// The SSH columns written for a tunnel configuration.
pub open spec fn ssh_columns_for(ssh: Option<SshConfig>, c: SshColumns) -> bool {
    match ssh {
        None => {
            &&& c.ssh_enabled == 0
            &&& c.ssh_host is None
            &&& c.ssh_port is None
            &&& c.ssh_username is None
            &&& c.ssh_auth_type is None
            &&& c.ssh_key_path is None
        },
        Some(cfg) => {
            &&& c.ssh_enabled == 1
            &&& c.ssh_host matches Some(h) && h@ == cfg.host@
            &&& c.ssh_port == Some(cfg.port as i64)
            &&& c.ssh_username matches Some(u) && u@ == cfg.username@
            &&& c.ssh_auth_type matches Some(t) && t@ == cfg.auth.tag()
            &&& match cfg.auth {
                SshAuth::KeyFile { path } => c.ssh_key_path matches Some(p) && p@ == path@,
                SshAuth::Agent => c.ssh_key_path is None,
            }
        },
    }
}

/// The row written for a connection.
pub open spec fn written_row(info: ConnectionInfo, row: ConnectionRow) -> bool {
    &&& row.id@ == uuid_text(info.id)
    &&& row.name@ == info.name@
    &&& row.driver@ == info.driver.db_str()
    &&& row.hostname@ == info.hostname@
    &&& row.username@ == info.username@
    &&& row.database@ == info.database@
    &&& row.port == info.port as i64
    &&& row.ssl_mode@ == info.ssl_mode.db_str()
    &&& ssh_columns_for(
        info.ssh,
        SshColumns {
            ssh_enabled: row.ssh_enabled,
            ssh_host: row.ssh_host,
            ssh_port: row.ssh_port,
            ssh_username: row.ssh_username,
            ssh_auth_type: row.ssh_auth_type,
            ssh_key_path: row.ssh_key_path,
        },
    )
}

/// The tunnel configuration read from a row's SSH columns.
pub open spec fn ssh_read(row: ConnectionRow, ssh: Option<SshConfig>) -> bool {
    if row.ssh_enabled != 0 {
        match ssh {
            Some(cfg) => {
                &&& cfg.host@ == opt_text(row.ssh_host)
                &&& cfg.port == (match row.ssh_port {
                    Some(p) => p,
                    None => 22,
                }) as u16
                &&& cfg.username@ == opt_text(row.ssh_username)
                &&& if opt_text(row.ssh_auth_type) == "key_file"@ {
                    cfg.auth matches SshAuth::KeyFile { path } && path@ == opt_text(
                        row.ssh_key_path,
                    )
                } else {
                    cfg.auth == SshAuth::Agent
                }
            },
            None => false,
        }
    } else {
        ssh is None
    }
}

/// The connection read from a row. The password is not stored in the row:
/// it is left empty and loaded from the keyring on demand.
pub open spec fn read_info(row: ConnectionRow, info: ConnectionInfo) -> bool {
    &&& uuid_parse(row.id@) == Some(info.id)
    &&& info.name@ == row.name@
    &&& info.driver == DatabaseDriver::from_db_seq(row.driver@)
    &&& info.hostname@ == row.hostname@
    &&& info.username@ == row.username@
    &&& info.password@ == Seq::<char>::empty()
    &&& info.database@ == row.database@
    &&& info.port == row.port as usize
    &&& info.ssl_mode == SslMode::from_db_seq(row.ssl_mode@)
    &&& ssh_read(row, info.ssh)
}

/// Two tunnel configurations with the same host, port, user and
/// authentication.
pub open spec fn same_ssh(a: Option<SshConfig>, b: Option<SshConfig>) -> bool {
    match (a, b) {
        (None, None) => true,
        (Some(x), Some(y)) => {
            &&& x.host@ == y.host@
            &&& x.port == y.port
            &&& x.username@ == y.username@
            &&& match (x.auth, y.auth) {
                (SshAuth::Agent, SshAuth::Agent) => true,
                (SshAuth::KeyFile { path: p }, SshAuth::KeyFile { path: q }) => p@ == q@,
                _ => false,
            }
        },
        _ => false,
    }
}

/// Two connections that agree on everything the row stores.
pub open spec fn same_saved_fields(a: ConnectionInfo, b: ConnectionInfo) -> bool {
    &&& a.id == b.id
    &&& a.name@ == b.name@
    &&& a.driver == b.driver
    &&& a.hostname@ == b.hostname@
    &&& a.username@ == b.username@
    &&& a.database@ == b.database@
    &&& a.port == b.port
    &&& a.ssl_mode == b.ssl_mode
    &&& same_ssh(a.ssh, b.ssh)
}

// ---------------------------------------------------------------------------
// Mapping
// ---------------------------------------------------------------------------

fn text_or_empty(o: Option<String>) -> (s: String)
    ensures
        s@ == opt_text(o),
{
    match o {
        Some(s) => s,
        None => String::new(),
    }
}

fn is_key_file_tag(o: &Option<String>) -> (b: bool)
    ensures
        b == (opt_text(*o) == "key_file"@),
{
    let text = match o {
        Some(t) => t.as_str(),
        None => "",
    };
    assert(text@ == opt_text(*o)) by {
        reveal_strlit("");
    }
    str_eq(text, "key_file")
}

/// A connection from its stored row.
pub fn row_to_info(row: ConnectionRow) -> (r: Result<ConnectionInfo, StorageError>)
    ensures
        match r {
            Ok(info) => read_info(row, info),
            Err(e) => uuid_parse(row.id@) is None && e is InvalidUuid,
        },
        // Reading back a written row gives the written connection.
        forall|info: ConnectionInfo|
            written_row(info, row) && info.port <= i64::MAX ==> (r matches Ok(back)
                && same_saved_fields(back, info)),
{
    let ghost row0 = row;
    let id = match uuid_parse_str(row.id.as_str()) {
        Some(id) => id,
        None => return Err(StorageError::InvalidUuid),
    };
    let ssh = if row.ssh_enabled != 0 {
        let auth = if is_key_file_tag(&row.ssh_auth_type) {
            SshAuth::KeyFile { path: text_or_empty(row.ssh_key_path) }
        } else {
            SshAuth::Agent
        };
        let port: i64 = match row.ssh_port {
            Some(p) => p,
            None => 22,
        };
        Some(
            SshConfig {
                host: text_or_empty(row.ssh_host),
                port: port as u16,
                username: text_or_empty(row.ssh_username),
                auth,
            },
        )
    } else {
        None
    };
    let driver = DatabaseDriver::from_db_str(row.driver.as_str());
    let ssl_mode = SslMode::from_db_str(row.ssl_mode.as_str());
    let back = ConnectionInfo {
            id,
            name: row.name,
            driver,
            hostname: row.hostname,
            username: row.username,
            password: String::new(),
            database: row.database,
            port: row.port as usize,
            ssl_mode,
            ssh,
        };
    proof {
        assert forall|info: ConnectionInfo|
            written_row(info, row0) && info.port <= i64::MAX implies same_saved_fields(
            back,
            info,
        ) by {
            lemma_read_written(info, row0, back);
        }
    }
    Ok(back)
}

/// What a read gives back of a written row: every stored field but the id,
/// whose text the reader parses.
proof fn lemma_read_written(info: ConnectionInfo, row: ConnectionRow, back: ConnectionInfo)
    requires
        written_row(info, row),
        read_info(row, back),
        back.id == info.id,
        info.port <= i64::MAX,
    ensures
        same_saved_fields(back, info),
{
    crate::storage::types::lemma_driver_db_str_roundtrip(info.driver);
    crate::storage::types::lemma_ssl_mode_db_str_roundtrip(info.ssl_mode);
    reveal_strlit("key_file");
    reveal_strlit("agent");
    match info.ssh {
        None => {},
        Some(cfg) => {
            assert(row.ssh_enabled != 0);
            match cfg.auth {
                SshAuth::Agent => {
                    assert("agent"@.len() != "key_file"@.len());
                },
                SshAuth::KeyFile { path } => {},
            }
        },
    }
}

/// The SSH columns to write for a tunnel configuration.
pub fn ssh_fields_for_write(ssh: &Option<SshConfig>) -> (c: SshColumns)
    ensures
        ssh_columns_for(*ssh, c),
{
    match ssh {
        None => SshColumns {
            ssh_enabled: 0,
            ssh_host: None,
            ssh_port: None,
            ssh_username: None,
            ssh_auth_type: None,
            ssh_key_path: None,
        },
        Some(cfg) => {
            let (auth_type, key_path) = match &cfg.auth {
                SshAuth::KeyFile { path } => (cfg.auth.as_str().to_owned(), Some(path.clone())),
                SshAuth::Agent => (cfg.auth.as_str().to_owned(), None),
            };
            SshColumns {
                ssh_enabled: 1,
                ssh_host: Some(cfg.host.clone()),
                ssh_port: Some(cfg.port as i64),
                ssh_username: Some(cfg.username.clone()),
                ssh_auth_type: Some(auth_type),
                ssh_key_path: key_path,
            }
        },
    }
}

/// The row to write for a connection (insert and update bind these values).
pub fn row_for_write(info: &ConnectionInfo) -> (row: ConnectionRow)
    ensures
        written_row(*info, row),
{
    let c = ssh_fields_for_write(&info.ssh);
    ConnectionRow {
        id: uuid_to_string(info.id),
        name: info.name.clone(),
        driver: info.driver.to_db_str().to_owned(),
        hostname: info.hostname.clone(),
        username: info.username.clone(),
        database: info.database.clone(),
        port: info.port as i64,
        ssl_mode: info.ssl_mode.to_db_str().to_owned(),
        ssh_enabled: c.ssh_enabled,
        ssh_host: c.ssh_host,
        ssh_port: c.ssh_port,
        ssh_username: c.ssh_username,
        ssh_auth_type: c.ssh_auth_type,
        ssh_key_path: c.ssh_key_path,
    }
}

/// All saved connections from their rows, in row order; the first row whose
/// id is not a UUID makes the whole load fail.
pub fn rows_to_infos(rows: Vec<ConnectionRow>) -> (r: Result<Vec<ConnectionInfo>, StorageError>)
    ensures
        match r {
            Ok(v) => v@.len() == rows@.len() && forall|i: int|
                0 <= i < rows@.len() ==> read_info(#[trigger] rows@[i], v@[i]),
            Err(e) => e is InvalidUuid && exists|i: int|
                0 <= i < rows@.len() && uuid_parse(#[trigger] rows@[i].id@) is None,
        },
{
    let mut out: Vec<ConnectionInfo> = Vec::new();
    let mut i: usize = 0;
    let n = rows.len();
    while i < n
        invariant
            n == rows@.len(),
            0 <= i <= n,
            out@.len() == i,
            forall|k: int| 0 <= k < i ==> read_info(#[trigger] rows@[k], out@[k]),
        decreases n - i,
    {
        let row = rows[i].duplicate();
        match row_to_info(row) {
            Ok(info) => out.push(info),
            Err(e) => {
                return Err(e);
            },
        }
        i = i + 1;
    }
    Ok(out)
}

// ---------------------------------------------------------------------------
// Keyring layout
// ---------------------------------------------------------------------------

/// The text stored for a connection id: its hyphenated lowercase UUID.
pub fn connection_id_text(id: u128) -> (t: String)
    ensures
        t@ == uuid_text(id),
{
    uuid_to_string(id)
}

/// The connection id a stored text names, when it is a UUID; the text
/// written for an id reads back as that id.
pub fn parse_connection_id(text: &str) -> (r: Option<u128>)
    ensures
        r == uuid_parse(text@),
        forall|v: u128| text@ == uuid_text(v) ==> r == Some(v),
{
    uuid_parse_str(text)
}

/// The keyring entry holding a connection's database password.
pub fn password_entry_key(id: u128) -> (k: String)
    ensures
        k@ == uuid_text(id),
{
    uuid_to_string(id)
}

/// The keyring entry holding a connection's SSH key passphrase.
pub fn ssh_keypass_key(id: u128) -> (k: String)
    ensures
        k@ == uuid_text(id) + ":ssh-keypass"@,
{
    let t = uuid_to_string(id);
    concat(t.as_str(), SSH_KEYPASS_SUFFIX)
}

/// The password entry of one connection is never the passphrase entry of
/// another (or the same) connection.
pub proof fn lemma_secret_entries_distinct(a: u128, b: u128)
    ensures
        uuid_text(a) != uuid_text(b) + ":ssh-keypass"@,
{
    reveal_strlit(":ssh-keypass");
    assert((uuid_text(b) + ":ssh-keypass"@).len() == 48);
}

/// What storing an SSH key passphrase does to its keyring entry.
#[derive(Debug, Clone)]
pub enum SecretUpdate {
    /// Remove the entry (an empty passphrase clears it).
    Clear,
    /// Store this secret.
    Store(String),
}

/// The keyring update for a typed passphrase: empty clears, anything else
/// is stored.
pub fn passphrase_update(passphrase: &str) -> (u: SecretUpdate)
    ensures
        passphrase@.len() == 0 ==> u is Clear,
        passphrase@.len() > 0 ==> (u matches SecretUpdate::Store(p) && p@ == passphrase@),
{
    if passphrase.is_empty() {
        SecretUpdate::Clear
    } else {
        SecretUpdate::Store(passphrase.to_owned())
    }
}

// ---------------------------------------------------------------------------
// Create / update
// ---------------------------------------------------------------------------

/// What saving a connection writes: its password to the keyring (only when
/// one was typed) and its row.
#[derive(Debug, Clone)]
pub struct SavePlan {
    pub password: Option<String>,
    pub row: ConnectionRow,
}

/// The writes for creating or updating a connection. `name_taken` says
/// whether another saved connection already has this name; then nothing is
/// written and the save fails.
pub fn plan_save(connection: &ConnectionInfo, name_taken: bool) -> (r: Result<
    SavePlan,
    StorageError,
>)
    ensures
        name_taken ==> (r matches Err(StorageError::DuplicateName { name }) && name@
            == connection.name@),
        !name_taken ==> (r matches Ok(plan) && written_row(*connection, plan.row) && (
        match plan.password {
            Some(p) => connection.password@.len() > 0 && p@ == connection.password@,
            None => connection.password@.len() == 0,
        })),
{
    if name_taken {
        return Err(StorageError::DuplicateName { name: connection.name.clone() });
    }
    let password = if connection.password.as_str().is_empty() {
        None
    } else {
        Some(connection.password.clone())
    };
    Ok(SavePlan { password, row: row_for_write(connection) })
}

/// Whether a `COUNT(*)` of rows with a name shows the name in use.
pub fn name_in_use(count: i64) -> (b: bool)
    ensures
        b == (count > 0),
{
    count > 0
}

/// A single saved connection, if its row was found.
pub fn optional_row_to_info(row: Option<ConnectionRow>) -> (r: Result<
    Option<ConnectionInfo>,
    StorageError,
>)
    ensures
        match row {
            None => r matches Ok(None),
            Some(rw) => match r {
                Ok(Some(info)) => read_info(rw, info),
                Ok(None) => false,
                Err(e) => e is InvalidUuid && uuid_parse(rw.id@) is None,
            },
        },
{
    match row {
        None => Ok(None),
        Some(rw) => match row_to_info(rw) {
            Ok(info) => Ok(Some(info)),
            Err(e) => Err(e),
        },
    }
}

} // verus!
