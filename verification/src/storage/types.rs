//! Connection type definitions: the database driver, the SSL mode and the
//! saved connection configuration.
use vstd::prelude::*;
use crate::ssh::config::SshConfig;

verus! {

// ============================================================================
// DatabaseDriver
// ============================================================================

/// Which database backend a saved connection targets.
#[derive(Debug, Clone, Copy, PartialEq, Eq, Structural)]
pub enum DatabaseDriver {
    Postgres,
    MySql,
}

impl Default for DatabaseDriver {
    fn default() -> (r: Self)
        ensures
            r == DatabaseDriver::Postgres,
    {
        DatabaseDriver::Postgres
    }
}

impl DatabaseDriver {
    /// Display name.
    pub open spec fn title(self) -> Seq<char> {
        match self {
            DatabaseDriver::Postgres => "PostgreSQL"@,
            DatabaseDriver::MySql => "MySQL"@,
        }
    }

    /// The string stored in the `driver` column.
    pub open spec fn db_str(self) -> Seq<char> {
        match self {
            DatabaseDriver::Postgres => "postgres"@,
            DatabaseDriver::MySql => "mysql"@,
        }
    }

    /// The driver read back from a stored string: `"mysql"` is MySQL,
    /// anything else (including unknown or empty values) is Postgres.
    pub open spec fn from_db_seq(s: Seq<char>) -> DatabaseDriver {
        if s == "mysql"@ {
            DatabaseDriver::MySql
        } else {
            DatabaseDriver::Postgres
        }
    }

    pub open spec fn port_of(self) -> usize {
        match self {
            DatabaseDriver::Postgres => 5432,
            DatabaseDriver::MySql => 3306,
        }
    }

    pub open spec fn index_of(self) -> usize {
        match self {
            DatabaseDriver::Postgres => 0,
            DatabaseDriver::MySql => 1,
        }
    }

    pub open spec fn from_index_spec(index: usize) -> DatabaseDriver {
        if index == 1 {
            DatabaseDriver::MySql
        } else {
            DatabaseDriver::Postgres
        }
    }

    pub fn as_str(&self) -> (s: &'static str)
        ensures
            s@ == self.title(),
    {
        match self {
            DatabaseDriver::Postgres => "PostgreSQL",
            DatabaseDriver::MySql => "MySQL",
        }
    }

    pub fn to_db_str(&self) -> (s: &'static str)
        ensures
            s@ == self.db_str(),
    {
        match self {
            DatabaseDriver::Postgres => "postgres",
            DatabaseDriver::MySql => "mysql",
        }
    }

    pub fn from_db_str(s: &str) -> (d: Self)
        ensures
            d == DatabaseDriver::from_db_seq(s@),
    {
        if crate::text::str_eq(s, "mysql") {
            DatabaseDriver::MySql
        } else {
            DatabaseDriver::Postgres
        }
    }

    pub fn default_port(&self) -> (p: usize)
        ensures
            p == self.port_of(),
    {
        match self {
            DatabaseDriver::Postgres => 5432,
            DatabaseDriver::MySql => 3306,
        }
    }

    pub fn all() -> (v: Vec<DatabaseDriver>)
        ensures
            v@ == seq![DatabaseDriver::Postgres, DatabaseDriver::MySql],
    {
        let mut v = Vec::new();
        v.push(DatabaseDriver::Postgres);
        v.push(DatabaseDriver::MySql);
        v
    }

    pub fn from_index(index: usize) -> (d: Self)
        ensures
            d == DatabaseDriver::from_index_spec(index),
    {
        if index == 1 {
            DatabaseDriver::MySql
        } else {
            DatabaseDriver::Postgres
        }
    }

    pub fn to_index(&self) -> (i: usize)
        ensures
            i == self.index_of(),
    {
        match self {
            DatabaseDriver::Postgres => 0,
            DatabaseDriver::MySql => 1,
        }
    }
}

/// Storing a driver and reading it back gives the same driver.
pub proof fn lemma_driver_db_str_roundtrip(d: DatabaseDriver)
    ensures
        DatabaseDriver::from_db_seq(d.db_str()) == d,
{
    reveal_strlit("mysql");
    reveal_strlit("postgres");
    assert("postgres"@.len() != "mysql"@.len());
}

/// Selecting a driver by its index gives the same driver.
pub proof fn lemma_driver_index_roundtrip(d: DatabaseDriver)
    ensures
        DatabaseDriver::from_index_spec(d.index_of()) == d,
{
}

// ============================================================================
// SslMode
// ============================================================================

/// SSL mode options for database connections. The names follow PostgreSQL;
/// for MySQL each variant maps to the closest equivalent.
#[derive(Debug, Clone, Copy, PartialEq, Eq, Structural)]
pub enum SslMode {
    Disable,
    Prefer,
    Require,
    VerifyCa,
    VerifyFull,
}

/// PostgreSQL's SSL modes (the variants of sqlx's `PgSslMode`).
#[derive(Debug, Clone, Copy, PartialEq, Eq, Structural)]
pub enum PgSslMode {
    Disable,
    Allow,
    Prefer,
    Require,
    VerifyCa,
    VerifyFull,
}

/// MySQL's SSL modes (the variants of sqlx's `MySqlSslMode`).
#[derive(Debug, Clone, Copy, PartialEq, Eq, Structural)]
pub enum MySqlSslMode {
    Disabled,
    Preferred,
    Required,
    VerifyCa,
    VerifyIdentity,
}

impl Default for SslMode {
    fn default() -> (r: Self)
        ensures
            r == SslMode::Prefer,
    {
        SslMode::Prefer
    }
}

impl SslMode {
    pub open spec fn pg_mode(self) -> PgSslMode {
        match self {
            SslMode::Disable => PgSslMode::Disable,
            SslMode::Prefer => PgSslMode::Prefer,
            SslMode::Require => PgSslMode::Require,
            SslMode::VerifyCa => PgSslMode::VerifyCa,
            SslMode::VerifyFull => PgSslMode::VerifyFull,
        }
    }

    pub open spec fn mysql_mode(self) -> MySqlSslMode {
        match self {
            SslMode::Disable => MySqlSslMode::Disabled,
            SslMode::Prefer => MySqlSslMode::Preferred,
            SslMode::Require => MySqlSslMode::Required,
            SslMode::VerifyCa => MySqlSslMode::VerifyCa,
            SslMode::VerifyFull => MySqlSslMode::VerifyIdentity,
        }
    }

    pub open spec fn title(self) -> Seq<char> {
        match self {
            SslMode::Disable => "Disable"@,
            SslMode::Prefer => "Prefer"@,
            SslMode::Require => "Require"@,
            SslMode::VerifyCa => "Verify CA"@,
            SslMode::VerifyFull => "Verify Full"@,
        }
    }

    pub open spec fn description_of(self) -> Seq<char> {
        match self {
            SslMode::Disable => "No SSL connection"@,
            SslMode::Prefer => "Try SSL first, fall back to non-SSL"@,
            SslMode::Require => "Require SSL, don't verify certificates"@,
            SslMode::VerifyCa => "Require SSL and verify server certificate"@,
            SslMode::VerifyFull => "Require SSL, verify certificate and hostname"@,
        }
    }

    pub open spec fn index_of(self) -> usize {
        match self {
            SslMode::Disable => 0,
            SslMode::Prefer => 1,
            SslMode::Require => 2,
            SslMode::VerifyCa => 3,
            SslMode::VerifyFull => 4,
        }
    }

    pub open spec fn from_index_spec(index: usize) -> SslMode {
        if index == 0 {
            SslMode::Disable
        } else if index == 1 {
            SslMode::Prefer
        } else if index == 2 {
            SslMode::Require
        } else if index == 3 {
            SslMode::VerifyCa
        } else if index == 4 {
            SslMode::VerifyFull
        } else {
            SslMode::Prefer
        }
    }

    /// The string stored in the `ssl_mode` column.
    pub open spec fn db_str(self) -> Seq<char> {
        match self {
            SslMode::Disable => "disable"@,
            SslMode::Prefer => "prefer"@,
            SslMode::Require => "require"@,
            SslMode::VerifyCa => "verify-ca"@,
            SslMode::VerifyFull => "verify-full"@,
        }
    }

    /// The mode read back from a stored string; unknown strings give
    /// `Prefer`.
    pub open spec fn from_db_seq(s: Seq<char>) -> SslMode {
        if s == "disable"@ {
            SslMode::Disable
        } else if s == "prefer"@ {
            SslMode::Prefer
        } else if s == "require"@ {
            SslMode::Require
        } else if s == "verify-ca"@ {
            SslMode::VerifyCa
        } else if s == "verify-full"@ {
            SslMode::VerifyFull
        } else {
            SslMode::Prefer
        }
    }

    /// Convert to PostgreSQL's SSL mode.
    pub fn to_pg_ssl_mode(&self) -> (m: PgSslMode)
        ensures
            m == self.pg_mode(),
    {
        match self {
            SslMode::Disable => PgSslMode::Disable,
            SslMode::Prefer => PgSslMode::Prefer,
            SslMode::Require => PgSslMode::Require,
            SslMode::VerifyCa => PgSslMode::VerifyCa,
            SslMode::VerifyFull => PgSslMode::VerifyFull,
        }
    }

    /// Convert to MySQL's SSL mode.
    pub fn to_mysql_ssl_mode(&self) -> (m: MySqlSslMode)
        ensures
            m == self.mysql_mode(),
    {
        match self {
            SslMode::Disable => MySqlSslMode::Disabled,
            SslMode::Prefer => MySqlSslMode::Preferred,
            SslMode::Require => MySqlSslMode::Required,
            SslMode::VerifyCa => MySqlSslMode::VerifyCa,
            SslMode::VerifyFull => MySqlSslMode::VerifyIdentity,
        }
    }

    /// The display string for this SSL mode.
    pub fn as_str(&self) -> (s: &'static str)
        ensures
            s@ == self.title(),
    {
        match self {
            SslMode::Disable => "Disable",
            SslMode::Prefer => "Prefer",
            SslMode::Require => "Require",
            SslMode::VerifyCa => "Verify CA",
            SslMode::VerifyFull => "Verify Full",
        }
    }

    /// A description of what this SSL mode does.
    pub fn description(&self) -> (s: &'static str)
        ensures
            s@ == self.description_of(),
    {
        match self {
            SslMode::Disable => "No SSL connection",
            SslMode::Prefer => "Try SSL first, fall back to non-SSL",
            SslMode::Require => "Require SSL, don't verify certificates",
            SslMode::VerifyCa => "Require SSL and verify server certificate",
            SslMode::VerifyFull => "Require SSL, verify certificate and hostname",
        }
    }

    /// All available SSL modes, in index order.
    pub fn all() -> (v: Vec<SslMode>)
        ensures
            v@ == seq![
                SslMode::Disable,
                SslMode::Prefer,
                SslMode::Require,
                SslMode::VerifyCa,
                SslMode::VerifyFull,
            ],
    {
        let mut v = Vec::new();
        v.push(SslMode::Disable);
        v.push(SslMode::Prefer);
        v.push(SslMode::Require);
        v.push(SslMode::VerifyCa);
        v.push(SslMode::VerifyFull);
        v
    }

    /// An SSL mode from a zero-based index; out-of-range gives `Prefer`.
    pub fn from_index(index: usize) -> (m: Self)
        ensures
            m == SslMode::from_index_spec(index),
    {
        match index {
            0 => SslMode::Disable,
            1 => SslMode::Prefer,
            2 => SslMode::Require,
            3 => SslMode::VerifyCa,
            4 => SslMode::VerifyFull,
            _ => SslMode::Prefer,
        }
    }

    /// This SSL mode's zero-based index.
    pub fn to_index(&self) -> (i: usize)
        ensures
            i == self.index_of(),
    {
        match self {
            SslMode::Disable => 0,
            SslMode::Prefer => 1,
            SslMode::Require => 2,
            SslMode::VerifyCa => 3,
            SslMode::VerifyFull => 4,
        }
    }

    /// Parse an SSL mode from its stored string.
    pub fn from_db_str(s: &str) -> (m: Self)
        ensures
            m == SslMode::from_db_seq(s@),
    {
        if crate::text::str_eq(s, "disable") {
            SslMode::Disable
        } else if crate::text::str_eq(s, "prefer") {
            SslMode::Prefer
        } else if crate::text::str_eq(s, "require") {
            SslMode::Require
        } else if crate::text::str_eq(s, "verify-ca") {
            SslMode::VerifyCa
        } else if crate::text::str_eq(s, "verify-full") {
            SslMode::VerifyFull
        } else {
            SslMode::Prefer
        }
    }

    /// The string stored for this SSL mode.
    pub fn to_db_str(&self) -> (s: &'static str)
        ensures
            s@ == self.db_str(),
    {
        match self {
            SslMode::Disable => "disable",
            SslMode::Prefer => "prefer",
            SslMode::Require => "require",
            SslMode::VerifyCa => "verify-ca",
            SslMode::VerifyFull => "verify-full",
        }
    }
}

/// Storing an SSL mode and reading it back gives the same mode.
pub proof fn lemma_ssl_mode_db_str_roundtrip(m: SslMode)
    ensures
        SslMode::from_db_seq(m.db_str()) == m,
{
    reveal_strlit("disable");
    reveal_strlit("prefer");
    reveal_strlit("require");
    reveal_strlit("verify-ca");
    reveal_strlit("verify-full");
    let d = "disable"@;
    let p = "prefer"@;
    let r = "require"@;
    let c = "verify-ca"@;
    let f = "verify-full"@;
    assert(d[0] != p[0] && d[0] != r[0] && d.len() != c.len() && d.len() != f.len());
    assert(p.len() != r.len() && p.len() != c.len() && p.len() != f.len());
    assert(r.len() != c.len() && r.len() != f.len() && c.len() != f.len());
}

/// Selecting an SSL mode by its index gives the same mode.
pub proof fn lemma_ssl_mode_index_roundtrip(m: SslMode)
    ensures
        SslMode::from_index_spec(m.index_of()) == m,
{
}


// ============================================================================
// Connection identifiers
// ============================================================================

/// Lowercase hexadecimal digit for `d < 16`.
pub open spec fn hex_lower(d: u128) -> char {
    if d < 10 {
        crate::text::char_from_digit(d as nat)
    } else if d == 10 {
        'a'
    } else if d == 11 {
        'b'
    } else if d == 12 {
        'c'
    } else if d == 13 {
        'd'
    } else if d == 14 {
        'e'
    } else {
        'f'
    }
}

/// Which of the 32 hex digits stands at position `i` of the hyphenated text.
pub open spec fn uuid_digit_index(i: int) -> int {
    if i < 8 {
        i
    } else if i < 13 {
        i - 1
    } else if i < 18 {
        i - 2
    } else if i < 23 {
        i - 3
    } else {
        i - 4
    }
}

/// The hyphenated lowercase text of a UUID (`8-4-4-4-12` hex digits of the
/// 128-bit value, most significant first).
pub open spec fn uuid_text(id: u128) -> Seq<char> {
    Seq::new(
        36,
        |i: int|
            if i == 8 || i == 13 || i == 18 || i == 23 {
                '-'
            } else {
                hex_lower((id >> ((4 * (31 - uuid_digit_index(i))) as u128)) & 0xf)
            },
    )
}

/// What `uuid::Uuid::parse_str` gives for the given text, as the UUID's
/// 128-bit value.
pub uninterp spec fn uuid_parse(s: Seq<char>) -> Option<u128>;

/// `uuid::Uuid::from_u128(id).to_string()`: the hyphenated lowercase form.
#[verifier::external_body]
pub(crate) fn uuid_to_string(id: u128) -> (s: String)
    ensures
        s@ == uuid_text(id),
{
    uuid::Uuid::from_u128(id).to_string()
}

/// `uuid::Uuid::parse_str(s)`, giving the parsed value. Its accepted formats
/// (simple, hyphenated, braced, URN) are left unstated beyond the named
/// result; the hyphenated text of any value parses back to that value.
#[verifier::external_body]
pub(crate) fn uuid_parse_str(s: &str) -> (r: Option<u128>)
    ensures
        r == uuid_parse(s@),
        forall|v: u128| s@ == uuid_text(v) ==> r == Some(v),
{
    match uuid::Uuid::parse_str(s) {
        Ok(u) => Some(u.as_u128()),
        Err(_) => None,
    }
}

/// `uuid::Uuid::new_v4()`: a random version-4 UUID, as its 128-bit value.
/// Which value comes back is random; only the version digit is fixed.
#[verifier::external_body]
pub(crate) fn new_uuid_v4() -> (r: u128)
    ensures
        (r >> 76u128) & 0xf == 4,
{
    uuid::Uuid::new_v4().as_u128()
}

// ============================================================================
// ConnectionInfo
// ============================================================================

/// Database connection configuration.
#[derive(Debug, Clone)]
pub struct ConnectionInfo {
    /// The connection's UUID, as its 128-bit value.
    pub id: u128,
    pub name: String,
    pub driver: DatabaseDriver,
    pub hostname: String,
    pub username: String,
    pub password: String,
    pub database: String,
    pub port: usize,
    pub ssl_mode: SslMode,
    /// Optional SSH tunnel. When present, the tunnel is opened first and
    /// the database is reached through `127.0.0.1:<tunnel-port>`.
    pub ssh: Option<SshConfig>,
}

/// Options for opening a PostgreSQL connection (the settings that sqlx's
/// `PgConnectOptions` is built from).
#[derive(Debug, Clone)]
pub struct PgConnectOptions {
    pub host: String,
    pub port: u16,
    pub username: String,
    pub password: String,
    /// `None` leaves the database to the server's default.
    pub database: Option<String>,
    pub ssl_mode: PgSslMode,
}

/// Options for opening a MySQL connection (the settings that sqlx's
/// `MySqlConnectOptions` is built from).
#[derive(Debug, Clone)]
pub struct MySqlConnectOptions {
    pub host: String,
    pub port: u16,
    pub username: String,
    pub password: String,
    /// `None` leaves the connection without a current database.
    pub database: Option<String>,
    pub ssl_mode: MySqlSslMode,
}

/// The database setting for connect options: an empty name means "unset".
pub open spec fn database_setting(db: Seq<char>, setting: Option<String>) -> bool {
    match setting {
        Some(d) => db.len() > 0 && d@ == db,
        None => db.len() == 0,
    }
}

fn database_option(db: &String) -> (r: Option<String>)
    ensures
        database_setting(db@, r),
{
    if db.as_str().is_empty() {
        None
    } else {
        Some(db.clone())
    }
}

fn option_str(o: &Option<String>) -> (r: Option<&str>)
    ensures
        match (o, r) {
            (Some(a), Some(b)) => a@ == b@,
            (None, None) => true,
            _ => false,
        },
{
    match o {
        Some(d) => Some(d.as_str()),
        None => None,
    }
}

impl PgConnectOptions {
    pub fn get_host(&self) -> (h: &str)
        ensures
            h@ == self.host@,
    {
        self.host.as_str()
    }

    pub fn get_port(&self) -> (p: u16)
        ensures
            p == self.port,
    {
        self.port
    }

    pub fn get_username(&self) -> (u: &str)
        ensures
            u@ == self.username@,
    {
        self.username.as_str()
    }

    pub fn get_database(&self) -> (d: Option<&str>)
        ensures
            match (self.database, d) {
                (Some(a), Some(b)) => a@ == b@,
                (None, None) => true,
                _ => false,
            },
    {
        option_str(&self.database)
    }
}

impl MySqlConnectOptions {
    pub fn get_host(&self) -> (h: &str)
        ensures
            h@ == self.host@,
    {
        self.host.as_str()
    }

    pub fn get_port(&self) -> (p: u16)
        ensures
            p == self.port,
    {
        self.port
    }

    pub fn get_username(&self) -> (u: &str)
        ensures
            u@ == self.username@,
    {
        self.username.as_str()
    }

    pub fn get_database(&self) -> (d: Option<&str>)
        ensures
            match (self.database, d) {
                (Some(a), Some(b)) => a@ == b@,
                (None, None) => true,
                _ => false,
            },
    {
        option_str(&self.database)
    }
}

impl ConnectionInfo {
    /// A new PostgreSQL connection with a fresh random id and no tunnel.
    pub fn new(
        name: String,
        hostname: String,
        username: String,
        password: String,
        database: String,
        port: usize,
        ssl_mode: SslMode,
    ) -> (c: Self)
        ensures
            c.name == name,
            c.driver == DatabaseDriver::Postgres,
            c.hostname == hostname,
            c.username == username,
            c.password == password,
            c.database == database,
            c.port == port,
            c.ssl_mode == ssl_mode,
            c.ssh is None,
            (c.id >> 76u128) & 0xf == 4,
    {
        ConnectionInfo {
            id: new_uuid_v4(),
            name,
            driver: DatabaseDriver::Postgres,
            hostname,
            username,
            password,
            database,
            port,
            ssl_mode,
            ssh: None,
        }
    }

    /// A copy of this value with equal fields.
    pub fn duplicate(&self) -> (r: Self)
        ensures
            r == *self,
    {
        ConnectionInfo {
            id: self.id,
            name: self.name.clone(),
            driver: self.driver,
            hostname: self.hostname.clone(),
            username: self.username.clone(),
            password: self.password.clone(),
            database: self.database.clone(),
            port: self.port,
            ssl_mode: self.ssl_mode,
            ssh: match &self.ssh {
                Some(c) => Some(c.duplicate()),
                None => None,
            },
        }
    }

    /// PostgreSQL options for the given endpoint. `host`/`port` differ from
    /// `self.hostname`/`self.port` when an SSH tunnel is in use. An empty
    /// database name is not passed on, so the server default applies.
    pub fn to_pg_connect_options_for(&self, host: &str, port: u16) -> (o: PgConnectOptions)
        ensures
            o.host@ == host@,
            o.port == port,
            o.username@ == self.username@,
            o.password@ == self.password@,
            o.ssl_mode == self.ssl_mode.pg_mode(),
            database_setting(self.database@, o.database),
    {
        PgConnectOptions {
            host: host.to_owned(),
            port,
            username: self.username.clone(),
            password: self.password.clone(),
            database: database_option(&self.database),
            ssl_mode: self.ssl_mode.to_pg_ssl_mode(),
        }
    }

    /// MySQL options for the given endpoint; see
    /// [`Self::to_pg_connect_options_for`] for the empty-database rule.
    pub fn to_mysql_connect_options_for(&self, host: &str, port: u16) -> (o: MySqlConnectOptions)
        ensures
            o.host@ == host@,
            o.port == port,
            o.username@ == self.username@,
            o.password@ == self.password@,
            o.ssl_mode == self.ssl_mode.mysql_mode(),
            database_setting(self.database@, o.database),
    {
        MySqlConnectOptions {
            host: host.to_owned(),
            port,
            username: self.username.clone(),
            password: self.password.clone(),
            database: database_option(&self.database),
            ssl_mode: self.ssl_mode.to_mysql_ssl_mode(),
        }
    }

    /// Direct-connection PostgreSQL options (no SSH tunnel).
    pub fn to_pg_connect_options(&self) -> (o: PgConnectOptions)
        ensures
            o.host@ == self.hostname@,
            o.port == self.port as u16,
            o.username@ == self.username@,
            o.password@ == self.password@,
            o.ssl_mode == self.ssl_mode.pg_mode(),
            database_setting(self.database@, o.database),
    {
        self.to_pg_connect_options_for(self.hostname.as_str(), self.port as u16)
    }

    /// Direct-connection MySQL options (no SSH tunnel).
    pub fn to_mysql_connect_options(&self) -> (o: MySqlConnectOptions)
        ensures
            o.host@ == self.hostname@,
            o.port == self.port as u16,
            o.username@ == self.username@,
            o.password@ == self.password@,
            o.ssl_mode == self.ssl_mode.mysql_mode(),
            database_setting(self.database@, o.database),
    {
        self.to_mysql_connect_options_for(self.hostname.as_str(), self.port as u16)
    }
}

impl Default for ConnectionInfo {
    fn default() -> (c: Self)
        ensures
            c.name@ == "Test"@,
            c.driver == DatabaseDriver::Postgres,
            c.hostname@ == "localhost"@,
            c.username@ == "test"@,
            c.password@ == "test"@,
            c.database@ == "test"@,
            c.port == 5432,
            c.ssl_mode == SslMode::Prefer,
            c.ssh is None,
            (c.id >> 76u128) & 0xf == 4,
    {
        ConnectionInfo {
            id: new_uuid_v4(),
            name: "Test".to_owned(),
            driver: DatabaseDriver::Postgres,
            hostname: "localhost".to_owned(),
            username: "test".to_owned(),
            password: "test".to_owned(),
            database: "test".to_owned(),
            port: 5432,
            ssl_mode: SslMode::Prefer,
            ssh: None,
        }
    }
}

/// One executed statement in the query history.
#[derive(Debug, Clone)]
pub struct QueryHistoryEntry {
    pub id: u128,
    pub connection_id: u128,
    pub sql: String,
    pub execution_time_ms: i64,
    pub rows_affected: Option<i64>,
    pub success: bool,
    pub error_message: Option<String>,
    /// When it ran, in milliseconds since the Unix epoch (UTC).
    pub executed_at: i64,
}

} // verus!
