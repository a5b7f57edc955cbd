//! The SQLite schema of the application store and its migrations.
use vstd::prelude::*;
use crate::text::concat;

verus! {

/// The `connections` table.
pub const CREATE_CONNECTIONS_TABLE: &'static str = "CREATE TABLE IF NOT EXISTS connections (
    id TEXT PRIMARY KEY,
    name TEXT NOT NULL UNIQUE,
    driver TEXT NOT NULL DEFAULT 'postgres',
    hostname TEXT NOT NULL,
    username TEXT NOT NULL,
    database TEXT NOT NULL,
    port INTEGER NOT NULL,
    ssl_mode TEXT NOT NULL DEFAULT 'prefer',
    ssh_enabled INTEGER NOT NULL DEFAULT 0,
    ssh_host TEXT,
    ssh_port INTEGER,
    ssh_username TEXT,
    ssh_auth_type TEXT,
    ssh_key_path TEXT,
    created_at TIMESTAMP DEFAULT CURRENT_TIMESTAMP,
    updated_at TIMESTAMP DEFAULT CURRENT_TIMESTAMP
)";

/// Index on connection names for faster lookups.
pub const CREATE_CONNECTIONS_NAME_INDEX: &'static str =
    "CREATE INDEX IF NOT EXISTS idx_connections_name ON connections(name)";

/// The `query_history` table.
pub const CREATE_QUERY_HISTORY_TABLE: &'static str = "CREATE TABLE IF NOT EXISTS query_history (
    id TEXT PRIMARY KEY,
    connection_id TEXT NOT NULL,
    sql TEXT NOT NULL,
    execution_time_ms INTEGER NOT NULL,
    rows_affected INTEGER,
    success INTEGER NOT NULL,
    error_message TEXT,
    executed_at TIMESTAMP NOT NULL,
    FOREIGN KEY (connection_id) REFERENCES connections(id) ON DELETE CASCADE
)";

/// Index for fast history lookups by connection.
pub const CREATE_HISTORY_CONNECTION_INDEX: &'static str =
    "CREATE INDEX IF NOT EXISTS idx_history_connection ON query_history(connection_id, executed_at DESC)";

/// Columns selected when loading connections, in `ConnectionRow` order.
pub const SELECT_COLS: &'static str =
    "id, name, driver, hostname, username, database, port, ssl_mode, ssh_enabled, ssh_host, ssh_port, ssh_username, ssh_auth_type, ssh_key_path";

/// A column added after the first release, and the statement adding it.
#[derive(Debug, Clone, Copy)]
pub struct Migration {
    pub column: &'static str,
    pub ddl: &'static str,
}

/// The columns that migration adds to an older `connections` table.
pub open spec fn migration_columns() -> Seq<Seq<char>> {
    seq![
        "ssl_mode"@,
        "driver"@,
        "ssh_enabled"@,
        "ssh_host"@,
        "ssh_port"@,
        "ssh_username"@,
        "ssh_auth_type"@,
        "ssh_key_path"@,
    ]
}

/// The migrations, in the order they are attempted. Each is probed and
/// applied independently.
pub fn migrations() -> (v: Vec<Migration>)
    ensures
        v@.len() == 8,
        forall|i: int| 0 <= i < 8 ==> (#[trigger] v@[i]).column@ == migration_columns()[i],
{
    let mut v = Vec::new();
    v.push(Migration { column: "ssl_mode", ddl: "ALTER TABLE connections ADD COLUMN ssl_mode TEXT NOT NULL DEFAULT 'prefer'" });
    v.push(Migration { column: "driver", ddl: "ALTER TABLE connections ADD COLUMN driver TEXT NOT NULL DEFAULT 'postgres'" });
    v.push(Migration { column: "ssh_enabled", ddl: "ALTER TABLE connections ADD COLUMN ssh_enabled INTEGER NOT NULL DEFAULT 0" });
    v.push(Migration { column: "ssh_host", ddl: "ALTER TABLE connections ADD COLUMN ssh_host TEXT" });
    v.push(Migration { column: "ssh_port", ddl: "ALTER TABLE connections ADD COLUMN ssh_port INTEGER" });
    v.push(Migration { column: "ssh_username", ddl: "ALTER TABLE connections ADD COLUMN ssh_username TEXT" });
    v.push(Migration { column: "ssh_auth_type", ddl: "ALTER TABLE connections ADD COLUMN ssh_auth_type TEXT" });
    v.push(Migration { column: "ssh_key_path", ddl: "ALTER TABLE connections ADD COLUMN ssh_key_path TEXT" });
    v
}

/// The query that succeeds exactly when `column` already exists.
pub fn probe_sql(column: &str) -> (q: String)
    ensures
        q@ == "SELECT "@ + column@ + " FROM connections LIMIT 1"@,
{
    let a = concat("SELECT ", column);
    concat(a.as_str(), " FROM connections LIMIT 1")
}

} // verus!
