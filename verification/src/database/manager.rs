//! The decisions of the database front door: where to connect, how large a
//! pool to open, and what to answer when no pool is open.
use vstd::prelude::*;
use crate::ssh::tunnel::LOOPBACK_HOST;
use crate::storage::types::{ConnectionInfo, DatabaseDriver};

verus! {

/// The statement that checks a pool still answers.
pub const HEALTH_CHECK_SQL: &'static str = "SELECT 1";

/// The error for any operation attempted while no pool is open.
pub const NOT_CONNECTED: &'static str = "Database not connected";

/// Settings of a connection pool.
#[derive(Debug, Clone, Copy, PartialEq, Eq, Structural)]
pub struct PoolSettings {
    pub max_connections: u32,
    pub acquire_timeout_secs: u64,
}

/// The pool for a connection test holds one connection; the pool of an
/// open connection holds up to five. Either waits ten seconds for a
/// connection.
pub fn pool_settings(for_test: bool) -> (p: PoolSettings)
    ensures
        p.max_connections == (if for_test { 1u32 } else { 5u32 }),
        p.acquire_timeout_secs == 10,
{
    PoolSettings { max_connections: if for_test { 1 } else { 5 }, acquire_timeout_secs: 10 }
}

/// Whether the connection goes through an SSH tunnel.
pub fn needs_tunnel(info: &ConnectionInfo) -> (b: bool)
    ensures
        b == info.ssh is Some,
{
    info.ssh.is_some()
}

/// The database's address as the SSH server sees it: the saved host and
/// port (the port cut to 16 bits).
pub fn tunnel_target(info: &ConnectionInfo) -> (t: (String, u16))
    ensures
        t.0@ == info.hostname@,
        t.1 == info.port as u16,
{
    (info.hostname.clone(), #[verifier::truncate] (info.port as u16))
}

/// The address to open the pool against: the tunnel's local end when one
/// was opened (`tunnel_port`), else the saved host and port.
pub fn endpoint(info: &ConnectionInfo, tunnel_port: Option<u16>) -> (e: (String, u16))
    ensures
        match tunnel_port {
            Some(p) => e.0@ == LOOPBACK_HOST@ && e.1 == p,
            None => e.0@ == info.hostname@ && e.1 == info.port as u16,
        },
{
    match tunnel_port {
        Some(p) => (LOOPBACK_HOST.to_owned(), p),
        None => tunnel_target(info),
    }
}

/// The outcome of disconnecting, given whether a pool was open.
pub fn disconnect_outcome(had_pool: bool) -> (r: Result<(), String>)
    ensures
        had_pool ==> r is Ok,
        !had_pool ==> (r matches Err(m) && m@ == "No active database connection to disconnect"@),
{
    if had_pool {
        Ok(())
    } else {
        Err("No active database connection to disconnect".to_owned())
    }
}

/// Whether rows can be streamed for export from the open pool (`None`
/// when no pool is open): only PostgreSQL supports it.
pub fn stream_support(driver: Option<DatabaseDriver>) -> (r: Result<(), String>)
    ensures
        match driver {
            Some(DatabaseDriver::Postgres) => r is Ok,
            Some(DatabaseDriver::MySql) => r matches Err(m) && m@
                == "Streaming export is not yet implemented for MySQL"@,
            None => r matches Err(m) && m@ == NOT_CONNECTED@,
        },
{
    match driver {
        Some(DatabaseDriver::Postgres) => Ok(()),
        Some(DatabaseDriver::MySql) => Err(
            "Streaming export is not yet implemented for MySQL".to_owned(),
        ),
        None => Err(NOT_CONNECTED.to_owned()),
    }
}

} // verus!
