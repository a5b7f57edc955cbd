//! The connection lifecycle: which connection is open, in which phase, and
//! which connections are saved.
//!
//! Connecting, disconnecting and the CRUD actions on saved connections do
//! their I/O outside this module; each step here takes what that I/O
//! returned and gives the next state.
use vstd::prelude::*;
use crate::storage::types::ConnectionInfo;
use crate::text::concat;

verus! {

/// Told to the user when a saved connection has no password in the
/// keyring and none was typed.
pub const NO_PASSWORD_MESSAGE: &'static str = "No password on file for this connection. Type one in the form and click Connect (or Update to persist it).";

/// The phase of the database connection.
#[derive(Debug, Clone, Copy, PartialEq, Eq, Structural)]
pub enum ConnectionStatus {
    Disconnected,
    Connecting,
    Connected,
    Disconnecting,
}

/// The connection state shared by the whole application.
#[derive(Debug, Clone)]
pub struct ConnectionState {
    pub saved_connections: Vec<ConnectionInfo>,
    pub active_connection: Option<ConnectionInfo>,
    pub connection_state: ConnectionStatus,
}

/// `info` with its password replaced.
pub open spec fn with_password(info: ConnectionInfo, password: String) -> ConnectionInfo {
    ConnectionInfo { password, ..info }
}

/// The connection to open: a typed password is used as is; otherwise the
/// one stored in the keyring (`None` when there is none).
pub fn resolve_password(info: ConnectionInfo, stored: Option<String>) -> (r: Result<
    ConnectionInfo,
    String,
>)
    ensures
        info.password@.len() > 0 ==> r == Ok::<ConnectionInfo, String>(info),
        info.password@.len() == 0 ==> match stored {
            Some(p) => r == Ok::<ConnectionInfo, String>(with_password(info, p)),
            None => r matches Err(m) && m@ == NO_PASSWORD_MESSAGE@,
        },
{
    if !info.password.as_str().is_empty() {
        return Ok(info);
    }
    match stored {
        Some(p) => {
            let mut info = info;
            info.password = p;
            Ok(info)
        },
        None => Err(NO_PASSWORD_MESSAGE.to_owned()),
    }
}

/// Whether the keyring must be asked for the connection's password.
pub fn needs_stored_password(info: &ConnectionInfo) -> (b: bool)
    ensures
        b == (info.password@.len() == 0),
{
    info.password.as_str().is_empty()
}

impl ConnectionState {
    /// Nothing saved, nothing open.
    pub fn new() -> (s: Self)
        ensures
            s.saved_connections@.len() == 0,
            s.active_connection is None,
            s.connection_state == ConnectionStatus::Disconnected,
    {
        ConnectionState {
            saved_connections: Vec::new(),
            active_connection: None,
            connection_state: ConnectionStatus::Disconnected,
        }
    }

    /// A connection attempt starts.
    pub fn connect(&mut self)
        ensures
            *final(self) == (ConnectionState {
                connection_state: ConnectionStatus::Connecting,
                ..*old(self)
            }),
    {
        self.connection_state = ConnectionStatus::Connecting;
    }

    /// The attempt stopped before connecting because no password was
    /// found; returns the notice for the user.
    pub fn password_missing(&mut self) -> (m: String)
        ensures
            m@ == NO_PASSWORD_MESSAGE@,
            *final(self) == (ConnectionState {
                connection_state: ConnectionStatus::Disconnected,
                ..*old(self)
            }),
    {
        self.connection_state = ConnectionStatus::Disconnected;
        NO_PASSWORD_MESSAGE.to_owned()
    }

    /// The database refused the connection (`error` is its message);
    /// returns the notice for the user.
    pub fn connect_failed(&mut self, error: &str) -> (m: String)
        ensures
            m@ == "Connect failed: "@ + error@,
            final(self).active_connection is None,
            final(self).connection_state == ConnectionStatus::Disconnected,
            final(self).saved_connections == old(self).saved_connections,
    {
        self.active_connection = None;
        self.connection_state = ConnectionStatus::Disconnected;
        concat("Connect failed: ", error)
    }

    /// The connection is open.
    pub fn connected(&mut self, info: ConnectionInfo)
        ensures
            final(self).active_connection == Some(info),
            final(self).connection_state == ConnectionStatus::Connected,
            final(self).saved_connections == old(self).saved_connections,
    {
        self.active_connection = Some(info);
        self.connection_state = ConnectionStatus::Connected;
    }

    /// One round of the connection monitor, given whether the database
    /// still answers. Returns whether to keep monitoring: a lost
    /// connection is closed, and monitoring stops once no connection is
    /// open.
    pub fn monitor(&mut self, still_connected: bool) -> (keep_going: bool)
        ensures
            !still_connected ==> {
                &&& !keep_going
                &&& final(self).active_connection is None
                &&& final(self).connection_state == ConnectionStatus::Disconnected
                &&& final(self).saved_connections == old(self).saved_connections
            },
            still_connected ==> {
                &&& *final(self) == *old(self)
                &&& keep_going == old(self).active_connection is Some
            },
    {
        if !still_connected {
            self.active_connection = None;
            self.connection_state = ConnectionStatus::Disconnected;
            return false;
        }
        self.active_connection.is_some()
    }

    /// Disconnecting starts: the connection is no longer offered as open.
    pub fn begin_disconnect(&mut self)
        ensures
            final(self).active_connection is None,
            final(self).connection_state == ConnectionStatus::Disconnecting,
            final(self).saved_connections == old(self).saved_connections,
    {
        self.active_connection = None;
        self.connection_state = ConnectionStatus::Disconnecting;
    }

    /// Disconnecting ended; `closed` says whether a pool was closed.
    pub fn disconnect_finished(&mut self, closed: bool)
        ensures
            closed ==> {
                &&& final(self).active_connection is None
                &&& final(self).connection_state == ConnectionStatus::Disconnected
                &&& final(self).saved_connections == old(self).saved_connections
            },
            !closed ==> *final(self) == *old(self),
    {
        if closed {
            self.active_connection = None;
            self.connection_state = ConnectionStatus::Disconnected;
        }
    }

    /// The connection to reopen for switching to another database on the
    /// same server: the open one with `database_name` as its database.
    pub fn change_database(&self, database_name: String) -> (r: Option<ConnectionInfo>)
        ensures
            match self.active_connection {
                Some(c) => r == Some(ConnectionInfo { database: database_name, ..c }),
                None => r is None,
            },
    {
        match &self.active_connection {
            Some(c) => {
                let mut next = c.duplicate();
                next.database = database_name;
                Some(next)
            },
            None => None,
        }
    }

    /// A new connection was saved; `saved` is the reloaded list.
    pub fn add_connection(&mut self, saved: Vec<ConnectionInfo>)
        ensures
            final(self).saved_connections == saved,
            final(self).active_connection is None,
            final(self).connection_state == old(self).connection_state,
    {
        self.saved_connections = saved;
        self.active_connection = None;
    }

    /// `connection` was updated; `saved` is the reloaded list.
    pub fn update_connection(&mut self, saved: Vec<ConnectionInfo>, connection: ConnectionInfo)
        ensures
            final(self).saved_connections == saved,
            final(self).active_connection == Some(connection),
            final(self).connection_state == old(self).connection_state,
    {
        self.saved_connections = saved;
        self.active_connection = Some(connection);
    }

    /// A connection was deleted; `saved` is the reloaded list.
    pub fn delete_connection(&mut self, saved: Vec<ConnectionInfo>)
        ensures
            final(self).saved_connections == saved,
            final(self).active_connection == old(self).active_connection,
            final(self).connection_state == old(self).connection_state,
    {
        self.saved_connections = saved;
    }
}

} // verus!
