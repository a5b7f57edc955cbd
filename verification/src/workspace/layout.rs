//! The main window's layout: what it shows for each connection phase and
//! which side panels are open.
use vstd::prelude::*;
use crate::database::types::{ErrorResult, QueryExecutionResult};
use crate::state::connection::ConnectionStatus;
use crate::text::concat;

verus! {

/// What fills the main window.
#[derive(Debug, Clone, Copy, PartialEq, Eq, Structural)]
pub enum WorkspaceContent {
    /// The saved connections and the connection form.
    ConnectionManager,
    /// A spinner while connecting or disconnecting.
    Loading,
    /// Tables, editor, results and the open side panels.
    Connected,
}

/// A side panel switched on or off from the footer bar.
#[derive(Debug, Clone, Copy, PartialEq, Eq, Structural)]
pub enum PanelToggle {
    Tables(bool),
    Agent(bool),
    History(bool),
}

/// The main window's state.
#[derive(Debug, Clone, Copy, PartialEq, Eq, Structural)]
pub struct Workspace {
    pub connection_state: ConnectionStatus,
    pub show_tables: bool,
    pub show_agent: bool,
    pub show_history: bool,
}

/// What the window shows in each connection phase.
pub open spec fn content_for(status: ConnectionStatus) -> WorkspaceContent {
    match status {
        ConnectionStatus::Disconnected => WorkspaceContent::ConnectionManager,
        ConnectionStatus::Connected => WorkspaceContent::Connected,
        ConnectionStatus::Connecting => WorkspaceContent::Loading,
        ConnectionStatus::Disconnecting => WorkspaceContent::Loading,
    }
}

impl Workspace {
    /// Disconnected, with the tables panel open and the others closed.
    pub fn new() -> (w: Self)
        ensures
            w == (Workspace {
                connection_state: ConnectionStatus::Disconnected,
                show_tables: true,
                show_agent: false,
                show_history: false,
            }),
    {
        Workspace {
            connection_state: ConnectionStatus::Disconnected,
            show_tables: true,
            show_agent: false,
            show_history: false,
        }
    }

    /// Follows the shared connection phase.
    pub fn observe_connection_state(&mut self, status: ConnectionStatus)
        ensures
            *final(self) == (Workspace { connection_state: status, ..*old(self) }),
    {
        self.connection_state = status;
    }

    /// Opens or closes a side panel.
    pub fn toggle(&mut self, event: PanelToggle)
        ensures
            *final(self) == match event {
                PanelToggle::Tables(b) => Workspace { show_tables: b, ..*old(self) },
                PanelToggle::Agent(b) => Workspace { show_agent: b, ..*old(self) },
                PanelToggle::History(b) => Workspace { show_history: b, ..*old(self) },
            },
    {
        match event {
            PanelToggle::Tables(b) => {
                self.show_tables = b;
            },
            PanelToggle::Agent(b) => {
                self.show_agent = b;
            },
            PanelToggle::History(b) => {
                self.show_history = b;
            },
        }
    }

    /// What fills the window now.
    pub fn content(&self) -> (c: WorkspaceContent)
        ensures
            c == content_for(self.connection_state),
    {
        match self.connection_state {
            ConnectionStatus::Disconnected => WorkspaceContent::ConnectionManager,
            ConnectionStatus::Connected => WorkspaceContent::Connected,
            ConnectionStatus::Connecting => WorkspaceContent::Loading,
            ConnectionStatus::Disconnecting => WorkspaceContent::Loading,
        }
    }
}

/// The outcome shown when a table's columns could not be loaded.
pub fn table_columns_error(error: &str) -> (r: QueryExecutionResult)
    ensures
        r matches QueryExecutionResult::Error(e) && e.execution_time_ms == 0 && e.message@
            == "Failed to load table columns: "@ + error@,
{
    QueryExecutionResult::Error(
        ErrorResult {
            execution_time_ms: 0,
            message: concat("Failed to load table columns: ", error),
        },
    )
}

} // verus!
