//! The state behind the application's windows: the connection form, the
//! connection lifecycle, the results table and the workspace layout.
pub mod connection_form;
pub mod results;
pub mod layout;
