//! Application state shared across windows, and the transitions that the
//! connection lifecycle drives it through.
pub mod connection;
