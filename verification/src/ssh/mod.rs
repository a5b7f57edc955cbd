//! SSH tunnel configuration and the decisions taken while opening a tunnel.
pub mod config;
pub mod tunnel;
