//! Saved connections: their types, the mapping to and from stored rows,
//! and the keyring layout for their secrets.
pub mod types;
pub mod connections;
pub mod schema;
