//! Query results, query classification and result assembly, and schema
//! introspection results for PostgreSQL and MySQL.
pub mod types;
pub mod query;
pub mod postgres;
pub mod mysql;
pub mod schema;
pub mod manager;
