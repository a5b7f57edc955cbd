//! Result types of queries and schema introspection.
use vstd::prelude::*;

verus! {

#[derive(Debug, Clone)]
pub struct TableInfo {
    pub table_name: String,
    pub table_schema: String,
    pub table_type: String,
}

#[derive(Debug, Clone)]
pub struct TableSchema {
    pub table_name: String,
    pub table_schema: String,
    pub table_type: String,
    pub columns: Vec<ColumnDetail>,
    pub primary_keys: Vec<String>,
    pub foreign_keys: Vec<ForeignKeyInfo>,
    pub indexes: Vec<IndexInfo>,
    pub constraints: Vec<ConstraintInfo>,
    pub description: Option<String>,
}

#[derive(Debug, Clone)]
pub struct ColumnDetail {
    pub column_name: String,
    pub data_type: String,
    pub is_nullable: bool,
    pub column_default: Option<String>,
    pub ordinal_position: i32,
    pub character_maximum_length: Option<i32>,
    pub numeric_precision: Option<i32>,
    pub numeric_scale: Option<i32>,
    pub description: Option<String>,
}

#[derive(Debug, Clone)]
pub struct ForeignKeyInfo {
    pub constraint_name: String,
    pub column_name: String,
    pub foreign_table_schema: String,
    pub foreign_table_name: String,
    pub foreign_column_name: String,
}

#[derive(Debug, Clone)]
pub struct IndexInfo {
    pub index_name: String,
    pub columns: Vec<String>,
    pub is_unique: bool,
    pub is_primary: bool,
    pub index_type: String,
}

#[derive(Debug, Clone)]
pub struct ConstraintInfo {
    pub constraint_name: String,
    pub constraint_type: String,
    pub columns: Vec<String>,
    pub check_clause: Option<String>,
}

#[derive(Debug, Clone)]
pub struct DatabaseSchema {
    pub tables: Vec<TableSchema>,
    pub total_tables: usize,
}

/// Metadata about a column of a query result.
#[derive(Debug, Clone)]
pub struct ResultColumnMetadata {
    pub name: String,
    pub column_type: String,
    pub ordinal: usize,
    /// The source table name, when the query metadata gives it.
    pub table_name: Option<String>,
    /// Whether the column allows NULL values, when known.
    pub is_nullable: Option<bool>,
}

/// A cell value with its metadata.
#[derive(Debug, Clone)]
pub struct ResultCell {
    /// String representation of the value.
    pub value: String,
    /// Whether the value is NULL.
    pub is_null: bool,
    /// Metadata of the cell's column.
    pub column_metadata: ResultColumnMetadata,
}

/// A row with full metadata.
#[derive(Debug, Clone)]
pub struct ResultRow {
    pub cells: Vec<ResultCell>,
}

/// Query result with full metadata.
#[derive(Debug, Clone)]
pub struct QueryResult {
    pub columns: Vec<ResultColumnMetadata>,
    pub rows: Vec<ResultRow>,
    pub row_count: usize,
    pub execution_time_ms: u128,
    pub original_query: String,
}

#[derive(Debug, Clone)]
pub struct ModifiedResult {
    pub rows_affected: u64,
    pub execution_time_ms: u128,
}

#[derive(Debug, Clone)]
pub struct ErrorResult {
    pub message: String,
    pub execution_time_ms: u128,
}

/// Result of a query execution.
#[derive(Debug, Clone)]
pub enum QueryExecutionResult {
    Select(QueryResult),
    Modified(ModifiedResult),
    Error(ErrorResult),
}

#[derive(Debug, Clone)]
pub struct DatabaseInfo {
    pub datname: String,
}

} // verus!
