//! Data shapes handed back to the caller: column metadata, table metadata,
//! tabular query results and the connection probe outcome.
//!
//! Every entity is constructed fresh per call and never mutated afterwards;
//! nothing is cached or shared across calls.

use vstd::prelude::*;

verus! {

/// Metadata of one column, as the engine's live schema reports it.
#[derive(Debug)]
pub struct ColumnInfo {
    pub name: String,
    /// Declared type text; may be empty for an untyped column.
    pub data_type: String,
    pub nullable: bool,
    pub primary_key: bool,
    pub default_value: Option<String>,
}

/// Metadata of one table: its columns in engine-reported order, plus a
/// best-effort row count (absent when counting failed).
#[derive(Debug)]
pub struct TableInfo {
    pub name: String,
    pub columns: Vec<ColumnInfo>,
    pub row_count: Option<u64>,
}

/// A normalized tabular result: column labels, rows of optional string
/// cells (`None` represents SQL NULL), the wall-clock execution time and a
/// row count (rows returned for reads, a fixed 1 for writes).
#[derive(Debug)]
pub struct QueryResult {
    pub columns: Vec<String>,
    pub rows: Vec<Vec<Option<String>>>,
    pub execution_time_ms: u64,
    pub row_count: usize,
}

/// Outcome of a connection probe: a bare boolean signal, never an error.
#[derive(Debug)]
pub struct ConnectionStatus {
    pub can_open: bool,
}

/// One raw row of the engine's column catalog for a table, already read
/// into plain values. Field meanings follow the engine's column catalog:
/// `notnull` is nonzero when the column refuses NULL, `primary_key_index`
/// is the column's one-based position in the primary key (zero when the
/// column is not part of it).
#[derive(Debug)]
pub struct PragmaColumnRow {
    pub name: String,
    pub data_type: String,
    pub notnull: i64,
    pub default_value: Option<String>,
    pub primary_key_index: i64,
}

} // verus!
