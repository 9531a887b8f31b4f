//! Error taxonomy for database operations: a tagged variant per failure
//! class, flattened to a human-readable string only at the outer boundary.

use vstd::prelude::*;
use vstd::string::StringExecFns;

verus! {

/// One failed database operation. Each variant carries the diagnostic text
/// that the engine (or the schema lookup) produced.
#[derive(Debug)]
pub enum DatabaseError {
    /// The database file could not be opened or accessed.
    ConnectionError(String),
    /// The engine rejected or failed a statement.
    QueryError(String),
    /// A schema lookup found no table of the given name.
    TableNotFound(String),
}

/// The flattened form of an error: a fixed prefix per variant, then the
/// carried diagnostic text.
pub open spec fn spec_message(e: DatabaseError) -> Seq<char> {
    match e {
        DatabaseError::ConnectionError(m) => "Connection failed: "@ + m@,
        DatabaseError::QueryError(m) => "Query failed: "@ + m@,
        DatabaseError::TableNotFound(m) => "Table not found "@ + m@,
    }
}

impl DatabaseError {
    /// Flattens the error to the human-readable string that crosses the
    /// outer boundary.
    pub fn message(&self) -> (r: String)
        ensures
            r@ == spec_message(*self),
    {
        match self {
            DatabaseError::ConnectionError(m) => {
                let mut s = String::from_str("Connection failed: ");
                s.append(m.as_str());
                s
            },
            DatabaseError::QueryError(m) => {
                let mut s = String::from_str("Query failed: ");
                s.append(m.as_str());
                s
            },
            DatabaseError::TableNotFound(m) => {
                let mut s = String::from_str("Table not found ");
                s.append(m.as_str());
                s
            },
        }
    }
}

} // verus!
