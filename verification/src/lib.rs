//! Core of a local SQLite inspection utility: schema introspection, ad-hoc
//! query execution and connection probing, expressed over plain values.
//!
//! The engine itself (connection handling, statement execution) is reached by
//! the surrounding application; this crate holds the logic that decides what
//! to ask the engine and how to shape what it answers.

pub mod error;
pub mod models;
pub mod numfmt;
pub mod probe;
pub mod query;
pub mod schema;
pub mod sqltext;
