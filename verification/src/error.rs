//! Structured errors of the catalog storage layer. The layer never logs or
//! terminates on its own: every operation returns one of these kinds and the
//! caller decides retry, skip or abort.

use vstd::prelude::*;

verus! {

/// The error kinds an operation can surface.
#[derive(Debug, Clone, PartialEq, Eq)]
pub enum DbError {
    /// A uniqueness constraint was violated: the `uid` of an inserted record
    /// already exists in the catalog.
    Constraint,
    /// The store already holds a table named `photo` whose stored schema text
    /// is not the catalog schema. Bootstrapping refuses such a store: every
    /// other contract of the layer speaks of the catalog schema's table.
    SchemaMismatch,
    /// A caller-supplied sort column is not a known photo field, so it was
    /// refused before reaching the statement.
    InvalidSortColumn,
    /// One storage row could not be decoded into a photo record; the
    /// enclosing query is aborted rather than the row skipped.
    Decode(String),
    /// Any other engine failure, with its message.
    Sqlite(String),
}

} // verus!
